use squeak::hid::{ExchangeLog, Hid, HidError};
use squeak::identify::{arm_identify, identify_targets, restore_identify};
use squeak::proto::buttons::ButtonInfo;

/// A table of 16 slots that accepts macro uploads (0x54) and button writes
/// (0x52), and reads back what was written.
struct Table {
    slots: Vec<(u8, u32)>,
    macro_frames: Vec<Vec<u8>>,
}

impl Hid for Table {
    /// The exchange log is the verifier's model of this device; nothing
    /// calls it at run time.
    fn log(&self) -> ExchangeLog {
        unreachable!("the exchange log is not kept at run time")
    }

    fn get(&mut self, cmd: u8, payload: &[u8]) -> Result<Vec<u8>, HidError> {
        if cmd == 0x62 {
            let (t, d) = self.slots[payload[0] as usize];
            return Ok(vec![0xB4, 0x62, 0, 0, t, (d >> 16) as u8, (d >> 8) as u8, d as u8]);
        }
        Err(HidError::Timeout(cmd))
    }
    fn set(&mut self, cmd: u8, _payload: &[u8]) -> Result<(bool, Vec<u8>), HidError> {
        Err(HidError::Timeout(cmd))
    }
    fn long_set(&mut self, cmd: u8, payload: &[u8]) -> Result<(bool, Vec<u8>), HidError> {
        if payload[0] as usize >= self.slots.len() {
            return Ok((false, vec![0x00, 0xE4, 1, cmd]));
        }
        match cmd {
            0x52 => {
                let d = ((payload[3] as u32) << 16) | ((payload[4] as u32) << 8) | payload[5] as u32;
                let d = if payload[2] == 0 { 0x0a0000 } else { d };
                self.slots[payload[0] as usize] = (payload[2], d);
            }
            0x54 => {
                let mut f = vec![cmd];
                f.extend_from_slice(payload);
                self.slots[payload[0] as usize] = (4, payload[2] as u32);
                self.macro_frames.push(f);
            }
            _ => return Err(HidError::Timeout(cmd)),
        }
        Ok((true, vec![0x00, 0xE4, 0, cmd]))
    }
    fn long_raw(&mut self, _payload: &[u8]) -> Result<Vec<u8>, HidError> {
        Err(HidError::Timeout(0x71))
    }
}

fn button(id: u8, type_id: u8, data: u32) -> ButtonInfo {
    ButtonInfo { id, type_id, data, label: String::new() }
}

#[test]
fn targets_skip_empty_slots() {
    let table = vec![button(0, 1, 0x010000), button(1, 0, 0), button(12, 0, 0xffffff)];
    assert_eq!(identify_targets(&table), vec![(0, 1, 0x010000), (12, 0, 0xffffff)]);
}

#[test]
fn arming_types_each_id_and_restore_puts_it_back() {
    let mut dev = Table { slots: vec![(0, 0); 16], macro_frames: Vec::new() };
    dev.slots[3] = (1, 0x020000);
    dev.slots[12] = (0, 0xffffff);
    let targets = vec![(3, 1, 0x020000), (12, 0, 0xffffff)];
    let armed = arm_identify(&mut dev, &targets).unwrap();
    assert_eq!(armed.len(), 2);
    // "3" = one key tap (2 events): length 6 + 4*2 = 14.
    assert_eq!((armed[0].id, armed[0].type_id, armed[0].data), (3, 4, 14));
    // "12" = two key taps (4 events): length 22.
    assert_eq!((armed[1].id, armed[1].type_id, armed[1].data), (12, 4, 22));
    // The id "3" is typed as usage 0x20 (digit 3).
    assert_eq!(&dev.macro_frames[0][12..], &[0x81, 0x20, 0, 0, 0x01, 0x20, 0, 0]);
    let restored = restore_identify(&mut dev, &targets);
    assert_eq!(restored.len(), 2);
    assert_eq!(restored[0].0, 3);
    assert_eq!(restored[0].1.as_ref().unwrap().data, 0x020000);
    assert_eq!(restored[1].0, 12);
    assert_eq!(restored[1].1.as_ref().unwrap().type_id, 0);
    assert_eq!(dev.slots[3], (1, 0x020000));
}

#[test]
fn a_failed_upload_names_its_slot() {
    let mut dev = Table { slots: vec![(0, 0); 16], macro_frames: Vec::new() };
    let targets = vec![(20, 1, 0x010000)];
    match arm_identify(&mut dev, &targets) {
        Err((id, _)) => assert_eq!(id, 20),
        Ok(_) => panic!("slot 20 does not exist"),
    }
}
