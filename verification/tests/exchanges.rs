use squeak::app::PickKind;
use squeak::hid::{ExchangeLog, Hid, HidError};
use squeak::proto::buttons::restore_default;
use squeak::proto::dpi::set_dpi;
use squeak::proto::macros::{build_frame, click_events, set_macro, LOOP_STOP_ON_RELEASE};
use squeak::proto::polling::set_rate;
use squeak::proto::sensor::{set_sensor, SensorFields};
use squeak::proto::system::{factory_reset, set_debounce};
use squeak::worker::{handle, Cmd, Update};

/// One call on the device, as it was made.
#[derive(Debug, Clone, PartialEq)]
enum Call {
    Get(u8, Vec<u8>),
    Write(u8, Vec<u8>),
    LongSet(u8, Vec<u8>),
    Raw(Vec<u8>),
}

/// A device that records every call and answers from a small state: the
/// DPI presets, the debounce byte and one button slot.
struct Recorder {
    calls: Vec<Call>,
    presets: [u16; 5],
    active: u8,
    debounce: u8,
    slot: (u8, u32),
    /// Button writes leave the slot as it was.
    stuck_slot: bool,
    /// Reads time out (writes still ack).
    fail_get: bool,
}

impl Recorder {
    fn new() -> Self {
        Recorder {
            calls: Vec::new(),
            presets: [400, 800, 1600, 3200, 6400],
            active: 1,
            debounce: 4,
            slot: (1, 0x010000),
            stuck_slot: false,
            fail_get: false,
        }
    }

    fn block(&self) -> Vec<u8> {
        let mut r = vec![0u8; 64];
        r[0] = 0xB4;
        r[1] = 0x06;
        r[5] = self.active;
        for (i, p) in self.presets.iter().enumerate() {
            r[6 + 2 * i] = (*p & 0xff) as u8;
            r[7 + 2 * i] = (*p >> 8) as u8;
        }
        r[18] = self.debounce;
        r
    }
}

impl Hid for Recorder {
    /// The exchange log is the verifier's model of this device; nothing
    /// calls it at run time.
    fn log(&self) -> ExchangeLog {
        unreachable!("the exchange log is not kept at run time")
    }

    fn get(&mut self, cmd: u8, payload: &[u8]) -> Result<Vec<u8>, HidError> {
        self.calls.push(Call::Get(cmd, payload.to_vec()));
        if self.fail_get {
            return Err(HidError::Timeout(cmd));
        }
        match cmd {
            0x06 => Ok(self.block()),
            0x62 => {
                let (t, d) = self.slot;
                Ok(vec![0xB4, 0x62, 0, 0, t, (d >> 16) as u8, (d >> 8) as u8, d as u8])
            }
            _ => Err(HidError::Timeout(cmd)),
        }
    }

    fn set(&mut self, cmd: u8, payload: &[u8]) -> Result<(bool, Vec<u8>), HidError> {
        self.calls.push(Call::Write(cmd, payload.to_vec()));
        match cmd {
            0x40 => {
                self.active = payload[0];
                for i in 0..5 {
                    self.presets[i] = payload[3 + 2 * i] as u16 | ((payload[4 + 2 * i] as u16) << 8);
                }
            }
            0x43 => self.debounce = payload[0],
            _ => {}
        }
        Ok((true, vec![0xB6, 0xE4, 0, cmd]))
    }

    fn long_set(&mut self, cmd: u8, payload: &[u8]) -> Result<(bool, Vec<u8>), HidError> {
        self.calls.push(Call::LongSet(cmd, payload.to_vec()));
        if cmd == 0x52 && !self.stuck_slot {
            let d = ((payload[3] as u32) << 16) | ((payload[4] as u32) << 8) | payload[5] as u32;
            self.slot = (payload[2], if payload[2] == 0 { 0x0a0000 } else { d });
        }
        Ok((true, vec![0x00, 0xE4, 0, cmd]))
    }

    fn long_raw(&mut self, payload: &[u8]) -> Result<Vec<u8>, HidError> {
        self.calls.push(Call::Raw(payload.to_vec()));
        Ok(vec![0xB6, 0x72, 0])
    }
}

#[test]
fn factory_reset_sends_one_reset_frame() {
    let mut dev = Recorder::new();
    assert!(factory_reset(&mut dev).is_ok());
    assert_eq!(dev.calls, vec![Call::Write(0x0F, vec![255])]);
}

#[test]
fn set_dpi_reads_writes_once_and_reads_back() {
    let mut dev = Recorder::new();
    let after = set_dpi(&mut dev, 1000, 2).unwrap();
    assert_eq!(after, [400, 800, 1000, 3200, 6400]);
    assert_eq!(dev.calls.len(), 3);
    assert_eq!(dev.calls[0], Call::Get(0x06, vec![]));
    // active 1 kept; the other presets kept; preset 2 now 1000 (0x03e8).
    assert_eq!(
        dev.calls[1],
        Call::Write(0x40, vec![1, 1, 1, 0x90, 0x01, 0x20, 0x03, 0xe8, 0x03, 0x80, 0x0c, 0x00, 0x19, 5])
    );
    assert_eq!(dev.calls[2], Call::Get(0x06, vec![]));
}

#[test]
fn set_dpi_out_of_range_touches_nothing() {
    let mut dev = Recorder::new();
    assert!(set_dpi(&mut dev, 30000, 0).is_err());
    assert!(set_dpi(&mut dev, 1000, 5).is_err());
    assert!(dev.calls.is_empty());
}

#[test]
fn set_debounce_writes_then_reads_the_block() {
    let mut dev = Recorder::new();
    assert_eq!(set_debounce(&mut dev, 8).unwrap(), 8);
    assert_eq!(dev.calls, vec![Call::Write(0x43, vec![8]), Call::Get(0x06, vec![])]);
}

#[test]
fn restore_default_confirms_the_default_type() {
    let mut dev = Recorder::new();
    let b = restore_default(&mut dev, 3).unwrap();
    assert_eq!(b.type_id, 0);
    assert_eq!(
        dev.calls,
        vec![Call::LongSet(0x52, vec![3, 0, 0, 0, 0, 0]), Call::Get(0x62, vec![3])]
    );
}

#[test]
fn restore_default_refuses_a_read_back_of_another_type() {
    let mut dev = Recorder::new();
    dev.stuck_slot = true;
    match restore_default(&mut dev, 3) {
        Err(e) => assert_eq!(
            e.message(),
            "bad reply: restore unconfirmed: ButtonInfo { id: 3, type_id: 1, data: 65536, label: \"left\" }"
        ),
        Ok(b) => panic!("restore confirmed a non-default slot: {b:?}"),
    }
}

#[test]
fn set_macro_chunks_a_long_frame_and_makes_no_long_set() {
    let mut dev = Recorder::new();
    let events = click_events(&[1; 15]);
    let frame = build_frame(5, &events, 1, LOOP_STOP_ON_RELEASE);
    let _ = set_macro(&mut dev, 5, &events);
    let raws: Vec<Vec<u8>> = dev
        .calls
        .iter()
        .filter_map(|c| match c {
            Call::Raw(p) => Some(p.clone()),
            _ => None,
        })
        .collect();
    assert!(!dev.calls.iter().any(|c| matches!(c, Call::LongSet(..))));
    assert_eq!(raws.len(), 3);
    for (k, (off, seq, len)) in [(0usize, 1u8, 59usize), (59, 4, 59), (118, 8, 14)].iter().enumerate() {
        let mut want = vec![0x71, *seq, *len as u8];
        want.extend_from_slice(&frame[*off..*off + *len]);
        assert_eq!(raws[k], want);
    }
    assert_eq!(dev.calls.last(), Some(&Call::Get(0x62, vec![5])));
}

#[test]
fn write_ok_but_refresh_failure_reports_ok_then_error() {
    let mut dev = Recorder::new();
    dev.fail_get = true;
    let u = handle(Cmd::FactoryReset, &mut dev);
    assert_eq!(u.len(), 2);
    assert!(matches!(u[0], Update::Written { ok: true, .. }));
    assert!(matches!(u[1], Update::Error(_)));
}

#[test]
fn value_labels_of_kinds_without_values_are_empty() {
    assert_eq!(PickKind::Disable.value_label(0), "");
    assert_eq!(PickKind::Default.value_label(7), "");
    assert_eq!(PickKind::Mouse.value_label(0), "left");
    assert_eq!(PickKind::Media.value_label(0), "Vol +");
}

#[test]
fn set_rate_writes_the_code_then_reads_it_back() {
    let mut dev = Recorder::new();
    assert_eq!(set_rate(&mut dev, 125).unwrap(), 125);
    assert_eq!(
        dev.calls,
        vec![Call::Write(0x41, vec![0, 0, 0, 1, 2, 3, 4, 5, 6]), Call::Get(0x06, vec![])]
    );
    let mut dev = Recorder::new();
    assert!(set_rate(&mut dev, 250).is_err());
    assert!(dev.calls.is_empty());
}

#[test]
fn set_sensor_reads_writes_the_resolved_fields_and_reads_back() {
    let mut dev = Recorder::new();
    let f = SensorFields { lod: Some(2), ..Default::default() };
    match set_sensor(&mut dev, f) {
        Err(e) => assert_eq!(e.message(), "bad reply: sensor set unconfirmed on read-back"),
        Ok(()) => panic!("the recorder keeps its sensor state, so the read-back cannot match"),
    }
    assert_eq!(
        dev.calls,
        vec![
            Call::Get(0x06, vec![]),
            Call::Write(0x42, vec![2, 2, 2, 2, 0, 1, 0, 1, 0, 0]),
            Call::Get(0x06, vec![]),
        ]
    );
}
