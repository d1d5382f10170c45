use squeak::hid::{ExchangeLog, Hid, HidError};
use squeak::proto::buttons;
use squeak::worker::{handle, must_reconnect, next_step, Cmd, Step, Update};

fn sample_block() -> Vec<u8> {
    let mut b = vec![0u8; 63];
    b[0] = 0x06;
    b[1] = 2;
    b[50] = 5;
    b[2] = 0x13;
    b[3] = 0x04;
    for (i, v) in [400u16, 800, 1600, 4250, 5000].iter().enumerate() {
        b[5 + 2 * i] = (*v & 0xff) as u8;
        b[6 + 2 * i] = (*v >> 8) as u8;
    }
    b[16] = 5;
    b[15] = 0b0101_0010;
    b[17] = 10;
    b[18] = 30;
    b[19] = 0x80 | 85;
    b[26] = 0x2f;
    b[43..49].copy_from_slice(&[0, 1, 2, 3, 4, 5]);
    b[49] = 6;
    b[51] = 0b1101_0000;
    b[52] = 1;
    b[55] = 10;
    b
}

/// Scripted in-memory mouse: serves the 0x06 block + per-button slots, and
/// applies confirmable writes to its state so read-backs reflect them.
struct FakeHid {
    block: Vec<u8>,
    buttons: Vec<(u8, u32)>,
    fail: bool,     // every transfer times out
    fail_get: bool, // only reads time out (writes still ack)
    reject: bool,   // writes ack with a non-OK status
}

impl FakeHid {
    fn new() -> Self {
        FakeHid {
            block: sample_block(),
            buttons: vec![(0u8, 0u32); buttons::COUNT],
            fail: false,
            fail_get: false,
            reject: false,
        }
    }
}

impl Hid for FakeHid {
    /// The exchange log is the verifier's model of this device; nothing
    /// calls it at run time.
    fn log(&self) -> ExchangeLog {
        unreachable!("the exchange log is not kept at run time")
    }

    fn get(&mut self, cmd: u8, payload: &[u8]) -> Result<Vec<u8>, HidError> {
        if self.fail || self.fail_get {
            return Err(HidError::Timeout(cmd));
        }
        match cmd {
            0x06 => {
                let mut r = vec![0xB4];
                r.extend_from_slice(&self.block);
                Ok(r)
            }
            0x62 => {
                let (t, d) = self.buttons[payload[0] as usize];
                Ok(vec![0xB4, 0x62, 0, 0, t, (d >> 16) as u8, (d >> 8) as u8, d as u8])
            }
            _ => Ok(vec![0xB4, cmd]),
        }
    }

    fn set(&mut self, cmd: u8, payload: &[u8]) -> Result<(bool, Vec<u8>), HidError> {
        if self.fail {
            return Err(HidError::Timeout(cmd));
        }
        if !self.reject {
            match cmd {
                0x43 => self.block[17] = payload[0],
                0x0A => self.block[18] = payload[1],
                0x41 => self.block[2] = (payload[0] << 4) | (self.block[2] & 0x0f),
                0x40 => {
                    self.block[4] = payload[0];
                    for i in 0..5 {
                        self.block[5 + 2 * i] = payload[3 + 2 * i];
                        self.block[6 + 2 * i] = payload[4 + 2 * i];
                    }
                }
                _ => {}
            }
        }
        let status = u8::from(self.reject);
        Ok((!self.reject, vec![0xB6, 0xE4, status, cmd]))
    }

    fn long_set(&mut self, cmd: u8, payload: &[u8]) -> Result<(bool, Vec<u8>), HidError> {
        if self.fail {
            return Err(HidError::Timeout(cmd));
        }
        if !self.reject && cmd == 0x52 {
            let d = ((payload[3] as u32) << 16) | ((payload[4] as u32) << 8) | payload[5] as u32;
            self.buttons[payload[0] as usize] = (payload[2], d);
        }
        let status = u8::from(self.reject);
        Ok((!self.reject, vec![0x00, 0xE4, status, cmd]))
    }

    fn long_raw(&mut self, _payload: &[u8]) -> Result<Vec<u8>, HidError> {
        if self.fail {
            return Err(HidError::Timeout(0));
        }
        Ok(vec![0x00, 0xE4, 0x00])
    }
}

#[test]
fn read_all_returns_settings() {
    let mut h = FakeHid::new();
    let u = handle(Cmd::ReadAll, &mut h);
    match u.as_slice() {
        [Update::Settings(s)] => {
            assert_eq!(s.debounce.value, 10);
            assert_eq!(s.battery.percent, 85);
        }
        _ => panic!("expected one Settings update"),
    }
}

#[test]
fn read_all_transport_error() {
    let mut h = FakeHid::new();
    h.fail = true;
    let u = handle(Cmd::ReadAll, &mut h);
    assert!(matches!(u.as_slice(), [Update::Error(_)]));
}

#[test]
fn read_buttons_returns_all_slots() {
    let mut h = FakeHid::new();
    let u = handle(Cmd::ReadButtons, &mut h);
    match u.as_slice() {
        [Update::Buttons(v)] => assert_eq!(v.len(), buttons::COUNT),
        _ => panic!("expected Buttons update"),
    }
}

#[test]
fn set_debounce_writes_then_refreshes() {
    let mut h = FakeHid::new();
    let u = handle(Cmd::SetDebounce(7), &mut h);
    assert!(matches!(u[0], Update::Written { ok: true, .. }));
    match &u[1] {
        Update::Settings(s) => assert_eq!(s.debounce.value, 7),
        _ => panic!("expected refreshed Settings"),
    }
}

#[test]
fn set_dpi_writes_then_refreshes() {
    let mut h = FakeHid::new();
    let u = handle(Cmd::SetDpi { index: 0, value: 1200 }, &mut h);
    assert!(matches!(u[0], Update::Written { ok: true, .. }));
    match &u[1] {
        Update::Settings(s) => assert_eq!(s.dpi.presets[0], 1200),
        _ => panic!("expected refreshed Settings"),
    }
}

#[test]
fn button_disable_writes_then_refreshes() {
    let mut h = FakeHid::new();
    let u = handle(Cmd::SetButtonDisable(2), &mut h);
    assert!(matches!(u[0], Update::Written { ok: true, .. }));
    match &u[1] {
        Update::Buttons(v) => assert_eq!(v[2].type_id, 9), // TYPE_DISABLE
        _ => panic!("expected refreshed Buttons"),
    }
}

#[test]
fn rejected_write_reports_failure_only() {
    let mut h = FakeHid::new();
    h.reject = true;
    let u = handle(Cmd::SetDebounce(7), &mut h);
    assert_eq!(u.len(), 1);
    assert!(matches!(u[0], Update::Written { ok: false, .. }));
}

#[test]
fn write_ok_but_readback_failure_errors() {
    // factory_reset acks (no internal read-back); the post-write refresh fails.
    let mut h = FakeHid::new();
    h.fail_get = true;
    let u = handle(Cmd::FactoryReset, &mut h);
    assert!(matches!(u[0], Update::Written { ok: true, .. }));
    assert!(matches!(u[1], Update::Error(_)));
    assert!(must_reconnect(&u));
}

#[test]
fn out_of_range_dpi_is_refused_before_the_wire() {
    let mut h = FakeHid::new();
    h.fail = true; // any transfer would surface as a timeout instead
    let u = handle(Cmd::SetDpi { index: 0, value: 10 }, &mut h);
    assert_eq!(u.len(), 1);
    match &u[0] {
        Update::Written { ok: false, msg } => assert!(msg.starts_with("bad reply: ")),
        _ => panic!("expected a refused write"),
    }
    assert!(!must_reconnect(&u));
}

#[test]
fn caller_owned_commands_yield_nothing() {
    let mut h = FakeHid::new();
    assert!(handle(Cmd::CheckUpdate, &mut h).is_empty());
    assert!(handle(Cmd::Shutdown, &mut h).is_empty());
}

#[test]
fn confirmed_rate_write_names_the_rate() {
    let mut h = FakeHid::new();
    let u = handle(Cmd::SetRate { hz: 1000 }, &mut h);
    match &u[0] {
        Update::Written { ok: true, msg } => assert!(msg.contains("1000")),
        _ => panic!("expected a confirmed write"),
    }
    match &u[1] {
        Update::Settings(s) => assert_eq!(s.polling.levels[0], 2),
        _ => panic!("expected refreshed Settings"),
    }
}

#[test]
fn the_loop_connects_first_and_stops_on_shutdown() {
    assert_eq!(next_step(&Cmd::Shutdown, false, None), Step::Stop);
    assert_eq!(next_step(&Cmd::ReadAll, false, None), Step::Connect);
    assert_eq!(next_step(&Cmd::ReadAll, true, None), Step::Run);
    assert_eq!(
        next_step(&Cmd::CheckUpdate, true, Some((0x3434, 0xD028))),
        Step::Lookup { vid: 0x3434, pid: 0xD028 }
    );
    assert_eq!(next_step(&Cmd::CheckUpdate, true, None), Step::Skip);
}
