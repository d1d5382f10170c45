use squeak::hid::{ExchangeLog, Hid, HidError};
use squeak::proto::buttons::{
    action_type_name, be24, check_id, disable, friendly_name, is_present, mouse_name,
    restore_default, set_button, set_media, set_mouse, ButtonInfo, COUNT, TYPE_MOUSE,
};

/// Panics on any transfer: returning an error proves a guard rejected the
/// call before anything reached the device.
struct NoTraffic;

impl Hid for NoTraffic {
    /// The exchange log is the verifier's model of this device; nothing
    /// calls it at run time.
    fn log(&self) -> ExchangeLog {
        unreachable!("the exchange log is not kept at run time")
    }

    fn get(&mut self, cmd: u8, _payload: &[u8]) -> Result<Vec<u8>, HidError> {
        panic!("guard let a get(0x{cmd:02x}) reach the device");
    }
    fn set(&mut self, cmd: u8, _payload: &[u8]) -> Result<(bool, Vec<u8>), HidError> {
        panic!("guard let a set(0x{cmd:02x}) reach the device");
    }
    fn long_set(&mut self, cmd: u8, _payload: &[u8]) -> Result<(bool, Vec<u8>), HidError> {
        panic!("guard let a long_set(0x{cmd:02x}) reach the device");
    }
    fn long_raw(&mut self, _payload: &[u8]) -> Result<Vec<u8>, HidError> {
        panic!("guard let a long_raw reach the device");
    }
}

#[test]
fn buttons_test_be24_split() {
    assert_eq!(be24(0x010000), [0x01, 0x00, 0x00]);
    assert_eq!(be24(0x00fe00), [0x00, 0xfe, 0x00]);
}

#[test]
fn buttons_be24_split() {
    assert_eq!(be24(0x010000), [0x01, 0x00, 0x00]);
    assert_eq!(be24(0x00fe00), [0x00, 0xfe, 0x00]);
}

#[test]
fn buttons_test_mouse_name_roundtrip() {
    assert_eq!(mouse_name(0x010000), Some("left"));
    assert_eq!(mouse_name(0x00fe00), Some("downScroll"));
    assert_eq!(mouse_name(0x123456), None);
}

#[test]
fn buttons_mouse_name_roundtrip() {
    assert_eq!(mouse_name(0x010000), Some("left"));
    assert_eq!(mouse_name(0x00fe00), Some("downScroll"));
    assert_eq!(mouse_name(0x123456), None);
}

#[test]
fn check_id_bounds() {
    assert!(check_id(0).is_ok());
    assert!(check_id(COUNT as u8 - 1).is_ok());
    assert!(check_id(COUNT as u8).is_err());
    assert!(check_id(u8::MAX).is_err());
}

#[test]
fn write_paths_reject_out_of_range_id() {
    let bad = COUNT as u8 + 184;
    assert!(set_button(&mut NoTraffic, bad, TYPE_MOUSE, 0x010000).is_err());
    assert!(set_mouse(&mut NoTraffic, bad, "left").is_err());
    assert!(set_media(&mut NoTraffic, bad, "Mute").is_err());
    assert!(disable(&mut NoTraffic, bad).is_err());
    assert!(restore_default(&mut NoTraffic, bad).is_err());
}

#[test]
fn bad_id_error_names_the_id() {
    match check_id(200) {
        Err(e) => assert!(e.message().starts_with("bad reply: ")),
        Ok(()) => panic!("id 200 accepted"),
    }
}

#[test]
fn type_names_follow_the_launcher() {
    assert_eq!(action_type_name(0), "Default");
    assert_eq!(action_type_name(9), "Disable");
    assert_eq!(action_type_name(13), "PollingRate");
    assert_eq!(action_type_name(11), "?");
}

#[test]
fn empty_default_slots_are_not_present() {
    let b = |type_id: u8, data: u32| ButtonInfo { id: 0, type_id, data, label: String::new() };
    assert!(!is_present(&b(0, 0)));
    assert!(is_present(&b(0, 0xffffff)));
    assert!(is_present(&b(1, 0)));
}

#[test]
fn friendly_names_cover_the_mapped_slots() {
    assert_eq!(friendly_name(0), Some("Left"));
    assert_eq!(friendly_name(2), Some("Right"));
    assert_eq!(friendly_name(7), None);
}

#[test]
fn reading_no_slots_sends_nothing() {
    assert_eq!(squeak::proto::buttons::get_all(&mut NoTraffic, 0).unwrap().len(), 0);
    assert_eq!(squeak::proto::buttons::get_all(&mut NoTraffic, 256).unwrap().len(), 0);
}
