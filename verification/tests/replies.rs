use squeak::proto::block::parse;
use squeak::proto::buttons::ButtonInfo;
use squeak::proto::macros::{chunk_ack, macro_confirm};
use squeak::proto::profile::profile_range;
use squeak::proto::sensor::{confirm_sensor, SensorFields};
use squeak::proto::{ack_result, confirm_value};

#[test]
fn acks_pass_or_name_the_reply() {
    assert!(ack_result("debounce set", true, &[0xB6, 0xE4, 0, 0x43]).is_ok());
    match ack_result("factory reset", false, &[0xB6, 0xE4, 1, 0x0f]) {
        Err(e) => assert_eq!(e.message(), "bad reply: factory reset rejected: [b6, e4, 01, 0f]"),
        Ok(()) => panic!("a non-OK status was accepted"),
    }
}

#[test]
fn read_backs_must_match_the_write() {
    assert_eq!(confirm_value("sleep", 30, 30).unwrap(), 30);
    match confirm_value("debounce", 7, 10) {
        Err(e) => assert_eq!(e.message(), "bad reply: debounce unconfirmed: wanted 7, read 10"),
        Ok(_) => panic!("a mismatch was accepted"),
    }
}

#[test]
fn profile_index_is_checked_against_the_count() {
    assert_eq!(profile_range(4, 5).unwrap(), 5);
    assert_eq!(profile_range(4, 0).unwrap(), 5); // 0 reported means 5
    match profile_range(3, 3) {
        Err(e) => assert_eq!(e.message(), "bad reply: profile 3 out of range 0..3"),
        Ok(_) => panic!("index past the count was accepted"),
    }
}

#[test]
fn sensor_read_back_compares_resolved_fields() {
    let mut b = vec![0u8; 63];
    b[0] = 0x06;
    b[15] = 0b0101_0010; // lod 2, motion 1, scroll_dir 1
    let cur = parse(&b).unwrap().sensor;
    let keep = SensorFields::default();
    assert!(confirm_sensor(&cur, &cur, keep).is_ok());
    let want_motion_off = SensorFields { motion: Some(0), ..SensorFields::default() };
    match confirm_sensor(&cur, &cur, want_motion_off) {
        Err(e) => assert_eq!(e.message(), "bad reply: sensor set unconfirmed on read-back"),
        Ok(()) => panic!("a field that did not change was confirmed"),
    }
}

#[test]
fn chunk_and_macro_confirmations() {
    assert!(chunk_ack(0, &[0x00, 0x72, 0x00]).is_ok());
    match chunk_ack(59, &[0x00, 0xE4, 0x00]) {
        Err(e) => assert_eq!(e.message(), "bad reply: macro chunk @59 rejected: [00, e4, 00]"),
        Ok(()) => panic!("a non-ack was accepted"),
    }
    let macro_btn = ButtonInfo { id: 3, type_id: 4, data: 14, label: "Macro".into() };
    assert_eq!(macro_confirm(14, macro_btn.clone()).unwrap().data, 14);
    match macro_confirm(22, macro_btn) {
        Err(e) => assert_eq!(
            e.message(),
            "bad reply: macro set unconfirmed (want len 22): ButtonInfo { id: 3, type_id: 4, data: 14, label: \"Macro\" }"
        ),
        Ok(_) => panic!("a wrong length was confirmed"),
    }
}
