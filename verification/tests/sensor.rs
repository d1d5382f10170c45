use squeak::proto::sensor::{angle_payload, bit_or2, sensor_payload};

#[test]
fn sensor_test_sensor_payload_encoding() {
    // lod=1, wave=on, line=on, motion=on, scroll=normal(0), fps=standard(0)
    assert_eq!(sensor_payload(1, 1, 1, 1, 0, 0), [1, 1, 1, 1, 0, 1, 0, 1, 0, 0]);
    // wave/line/motion off -> 2; scroll inverted(1)->2; fps competitive(1)->2
    assert_eq!(sensor_payload(2, 0, 0, 0, 1, 1), [2, 2, 2, 2, 0, 2, 0, 2, 0, 0]);
}

#[test]
fn sensor_sensor_payload_encoding() {
    assert_eq!(sensor_payload(1, 1, 1, 1, 0, 0), [1, 1, 1, 1, 0, 1, 0, 1, 0, 0]);
    assert_eq!(sensor_payload(2, 0, 0, 0, 1, 1), [2, 2, 2, 2, 0, 2, 0, 2, 0, 0]);
}

#[test]
fn sensor_test_angle_payload_encoding() {
    assert_eq!(angle_payload(5, true), [0, 0, 0, 0, 0, 0, 0, 0, 2, 5]);
    // off = angle 0 (p[8] stays the 2 "edit angle" marker)
    assert_eq!(angle_payload(0, false), [0, 0, 0, 0, 0, 0, 0, 0, 2, 0]);
}

#[test]
fn angle_off_ignores_the_degrees() {
    assert_eq!(angle_payload(45, false), [0, 0, 0, 0, 0, 0, 0, 0, 2, 0]);
}

#[test]
fn on_off_fields_send_zero_as_two() {
    assert_eq!(bit_or2(0), 2);
    assert_eq!(bit_or2(1), 1);
}
