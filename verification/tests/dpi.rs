use squeak::proto::dpi::{le16, set_payload};

fn expected() -> Vec<u8> {
    vec![
        4, 4, 4, // active ×3
        0x90, 0x01, // 400
        0x20, 0x03, // 800
        0x40, 0x06, // 1600
        0x9a, 0x10, // 4250
        0x00, 0x19, // 6400
        5, // count
    ]
}

#[test]
fn dpi_test_set_payload_layout() {
    // active=4, presets 400/800/1600/4250/6400 (LE16), count=5.
    let p = set_payload(4, &[400, 800, 1600, 4250, 6400]);
    assert_eq!(p, expected());
}

#[test]
fn dpi_set_payload_layout() {
    let p = set_payload(4, &[400, 800, 1600, 4250, 6400]);
    assert_eq!(p, expected());
}

#[test]
fn payload_presets_decode_back() {
    let presets = [50, 26000, 1234, 65535, 0];
    let p = set_payload(0, &presets);
    for (i, v) in presets.iter().enumerate() {
        assert_eq!(le16(p[3 + 2 * i], p[4 + 2 * i]), *v);
    }
}
