use squeak::proto::macros::{
    build_frame, chunk_payloads, click_events, text_events, CHUNK_PAYLOAD, CMD_CHUNK,
    LOOP_STOP_ON_RELEASE, MAX_FRAME,
};

#[test]
fn click_event_bytes() {
    // left click = press(0x88) + release(0x08), code 1, no delay.
    assert_eq!(click_events(&[1]), vec![0x88, 1, 0, 0, 0x08, 1, 0, 0]);
}

#[test]
fn text_event_bytes() {
    // "a" -> key press(0x81)/release(0x01) of usage 0x04.
    assert_eq!(text_events("a").unwrap(), vec![0x81, 0x04, 0, 0, 0x01, 0x04, 0, 0]);
    assert!(text_events("é").is_err());
}

#[test]
fn frame_layout_single() {
    // one click (2 events) -> length 14, n_events 2.
    let ev = click_events(&[1]);
    let f = build_frame(7, &ev, 1, LOOP_STOP_ON_RELEASE);
    assert_eq!(&f[..12], &[0x54, 7, 0, 14, 0, 1, 1, 0x20, 0, 0, 2, 0]);
    assert_eq!(f.len(), 12 + ev.len());
    assert!(f.len() <= MAX_FRAME);
}

#[test]
fn chunk_seq_formula() {
    // 30 events -> frame 132 bytes -> chunked; seq = 1 + off/16.
    let ev = click_events(&[1; 15]);
    let f = build_frame(0, &ev, 1, LOOP_STOP_ON_RELEASE);
    assert!(f.len() > MAX_FRAME);
    let seqs: Vec<u8> = (0..f.len())
        .step_by(CHUNK_PAYLOAD)
        .map(|off| (1 + off / 16) as u8)
        .collect();
    assert_eq!(seqs, vec![1, 4, 8]); // off 0,59,118 -> 1, 4(59/16=3), 8(118/16=7)
}

#[test]
fn chunks_carry_the_frame_in_order() {
    let ev = click_events(&[1; 15]);
    let f = build_frame(0, &ev, 1, LOOP_STOP_ON_RELEASE);
    let chunks = chunk_payloads(&f);
    assert_eq!(chunks.len(), 3);
    let seqs: Vec<u8> = chunks.iter().map(|c| c[1]).collect();
    assert_eq!(seqs, vec![1, 4, 8]);
    let mut body = Vec::new();
    for c in &chunks {
        assert_eq!(c[0], CMD_CHUNK);
        assert_eq!(c[2] as usize, c.len() - 3);
        body.extend_from_slice(&c[3..]);
    }
    assert_eq!(body, f);
}

#[test]
fn text_is_lower_cased_and_checked() {
    assert_eq!(text_events("A").unwrap(), text_events("a").unwrap());
    assert_eq!(text_events("1 0").unwrap().len(), 24);
    match text_events("a!") {
        Err(e) => assert_eq!(e.message(), "bad reply: no keycode for '!'"),
        Ok(_) => panic!("'!' has no keycode"),
    }
}
