use squeak::watch::{hotplug_commands, mentions_keychron, refresh_due, DEBOUNCE_NS};
use squeak::worker::Cmd;

#[test]
fn keychron_events_are_recognised_anywhere_in_the_payload() {
    let ev = b"add@/devices/pci/usb1\0ACTION=add\0HID_ID=0003:00003434:0000D028\0";
    assert!(mentions_keychron(ev));
    assert!(mentions_keychron(b"00003434"));
    assert!(!mentions_keychron(b"HID_ID=0003:0000046D:0000C52B"));
    assert!(!mentions_keychron(b"0000343"));
    assert!(!mentions_keychron(b""));
}

#[test]
fn refreshes_are_debounced() {
    assert!(refresh_due(true, None));
    assert!(!refresh_due(true, Some(DEBOUNCE_NS)));
    assert!(refresh_due(true, Some(DEBOUNCE_NS + 1)));
    assert!(!refresh_due(false, None));
}

#[test]
fn a_due_refresh_reads_settings_then_buttons() {
    let cmds = hotplug_commands();
    assert!(matches!(cmds.as_slice(), [Cmd::ReadAll, Cmd::ReadButtons]));
}
