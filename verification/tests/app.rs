use squeak::app::{Action, App, Conn, FwCheck, Focus, Modal, Screen, SensorRow, StatusLevel};
use squeak::proto::block::{parse, Settings};
use squeak::proto::buttons::ButtonInfo;
use squeak::proto::Variant;
use squeak::worker::{Cmd, Update};

fn sample_block() -> Vec<u8> {
    let mut b = vec![0u8; 63];
    b[0] = 0x06;
    b[1] = 2;
    b[50] = 5;
    b[2] = 0x13;
    b[3] = 0x04;
    for (i, v) in [400u16, 800, 1600, 4250, 5000].iter().enumerate() {
        b[5 + 2 * i] = (*v & 0xff) as u8;
        b[6 + 2 * i] = (*v >> 8) as u8;
    }
    b[16] = 5;
    b[15] = 0b0101_0010;
    b[17] = 10;
    b[18] = 30;
    b[19] = 0x80 | 85;
    b[26] = 0x2f;
    b[43..49].copy_from_slice(&[0, 1, 2, 3, 4, 5]);
    b[49] = 6;
    b[51] = 0b1101_0000;
    b[52] = 1;
    b[55] = 10;
    b
}

fn sample_settings() -> Settings {
    parse(&sample_block()).unwrap()
}

fn app() -> App {
    App::new()
}

fn sample_buttons() -> Vec<ButtonInfo> {
    (0..16u8)
        .map(|id| {
            let (type_id, data) = match id {
                5 | 10 => (3, 0xe900ff),
                6 | 11 => (3, 0xea00ff),
                12 | 15 => (0, 0),
                _ => (0, 0xffffff),
            };
            ButtonInfo { id, type_id, data, label: "x".into() }
        })
        .collect()
}

/// App with a connected device and a populated snapshot, its queue drained.
fn connected() -> App {
    let mut a = App::new();
    a.apply(Update::Connected {
        name: "Keychron Ultra-Link 8K".into(),
        variant: Variant::EightKNordic,
        firmware: "0.1.6".into(),
        transport: "2.4 GHz",
    });
    a.apply(Update::Settings(Box::new(sample_settings())));
    a.apply(Update::Buttons(sample_buttons()));
    a.take_commands();
    a
}

fn vertical_navigates_sections() {
    let mut a = app();
    assert_eq!(a.screen_idx, 0);
    a.update(Action::Vertical(1));
    assert_eq!(a.screen_idx, 1);
    a.update(Action::Vertical(-1));
    assert_eq!(a.screen_idx, 0);
    a.update(Action::Vertical(-1)); // wraps to last
    assert_eq!(a.screen_idx, Screen::ALL.len() - 1);
}

fn enter_focuses_content_only_on_interactive() {
    let mut a = app();
    // Overview (idx 0) is not interactive: Enter stays on sidebar.
    a.update(Action::Enter);
    assert_eq!(a.focus, Focus::Sidebar);
    a.update(Action::Vertical(1));
    assert_eq!(a.screen(), Screen::Dpi);
    a.update(Action::Enter);
    assert_eq!(a.focus, Focus::Content);
}

fn vertical_moves_cursor_in_content() {
    let mut a = app();
    a.update(Action::Vertical(1)); // -> DPI
    a.update(Action::Enter); // focus content
    let section = a.screen_idx;
    a.update(Action::Vertical(1));
    assert_eq!(a.screen_idx, section, "section must not change in content focus");
    assert_eq!(a.dpi_cursor, 1);
    a.update(Action::Back);
    assert_eq!(a.focus, Focus::Sidebar);
}

#[test]
fn app_vertical_navigates_sections_when_sidebar_focused() {
    vertical_navigates_sections();
}

#[test]
fn app_test_vertical_navigates_sections_when_sidebar_focused() {
    vertical_navigates_sections();
}

#[test]
fn app_enter_focuses_content_only_on_interactive_screen() {
    enter_focuses_content_only_on_interactive();
}

#[test]
fn app_test_enter_focuses_content_only_on_interactive_screen() {
    enter_focuses_content_only_on_interactive();
}

#[test]
fn app_vertical_moves_cursor_when_content_focused() {
    vertical_moves_cursor_in_content();
}

#[test]
fn app_test_vertical_moves_cursor_when_content_focused() {
    vertical_moves_cursor_in_content();
}

#[test]
fn theme_picker_previews_and_reverts() {
    let mut a = connected();
    assert_eq!(a.theme_idx, 0);
    a.update(Action::CycleTheme); // open picker (saves 0)
    assert!(matches!(a.modal, Some(Modal::ThemePicker)));
    a.update(Action::Vertical(1)); // live preview -> Gruvbox
    assert_eq!(a.theme_idx, 1);
    a.update(Action::Back); // revert + close
    assert_eq!(a.theme_idx, 0);
    assert!(a.modal.is_none());
    // confirm path keeps the previewed theme
    a.update(Action::CycleTheme);
    a.update(Action::Vertical(2));
    a.update(Action::Enter);
    assert_eq!(a.theme_idx, 2);
    assert!(a.modal.is_none());
}

#[test]
fn dpi_enter_opens_input_and_applies() {
    let mut a = connected();
    a.update(Action::Vertical(1)); // DPI
    a.update(Action::Enter); // focus content
    a.update(Action::Enter); // open numeric input
    assert!(matches!(a.modal, Some(Modal::DpiInput)));
    for c in "1200".chars() {
        a.input_char(c);
    }
    a.input_commit();
    let cmds = a.take_commands();
    match cmds.first() {
        Some(Cmd::SetDpi { index, value }) => {
            assert_eq!(*index, 0);
            assert_eq!(*value, 1200);
        }
        other => panic!("expected SetDpi, got {other:?}"),
    }
    assert!(a.modal.is_none());
}

#[test]
fn sensor_toggle_marks_diff_and_confirm_applies() {
    let mut a = connected();
    for _ in 0..3 {
        a.update(Action::Vertical(1)); // -> Sensor
    }
    assert_eq!(a.screen(), Screen::Sensor);
    a.update(Action::Enter); // content
    a.update(Action::Vertical(1));
    a.update(Action::Vertical(1)); // cursor -> Motion sync
    assert!(a.sensor_diff().is_empty());
    a.update(Action::Toggle); // flip motion
    assert!(!a.sensor_diff().is_empty());
    a.update(Action::Enter); // diff confirm modal
    assert!(matches!(a.modal, Some(Modal::ConfirmSensor)));
    a.update(Action::Enter); // confirm -> apply
    assert!(matches!(a.take_commands().first(), Some(Cmd::SetSensor(_))));
    assert!(a.modal.is_none());
}

#[test]
fn button_picker_disable_sends_cmd() {
    let mut a = connected();
    for _ in 0..4 {
        a.update(Action::Vertical(1)); // -> Buttons
    }
    assert_eq!(a.screen(), Screen::Buttons);
    a.update(Action::Enter); // content
    a.update(Action::Enter); // open picker on button 0
    assert!(matches!(a.modal, Some(Modal::ButtonPicker(_))));
    a.update(Action::Vertical(1));
    a.update(Action::Vertical(1)); // type list: Mouse, Media, -> Disable
    a.take_commands();
    a.update(Action::Enter); // commit Disable
    match a.take_commands().first() {
        Some(Cmd::SetButtonDisable(id)) => assert_eq!(*id, 0),
        other => panic!("expected SetButtonDisable, got {other:?}"),
    }
    assert!(a.modal.is_none());
}

#[test]
fn firmware_check_compares_versions() {
    let mut a = connected();
    a.apply(Update::Firmware { latest: Some("0.1.6".into()) });
    assert!(matches!(a.fw_check, FwCheck::UpToDate));
    a.apply(Update::Firmware { latest: Some("0.1.7".into()) });
    assert!(matches!(a.fw_check, FwCheck::Available(ref v) if v == "0.1.7"));
    a.apply(Update::Firmware { latest: None });
    assert!(matches!(a.fw_check, FwCheck::Failed));
}

#[test]
fn refresh_status_clears_when_data_lands() {
    let mut a = connected();
    a.update(Action::Refresh);
    assert_eq!(a.status.text, "refreshing…");
    a.apply(Update::Settings(Box::new(sample_settings())));
    assert!(a.status.text.starts_with("connected:"));
}

#[test]
fn reset_modal_confirm_sends_factory_reset() {
    let mut a = connected();
    a.update(Action::ResetPrompt);
    assert!(matches!(a.modal, Some(Modal::ConfirmReset)));
    a.update(Action::Confirm);
    assert!(matches!(a.take_commands().first(), Some(Cmd::FactoryReset)));
    assert!(a.modal.is_none());
}

// ---- beyond the original suite ----

#[test]
fn quit_stops_even_inside_a_modal() {
    let mut a = connected();
    a.update(Action::Help);
    a.update(Action::Quit);
    assert!(!a.running);
    assert!(matches!(a.modal, Some(Modal::Help)));
}

#[test]
fn down_then_up_returns_to_the_section() {
    let mut a = app();
    a.update(Action::Vertical(3));
    assert_eq!(a.screen(), Screen::Sensor);
    a.update(Action::Vertical(-3));
    assert_eq!(a.screen_idx, 0);
    a.update(Action::Vertical(13)); // 13 mod 6 = 1
    assert_eq!(a.screen(), Screen::Dpi);
}

#[test]
fn entering_buttons_loads_the_table() {
    let mut a = app();
    for _ in 0..4 {
        a.update(Action::Vertical(1));
    }
    let cmds = a.take_commands();
    assert_eq!(cmds.len(), 1);
    assert!(matches!(cmds[0], Cmd::ReadButtons));
}

#[test]
fn modal_keys_keep_the_section_and_focus() {
    let mut a = connected();
    a.update(Action::Vertical(1));
    a.update(Action::Enter);
    a.update(Action::ResetPrompt);
    a.update(Action::Vertical(1));
    a.update(Action::Horizontal(1));
    assert_eq!(a.screen(), Screen::Dpi);
    assert_eq!(a.focus, Focus::Content);
    assert_eq!(a.dpi_cursor, 0);
    assert!(matches!(a.modal, Some(Modal::ConfirmReset)));
    a.update(Action::Cancel);
    assert!(a.modal.is_none());
    assert!(a.take_commands().is_empty());
}

#[test]
fn dpi_entry_takes_five_digits_and_clamps() {
    let mut a = connected();
    a.update(Action::Vertical(1));
    a.update(Action::TextInput);
    assert!(a.capturing_text());
    for c in "9x99999".chars() {
        a.input_char(c);
    }
    assert_eq!(a.text_buf, "99999");
    a.input_commit();
    assert_eq!(a.status.text, "invalid number");
    assert_eq!(a.status.level, StatusLevel::Failure);
    a.update(Action::TextInput);
    for c in "30000".chars() {
        a.input_char(c);
    }
    a.input_backspace();
    a.input_char('0');
    a.input_commit();
    match a.take_commands().first() {
        Some(Cmd::SetDpi { index: 0, value }) => assert_eq!(*value, 26000),
        other => panic!("expected SetDpi, got {other:?}"),
    }
    assert_eq!(a.status.text, "DPI preset 1 → 26000…");
}

#[test]
fn macro_editor_uploads_clicks_and_text() {
    let mut a = connected();
    for _ in 0..4 {
        a.update(Action::Vertical(1));
    }
    a.update(Action::Enter);
    a.update(Action::Vertical(1)); // button 1
    a.take_commands();
    a.update(Action::RecordMacro);
    assert!(matches!(a.modal, Some(Modal::MacroEdit)));
    assert_eq!(a.macro_target, Some(1));
    a.update(Action::Enter); // empty sequence: nothing sent
    assert_eq!(a.status.text, "macro empty — add clicks or press i for text");
    assert!(a.take_commands().is_empty());
    a.update(Action::RecordMacro);
    a.update(Action::Vertical(1)); // palette -> right (2)
    a.update(Action::Add);
    a.update(Action::Add);
    a.update(Action::Remove);
    a.update(Action::Enter);
    match a.take_commands().first() {
        Some(Cmd::SetMacro { id: 1, events }) => {
            assert_eq!(events, &vec![0x88, 2, 0, 0, 0x08, 2, 0, 0]);
        }
        other => panic!("expected SetMacro, got {other:?}"),
    }
    a.update(Action::RecordMacro);
    a.update(Action::TextInput);
    assert!(matches!(a.modal, Some(Modal::MacroText)));
    a.input_char('\u{7}'); // control characters are not taken
    a.input_char('A');
    a.input_commit();
    match a.take_commands().first() {
        Some(Cmd::SetMacro { id: 1, events }) => {
            assert_eq!(events, &vec![0x81, 0x04, 0, 0, 0x01, 0x04, 0, 0]);
        }
        other => panic!("expected SetMacro, got {other:?}"),
    }
    a.update(Action::RecordMacro);
    a.update(Action::TextInput);
    a.input_char('?');
    a.input_commit();
    assert_eq!(a.status.text, "bad reply: no keycode for '?'");
    assert_eq!(a.status.level, StatusLevel::Failure);
}

#[test]
fn picker_sends_mouse_and_media_assignments() {
    let mut a = connected();
    for _ in 0..4 {
        a.update(Action::Vertical(1));
    }
    a.update(Action::Enter);
    a.update(Action::Enter); // picker on button 0
    a.update(Action::Horizontal(1)); // Mouse values
    a.update(Action::Vertical(1)); // second mouse action
    a.take_commands();
    a.update(Action::Enter);
    match a.take_commands().first() {
        Some(Cmd::SetButtonMouse { id: 0, action }) => assert_eq!(action, "right"),
        other => panic!("expected SetButtonMouse, got {other:?}"),
    }
    a.update(Action::Enter);
    a.update(Action::Vertical(1)); // Media
    a.update(Action::Enter); // descend into values
    a.update(Action::Enter); // first media action
    match a.take_commands().first() {
        Some(Cmd::SetButtonMedia { id: 0, .. }) => {}
        other => panic!("expected SetButtonMedia, got {other:?}"),
    }
    assert!(a.modal.is_none());
}

#[test]
fn sensor_steps_clamp_and_commit_every_change() {
    let mut a = connected();
    for _ in 0..3 {
        a.update(Action::Vertical(1));
    }
    a.update(Action::Enter);
    // lod is 2 on the device: right stays at the maximum.
    a.update(Action::Horizontal(1));
    assert_eq!(a.sensor_edit.lod, 2);
    a.update(Action::Horizontal(-1));
    assert_eq!(a.sensor_edit.lod, 1);
    a.update(Action::Vertical(7)); // clamps to the last row (Sleep)
    assert_eq!(a.sensor_cursor, 7);
    a.update(Action::Horizontal(1)); // 30 -> 35 min
    assert_eq!(a.sensor_edit.sleep, 35);
    let diff = a.sensor_diff();
    assert_eq!(diff.len(), 2);
    assert_eq!(diff[0].0, "Lift-off distance");
    assert_eq!(diff[0].1, "2.0 mm");
    assert_eq!(diff[0].2, "1.0 mm");
    assert_eq!(diff[1], ("Sleep", "30 min".to_string(), "35 min".to_string()));
    a.update(Action::Enter);
    a.update(Action::Enter);
    let cmds = a.take_commands();
    assert_eq!(cmds.len(), 2);
    match &cmds[0] {
        Cmd::SetSensor(f) => {
            assert_eq!(f.lod, Some(1));
            assert!(f.motion.is_none() && f.scroll_dir.is_none() && f.fps20k.is_none());
        }
        other => panic!("expected SetSensor, got {other:?}"),
    }
    assert!(matches!(cmds[1], Cmd::SetSleep(35)));
    assert_eq!(a.status.text, "applying sensor…");
}

#[test]
fn dirty_edits_survive_a_snapshot_until_a_write_lands() {
    let mut a = connected();
    for _ in 0..3 {
        a.update(Action::Vertical(1));
    }
    a.update(Action::Enter);
    a.update(Action::Horizontal(-1)); // lod 2 -> 1
    a.apply(Update::Settings(Box::new(sample_settings())));
    assert_eq!(a.sensor_edit.lod, 1);
    a.apply(Update::Written { ok: true, msg: "ok".into() });
    assert!(!a.sensor_dirty);
    assert_eq!(a.status.level, StatusLevel::Success);
    a.apply(Update::Settings(Box::new(sample_settings())));
    assert_eq!(a.sensor_edit.lod, 2);
}

#[test]
fn errors_show_their_first_line_and_drop_the_link() {
    let mut a = connected();
    a.apply(Update::Error("read failed: timeout\r\nsecond line".into()));
    assert_eq!(a.status.text, "read failed: timeout");
    assert!(a.settings.is_none());
    assert!(matches!(a.conn, Conn::Down(_)));
    a.apply(Update::Error(String::new()));
    assert_eq!(a.status.text, "error");
    // No device: the update check is not offered.
    a.update(Action::CheckUpdate);
    assert!(a.take_commands().is_empty());
    assert!(matches!(a.fw_check, FwCheck::Idle));
}

#[test]
fn update_check_needs_a_connection() {
    let mut a = connected();
    a.update(Action::CheckUpdate);
    assert!(matches!(a.take_commands().first(), Some(Cmd::CheckUpdate)));
    assert!(matches!(a.fw_check, FwCheck::Checking));
}

#[test]
fn unsupported_variant_is_flagged_on_connect() {
    let mut a = app();
    a.apply(Update::Connected {
        name: "Other".into(),
        variant: Variant::Unsupported,
        firmware: "1".into(),
        transport: "wired",
    });
    assert_eq!(
        a.status.text,
        "connected: Other (unsupported variant — reads may be wrong)"
    );
}

#[test]
fn profiles_default_to_five_and_switch() {
    let mut a = app();
    assert_eq!(a.profile_count(), 5);
    let mut b = connected();
    assert_eq!(b.profile_count(), 5);
    for _ in 0..5 {
        b.update(Action::Vertical(1));
    }
    assert_eq!(b.screen(), Screen::Profiles);
    b.update(Action::Horizontal(1));
    b.update(Action::Vertical(9));
    assert_eq!(b.profile_cursor, 4);
    b.take_commands();
    b.update(Action::Enter);
    assert!(matches!(b.take_commands().first(), Some(Cmd::SetProfile(4))));
    a.update(Action::Refresh);
    assert!(matches!(a.take_commands().as_slice(), [Cmd::ReadAll]));
}

#[test]
fn polling_enter_writes_the_selected_rate() {
    let mut a = connected();
    assert_eq!(a.poll_sel, 1); // seeded from the snapshot (500 Hz)
    a.update(Action::Vertical(2));
    a.update(Action::Enter);
    a.update(Action::Vertical(3));
    a.update(Action::Enter);
    assert!(matches!(a.take_commands().first(), Some(Cmd::SetRate { hz: 4000 })));
}

#[test]
fn shortcut_keys_act_on_the_selected_button_only() {
    let mut a = connected();
    a.update(Action::SetDisable); // sidebar focus: ignored
    assert!(a.take_commands().is_empty());
    for _ in 0..4 {
        a.update(Action::Vertical(1));
    }
    a.update(Action::Enter);
    a.update(Action::Vertical(2));
    a.take_commands();
    a.update(Action::SetDefault);
    assert!(matches!(a.take_commands().first(), Some(Cmd::SetButtonDefault(2))));
    assert_eq!(a.status.text, "restoring default…");
}

#[test]
fn unsaved_marks_match_the_diff() {
    let mut a = connected();
    assert!(SensorRow::ALL.iter().all(|r| !a.row_changed(*r)));
    for _ in 0..3 {
        a.update(Action::Vertical(1));
    }
    a.update(Action::Enter);
    a.update(Action::Vertical(3)); // Angle snapping (device: 10°)
    a.update(Action::Toggle); // off
    let changed: Vec<SensorRow> =
        SensorRow::ALL.iter().copied().filter(|r| a.row_changed(*r)).collect();
    assert_eq!(changed, vec![SensorRow::Angle]);
    let diff = a.sensor_diff();
    assert_eq!(diff.len(), 1);
    assert_eq!(diff[0], ("Angle snapping", "on 10°".to_string(), "off".to_string()));
    a.update(Action::Toggle); // back on at 10°
    assert!(a.sensor_diff().is_empty());
    assert!(!a.row_changed(SensorRow::Angle));
    // Before any read nothing is unsaved.
    assert!(!app().row_changed(SensorRow::Lod));
}
