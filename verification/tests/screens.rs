use squeak::app::{footer_hints, sensor_row_text, Focus, RowTone, Screen, SensorEdit, SensorRow};

fn edit() -> SensorEdit {
    SensorEdit {
        lod: 1,
        scroll_dir: 1,
        motion: 0,
        wave: 1,
        fps20k: 0,
        angle_on: true,
        angle_deg: 15,
        debounce: 4,
        sleep: 30,
    }
}

#[test]
fn sidebar_footer_on_the_overview_offers_no_edit() {
    assert_eq!(
        footer_hints(Focus::Sidebar, Screen::Overview),
        vec![
            (" ↑↓ ", "section  "),
            ("r ", "refresh  "),
            ("t ", "theme  "),
            ("X ", "reset  "),
            ("q ", "quit   "),
        ]
    );
    assert_eq!(footer_hints(Focus::Sidebar, Screen::Dpi)[1], ("→ ", "edit  "));
}

#[test]
fn content_footer_on_the_sensor_screen_offers_change_and_toggle() {
    let v = footer_hints(Focus::Content, Screen::Sensor);
    assert_eq!(v.len(), 9);
    assert_eq!(v[1], ("←→ ", "change  "));
    assert_eq!(v[2], ("␣ ", "toggle  "));
    assert_eq!(v[3], ("↵ ", "apply  "));
    assert_eq!(footer_hints(Focus::Content, Screen::Dpi).len(), 7);
    assert_eq!(footer_hints(Focus::Content, Screen::Polling)[0], (" ↑↓ ", "pick  "));
    assert_eq!(
        footer_hints(Focus::Content, Screen::Buttons),
        vec![("⇥ ", "back  "), ("r ", "refresh  "), ("t ", "theme  "), ("X ", "reset  "), ("q ", "quit   ")]
    );
}

#[test]
fn selected_sleep_row_carries_the_adjust_marker() {
    assert_eq!(
        sensor_row_text(&edit(), SensorRow::Sleep, true, false),
        vec![
            ("Sleep             ".to_string(), RowTone::Label),
            ("30 min".to_string(), RowTone::Value),
            ("   ◄ 30 min ►".to_string(), RowTone::Adjust),
        ]
    );
}

#[test]
fn rows_show_switches_hints_and_the_unsaved_mark() {
    assert_eq!(
        sensor_row_text(&edit(), SensorRow::ScrollDir, false, true),
        vec![
            ("Scroll direction  ".to_string(), RowTone::Label),
            ("inverted".to_string(), RowTone::Value),
            ("  [ normal | inverted ]".to_string(), RowTone::Hint),
            ("  ✎ unsaved".to_string(), RowTone::Unsaved),
        ]
    );
    assert_eq!(
        sensor_row_text(&edit(), SensorRow::Angle, true, false),
        vec![
            ("Angle snapping    ".to_string(), RowTone::Label),
            ("● on".to_string(), RowTone::On),
            ("   15°".to_string(), RowTone::Hint),
        ]
    );
    assert_eq!(sensor_row_text(&edit(), SensorRow::Motion, false, false)[1].0, "○ off");
    assert_eq!(
        sensor_row_text(&edit(), SensorRow::Lod, true, false)[2],
        ("   ◄ 1.0 mm ►".to_string(), RowTone::Adjust)
    );
}
