//! The app state and its reducer: `update` turns a key action into state
//! changes and queued worker commands, `apply` folds a worker result back in.
//! Commands wait in `outbox` until the event loop takes them.

use vstd::prelude::*;

use crate::app::{
    clamp_idx, clamp_idx_spec, interactive_spec, pick_kind, pick_kind_at, screen_at,
    sensor_row, sensor_row_at, signum, step_clamp, step_clamp_spec, Action, Conn, Focus, FwCheck,
    Modal, Picker, PickerCol, PickKind, Screen, SensorEdit, SensorRow, Status, StatusLevel,
    value_count_spec, ANGLE_MAX, ANGLE_STEP, DEBOUNCE_MAX, LOD_MAX, SCREEN_COUNT, SENSOR_ROW_COUNT,
    SLEEP_MAX, SLEEP_MIN, SLEEP_STEP, THEME_COUNT,
};
use crate::app::{
    angle_deg, angle_deg_of, angle_str, angle_str_spec, first_line, first_line_or_error, is_control,
    is_control_spec, lod_mm, lod_mm_spec, on_off, on_off_spec, parse_u16, parse_u16_spec,
    seed_sensor, seed_spec,
};
use crate::proto::macros::{
    self, all_keycodes, char_debug_text, first_unsupported, keycodes_of, lowercase_text, taps_spec,
    CLASS_KEY, CLASS_MOUSE, MOUSE_PALETTE,
};
use crate::proto::sensor::SensorFields;
use crate::text::{append_radix, dec, pop_char, push_char};
use crate::proto::block::Settings;
use crate::proto::buttons::ButtonInfo;
use crate::proto::dpi::NUM_PRESETS;
use crate::proto::Variant;
use crate::worker::{Cmd, Update};

verus! {

/// Number of entries in the click-macro palette.
pub const PALETTE_LEN: usize = 5;

/// Number of selectable polling rates.
pub const RATE_COUNT: usize = 6;

pub struct App {
    pub running: bool,
    pub screen_idx: usize,
    pub theme_idx: usize,
    /// Theme in force when the theme picker opened; Back restores it.
    pub theme_saved: usize,
    pub status: Status,
    pub conn: Conn,
    pub fw_check: FwCheck,
    pub settings: Option<Settings>,
    pub focus: Focus,
    // DPI
    pub dpi_cursor: usize,
    // Polling editor (index into RATES_HZ)
    pub poll_sel: usize,
    // Sensor editor
    pub sensor_cursor: usize,
    pub sensor_edit: SensorEdit,
    pub sensor_dirty: bool,
    // Buttons
    pub buttons: Vec<ButtonInfo>,
    pub button_cursor: usize,
    // Profiles
    pub profile_cursor: usize,
    // Macros (bound to macro_target button)
    pub macro_target: Option<u8>,
    pub macro_palette: usize,
    pub macro_seq: Vec<u8>,
    pub text_buf: String,
    pub modal: Option<Modal>,
    /// A refresh is in flight: the next snapshot restores the connected line.
    pub refreshing: bool,
    /// Commands for the worker, oldest first.
    pub outbox: Vec<Cmd>,
}

/// The section on screen.
pub open spec fn screen_of(a: App) -> Screen {
    screen_at(a.screen_idx as int)
}

/// A picker whose columns point at real rows.
pub open spec fn picker_wf(p: Picker) -> bool {
    &&& p.type_idx < 4
    &&& p.col == PickerCol::Value ==> p.value_idx < value_count_spec(pick_kind_at(p.type_idx as int))
}

/// Number of device profiles (5 before the first read).
pub open spec fn profile_count_spec(a: App) -> int {
    match a.settings {
        Some(s) => if s.profile.count < 1 {
            1
        } else {
            s.profile.count as int
        },
        None => 5,
    }
}

/// The Buttons table has focus and at least one row.
pub open spec fn on_buttons_content(a: App) -> bool {
    a.focus == Focus::Content && screen_of(a) == Screen::Buttons && a.buttons@.len() > 0
}

/// The button under the cursor.
pub open spec fn selected_id(a: App) -> u8 {
    a.buttons@[a.button_cursor as int].id
}

/// The outbox gained exactly `cmds`, in order.
pub open spec fn sent(o: App, n: App, cmds: Seq<Cmd>) -> bool {
    n.outbox@ == o.outbox@ + cmds
}

/// The outbox gained exactly one command (its last element).
pub open spec fn sent_one(o: App, n: App) -> bool {
    n.outbox@.len() == o.outbox@.len() + 1 && n.outbox@.drop_last() == o.outbox@
}

/// The status line reads `text` at `level`.
pub open spec fn says(n: App, text: Seq<char>, level: StatusLevel) -> bool {
    n.status.text@ == text && n.status.level == level
}

impl App {
    /// Every cursor points into its list, focus sits on an editable pane
    /// only, an open picker points at real rows, and the DPI entry holds
    /// ASCII digits only (so its character count is its byte length).
    pub open spec fn wf(self) -> bool {
        &&& self.screen_idx < SCREEN_COUNT
        &&& self.theme_idx < THEME_COUNT
        &&& self.theme_saved < THEME_COUNT
        &&& self.dpi_cursor < NUM_PRESETS
        &&& self.poll_sel < RATE_COUNT
        &&& self.sensor_cursor < SENSOR_ROW_COUNT
        &&& self.macro_palette < PALETTE_LEN
        &&& self.profile_cursor < 256
        &&& (self.button_cursor < self.buttons@.len() || (self.buttons@.len() == 0
            && self.button_cursor == 0))
        &&& self.focus == Focus::Content ==> interactive_spec(screen_of(self))
        &&& self.modal matches Some(Modal::ButtonPicker(p)) ==> picker_wf(p)
        &&& self.modal == Some(Modal::DpiInput) ==> crate::app::all_digits(self.text_buf@)
    }

    /// A fresh app: Overview in the sidebar, default theme, nothing read yet.
    pub fn new() -> (a: App)
        ensures
            a.wf(),
            a.running,
            a.screen_idx == 0 && a.theme_idx == 0 && a.focus == Focus::Sidebar,
            a.status.text@ == "connecting…"@ && a.status.level == StatusLevel::Info,
            a.conn is Connecting && a.fw_check is Idle && a.settings is None,
            a.dpi_cursor == 0 && a.poll_sel == 0 && a.sensor_cursor == 0,
            a.button_cursor == 0 && a.profile_cursor == 0 && a.macro_palette == 0,
            !a.sensor_dirty && !a.refreshing,
            a.buttons@.len() == 0 && a.macro_seq@.len() == 0 && a.text_buf@.len() == 0,
            a.macro_target is None && a.modal is None,
            a.outbox@.len() == 0,
    {
        App {
            running: true,
            screen_idx: 0,
            theme_idx: 0,
            theme_saved: 0,
            status: Status { text: String::from_str("connecting…"), level: StatusLevel::Info },
            conn: Conn::Connecting,
            fw_check: FwCheck::Idle,
            settings: None,
            focus: Focus::Sidebar,
            dpi_cursor: 0,
            poll_sel: 0,
            sensor_cursor: 0,
            sensor_edit: SensorEdit::default(),
            sensor_dirty: false,
            buttons: Vec::new(),
            button_cursor: 0,
            profile_cursor: 0,
            macro_target: None,
            macro_palette: 0,
            macro_seq: Vec::new(),
            text_buf: String::new(),
            modal: None,
            refreshing: false,
            outbox: Vec::new(),
        }
    }

    /// The section on screen.
    pub fn screen(&self) -> (s: Screen)
        requires
            self.wf(),
        ensures
            s == screen_of(*self),
    {
        let i = self.screen_idx;
        if i == 0 {
            Screen::Overview
        } else if i == 1 {
            Screen::Dpi
        } else if i == 2 {
            Screen::Polling
        } else if i == 3 {
            Screen::Sensor
        } else if i == 4 {
            Screen::Buttons
        } else {
            Screen::Profiles
        }
    }

    /// Hands the queued commands to the caller, oldest first, and empties
    /// the queue.
    pub fn take_commands(&mut self) -> (cmds: Vec<Cmd>)
        ensures
            cmds@ == old(self).outbox@,
            final(self).outbox@.len() == 0,
            *final(self) == (App { outbox: final(self).outbox, ..*old(self) }),
    {
        let mut out: Vec<Cmd> = Vec::new();
        std::mem::swap(&mut out, &mut self.outbox);
        out
    }

    /// Queues `cmd` for the worker.
    fn send(&mut self, cmd: Cmd)
        ensures
            final(self).outbox@ == old(self).outbox@.push(cmd),
            sent_one(*old(self), *final(self)),
            final(self).outbox@ == old(self).outbox@ + seq![cmd],
            *final(self) == (App { outbox: final(self).outbox, ..*old(self) }),
    {
        self.outbox.push(cmd);
        assert(self.outbox@.drop_last() =~= old(self).outbox@);
        assert(self.outbox@ =~= old(self).outbox@ + seq![cmd]);
    }

    /// Asks the worker for a fresh settings snapshot.
    pub fn request_read(&mut self)
        ensures
            final(self).outbox@ == old(self).outbox@.push(Cmd::ReadAll),
            *final(self) == (App { outbox: final(self).outbox, ..*old(self) }),
    {
        self.send(Cmd::ReadAll);
    }

    /// Asks the worker for the button table.
    pub fn request_buttons(&mut self)
        ensures
            final(self).outbox@ == old(self).outbox@.push(Cmd::ReadButtons),
            *final(self) == (App { outbox: final(self).outbox, ..*old(self) }),
    {
        self.send(Cmd::ReadButtons);
    }

    fn set_status(&mut self, text: String, level: StatusLevel)
        ensures
            *final(self) == (App { status: Status { text, level }, ..*old(self) }),
    {
        self.status = Status { text, level };
    }

    /// Number of device profiles (defaults to 5 before the first read).
    pub fn profile_count(&self) -> (n: usize)
        ensures
            n == profile_count_spec(*self),
            1 <= n <= 255,
    {
        match &self.settings {
            Some(s) => if s.profile.count < 1 {
                1
            } else {
                s.profile.count as usize
            },
            None => 5,
        }
    }

    /// Whether key presses are captured as text (macro text or DPI entry).
    pub fn capturing_text(&self) -> (r: bool)
        ensures
            r == (self.modal == Some(Modal::MacroText) || self.modal == Some(Modal::DpiInput)),
    {
        match self.modal {
            Some(Modal::MacroText) => true,
            Some(Modal::DpiInput) => true,
            _ => false,
        }
    }
}

/// Sidebar move by `d` with wrap-around; landing on Buttons loads its table.
pub open spec fn section_step(o: App, n: App, d: int) -> bool {
    let idx = (o.screen_idx + d) % (SCREEN_COUNT as int);
    &&& n.screen_idx == idx
    &&& sent(
        o,
        n,
        if screen_at(idx) == Screen::Buttons {
            seq![Cmd::ReadButtons]
        } else {
            seq![]
        },
    )
    &&& n == (App { screen_idx: n.screen_idx, outbox: n.outbox, ..o })
}

/// Content focus, where the section has an editable pane.
pub open spec fn enter_step(o: App, n: App) -> bool {
    if interactive_spec(screen_of(o)) {
        n == (App { focus: Focus::Content, ..o })
    } else {
        n == o
    }
}

/// Focus swaps between the panes; the sidebar is the only target on a
/// read-only section.
pub open spec fn toggle_focus_step(o: App, n: App) -> bool {
    n == (App {
        focus: if o.focus == Focus::Sidebar && interactive_spec(screen_of(o)) {
            Focus::Content
        } else {
            Focus::Sidebar
        },
        ..o
    })
}

/// Cursor move by `d` within the focused section's list, clamped to it.
pub open spec fn cursor_step(o: App, n: App, d: int) -> bool {
    match screen_of(o) {
        Screen::Dpi => n == (App {
            dpi_cursor: clamp_idx_spec(o.dpi_cursor as int, d, NUM_PRESETS as int) as usize,
            ..o
        }),
        Screen::Polling => n == (App {
            poll_sel: clamp_idx_spec(o.poll_sel as int, d, RATE_COUNT as int) as usize,
            ..o
        }),
        Screen::Sensor => n == (App {
            sensor_cursor: clamp_idx_spec(o.sensor_cursor as int, d, SENSOR_ROW_COUNT as int)
                as usize,
            ..o
        }),
        Screen::Buttons => if o.buttons@.len() > 0 {
            n == (App {
                button_cursor: clamp_idx_spec(o.button_cursor as int, d, o.buttons@.len() as int)
                    as usize,
                ..o
            })
        } else {
            n == o
        },
        Screen::Profiles => n == (App {
            profile_cursor: clamp_idx_spec(o.profile_cursor as int, d, profile_count_spec(o))
                as usize,
            ..o
        }),
        Screen::Overview => n == o,
    }
}

/// A Sensor row stepped left (`dir < 0`) or right (`dir > 0`).
pub open spec fn adjusted(e: SensorEdit, row: SensorRow, dir: int) -> SensorEdit {
    match row {
        SensorRow::Lod => SensorEdit {
            lod: step_clamp_spec(e.lod as int, dir, 0, LOD_MAX as int, 1) as u8,
            ..e
        },
        SensorRow::ScrollDir => SensorEdit { scroll_dir: e.scroll_dir ^ 1, ..e },
        SensorRow::Motion => SensorEdit { motion: e.motion ^ 1, ..e },
        SensorRow::Ripple => SensorEdit { wave: e.wave ^ 1, ..e },
        SensorRow::Sampling => SensorEdit { fps20k: e.fps20k ^ 1, ..e },
        SensorRow::Angle => {
            let deg = step_clamp_spec(
                e.angle_deg as int,
                dir,
                0,
                ANGLE_MAX as int,
                ANGLE_STEP as int,
            ) as u8;
            SensorEdit { angle_deg: deg, angle_on: deg > 0, ..e }
        },
        SensorRow::Debounce => SensorEdit {
            debounce: step_clamp_spec(e.debounce as int, dir, 0, DEBOUNCE_MAX as int, 1) as u8,
            ..e
        },
        SensorRow::Sleep => SensorEdit {
            sleep: step_clamp_spec(
                e.sleep as int,
                dir,
                SLEEP_MIN as int,
                SLEEP_MAX as int,
                SLEEP_STEP as int,
            ) as u8,
            ..e
        },
    }
}

/// Left/right on the Sensor screen steps the row under the cursor and
/// marks the editor dirty; elsewhere nothing happens.
pub open spec fn adjust_step(o: App, n: App, d: int) -> bool {
    if screen_of(o) == Screen::Sensor {
        n == (App {
            sensor_edit: adjusted(o.sensor_edit, sensor_row_at(o.sensor_cursor as int), signum(d)),
            sensor_dirty: true,
            ..o
        })
    } else {
        n == o
    }
}

/// A Sensor row flipped by Space; `None` for the rows that have no on/off.
pub open spec fn toggled(e: SensorEdit, row: SensorRow) -> Option<SensorEdit> {
    match row {
        SensorRow::ScrollDir => Some(SensorEdit { scroll_dir: e.scroll_dir ^ 1, ..e }),
        SensorRow::Motion => Some(SensorEdit { motion: e.motion ^ 1, ..e }),
        SensorRow::Ripple => Some(SensorEdit { wave: e.wave ^ 1, ..e }),
        SensorRow::Sampling => Some(SensorEdit { fps20k: e.fps20k ^ 1, ..e }),
        SensorRow::Angle => Some(SensorEdit { angle_on: !e.angle_on, ..e }),
        _ => None,
    }
}

/// Space on the focused Sensor screen flips the row under the cursor.
pub open spec fn toggle_step(o: App, n: App) -> bool {
    if o.focus == Focus::Content && screen_of(o) == Screen::Sensor {
        match toggled(o.sensor_edit, sensor_row_at(o.sensor_cursor as int)) {
            Some(e) => n == (App { sensor_edit: e, sensor_dirty: true, ..o }),
            None => n == o,
        }
    } else {
        n == o
    }
}

/// A per-button command for the selected button, on the focused Buttons
/// table only.
pub open spec fn button_step(o: App, n: App, disable: bool) -> bool {
    if on_buttons_content(o) {
        &&& sent(
            o,
            n,
            seq![
                if disable {
                    Cmd::SetButtonDisable(selected_id(o))
                } else {
                    Cmd::SetButtonDefault(selected_id(o))
                },
            ],
        )
        &&& says(
            n,
            if disable {
                "disabling…"@
            } else {
                "restoring default…"@
            },
            StatusLevel::Info,
        )
        &&& n == (App { outbox: n.outbox, status: n.status, ..o })
    } else {
        n == o
    }
}

/// `m` on a button: target it and open an empty macro editor.
pub open spec fn macro_start_step(o: App, n: App) -> bool {
    if on_buttons_content(o) {
        &&& n.macro_seq@.len() == 0
        &&& n == (App {
            macro_target: Some(selected_id(o)),
            macro_seq: n.macro_seq,
            macro_palette: 0,
            modal: Some(Modal::MacroEdit),
            ..o
        })
    } else {
        n == o
    }
}

/// Enter on the Buttons table opens the action picker on the selected row.
pub open spec fn picker_open_step(o: App, n: App) -> bool {
    if o.buttons@.len() > 0 {
        n == (App {
            modal: Some(
                Modal::ButtonPicker(
                    Picker {
                        id: selected_id(o),
                        col: PickerCol::Type,
                        type_idx: 0,
                        value_idx: 0,
                    },
                ),
            ),
            ..o
        })
    } else {
        n == o
    }
}

impl App {
    /// Sidebar move with wrap-around (lazy-loads the button table).
    fn section(&mut self, delta: i32)
        requires
            old(self).wf(),
        ensures
            section_step(*old(self), *final(self), delta as int),
    {
        let v: i64 = self.screen_idx as i64 + delta as i64;
        let r: i64 = match v.checked_rem_euclid(6) {
            Some(r) => r,
            None => 0,
        };
        assert(0 <= r < 6);
        self.screen_idx = r as usize;
        if r == 4 {
            self.request_buttons();
        }
        assert(self.outbox@ =~= old(self).outbox@ + (if r == 4 {
            seq![Cmd::ReadButtons]
        } else {
            seq![]
        }));
    }

    fn enter_content(&mut self)
        requires
            old(self).wf(),
        ensures
            enter_step(*old(self), *final(self)),
    {
        if self.screen().interactive() {
            self.focus = Focus::Content;
        }
    }

    fn toggle_focus(&mut self)
        requires
            old(self).wf(),
        ensures
            toggle_focus_step(*old(self), *final(self)),
    {
        let to_content = self.focus == Focus::Sidebar && self.screen().interactive();
        self.focus = if to_content {
            Focus::Content
        } else {
            Focus::Sidebar
        };
    }

    /// Esc: drop focus back to the sidebar.
    fn back(&mut self)
        ensures
            *final(self) == (App { focus: Focus::Sidebar, ..*old(self) }),
    {
        self.focus = Focus::Sidebar;
    }

    fn move_cursor(&mut self, delta: i32)
        requires
            old(self).wf(),
        ensures
            cursor_step(*old(self), *final(self), delta as int),
    {
        match self.screen() {
            Screen::Dpi => {
                self.dpi_cursor = clamp_idx(self.dpi_cursor, delta, NUM_PRESETS);
            },
            Screen::Polling => {
                self.poll_sel = clamp_idx(self.poll_sel, delta, RATE_COUNT);
            },
            Screen::Sensor => {
                self.sensor_cursor = clamp_idx(self.sensor_cursor, delta, SENSOR_ROW_COUNT);
            },
            Screen::Buttons => {
                if self.buttons.len() > 0 {
                    self.button_cursor = clamp_idx(self.button_cursor, delta, self.buttons.len());
                }
            },
            Screen::Profiles => {
                let count = self.profile_count();
                self.profile_cursor = clamp_idx(self.profile_cursor, delta, count);
            },
            Screen::Overview => {},
        }
    }

    fn adjust(&mut self, delta: i32)
        requires
            old(self).wf(),
        ensures
            adjust_step(*old(self), *final(self), delta as int),
    {
        if self.screen() == Screen::Sensor {
            let dir: i32 = if delta > 0 {
                1
            } else if delta < 0 {
                -1
            } else {
                0
            };
            let e = self.sensor_edit;
            let row = sensor_row(self.sensor_cursor);
            let next = match row {
                SensorRow::Lod => SensorEdit { lod: step_clamp(e.lod, dir, 0, LOD_MAX, 1), ..e },
                SensorRow::ScrollDir => SensorEdit { scroll_dir: e.scroll_dir ^ 1, ..e },
                SensorRow::Motion => SensorEdit { motion: e.motion ^ 1, ..e },
                SensorRow::Ripple => SensorEdit { wave: e.wave ^ 1, ..e },
                SensorRow::Sampling => SensorEdit { fps20k: e.fps20k ^ 1, ..e },
                SensorRow::Angle => {
                    let deg = step_clamp(e.angle_deg, dir, 0, ANGLE_MAX, ANGLE_STEP);
                    SensorEdit { angle_deg: deg, angle_on: deg > 0, ..e }
                },
                SensorRow::Debounce => SensorEdit {
                    debounce: step_clamp(e.debounce, dir, 0, DEBOUNCE_MAX, 1),
                    ..e
                },
                SensorRow::Sleep => SensorEdit {
                    sleep: step_clamp(e.sleep, dir, SLEEP_MIN, SLEEP_MAX, SLEEP_STEP),
                    ..e
                },
            };
            self.sensor_edit = next;
            self.sensor_dirty = true;
        }
    }

    fn toggle_row(&mut self)
        requires
            old(self).wf(),
        ensures
            toggle_step(*old(self), *final(self)),
    {
        if !(self.focus == Focus::Content && self.screen() == Screen::Sensor) {
            return;
        }
        let e = self.sensor_edit;
        let next = match sensor_row(self.sensor_cursor) {
            SensorRow::ScrollDir => SensorEdit { scroll_dir: e.scroll_dir ^ 1, ..e },
            SensorRow::Motion => SensorEdit { motion: e.motion ^ 1, ..e },
            SensorRow::Ripple => SensorEdit { wave: e.wave ^ 1, ..e },
            SensorRow::Sampling => SensorEdit { fps20k: e.fps20k ^ 1, ..e },
            SensorRow::Angle => SensorEdit { angle_on: !e.angle_on, ..e },
            _ => {
                return;
            },
        };
        self.sensor_edit = next;
        self.sensor_dirty = true;
    }

    fn on_buttons_content(&self) -> (r: bool)
        requires
            self.wf(),
        ensures
            r == on_buttons_content(*self),
    {
        self.focus == Focus::Content && self.screen() == Screen::Buttons && self.buttons.len() > 0
    }

    /// Send a per-button command for the selected button (Buttons content only).
    fn button_action(&mut self, disable: bool)
        requires
            old(self).wf(),
        ensures
            button_step(*old(self), *final(self), disable),
    {
        if !self.on_buttons_content() {
            return;
        }
        let id = self.buttons[self.button_cursor].id;
        if disable {
            self.send(Cmd::SetButtonDisable(id));
            self.set_status(String::from_str("disabling…"), StatusLevel::Info);
        } else {
            self.send(Cmd::SetButtonDefault(id));
            self.set_status(String::from_str("restoring default…"), StatusLevel::Info);
        }
        assert(self.outbox@ =~= old(self).outbox@ + seq![self.outbox@.last()]);
    }

    /// `m` on a button: target it and open the macro editor modal.
    fn start_macro_for_selected_button(&mut self)
        requires
            old(self).wf(),
        ensures
            macro_start_step(*old(self), *final(self)),
    {
        if !self.on_buttons_content() {
            return;
        }
        self.macro_target = Some(self.buttons[self.button_cursor].id);
        self.macro_seq.clear();
        self.macro_palette = 0;
        self.modal = Some(Modal::MacroEdit);
    }

    fn open_button_picker(&mut self)
        requires
            old(self).wf(),
        ensures
            picker_open_step(*old(self), *final(self)),
    {
        if self.buttons.len() == 0 {
            return;
        }
        self.modal = Some(
            Modal::ButtonPicker(
                Picker {
                    id: self.buttons[self.button_cursor].id,
                    col: PickerCol::Type,
                    type_idx: 0,
                    value_idx: 0,
                },
            ),
        );
    }

    /// Appends the palette entry under the cursor to the click sequence.
    fn macro_add(&mut self)
        requires
            old(self).wf(),
        ensures
            final(self).macro_seq@ == old(self).macro_seq@.push(
                MOUSE_PALETTE@[old(self).macro_palette as int].1,
            ),
            *final(self) == (App { macro_seq: final(self).macro_seq, ..*old(self) }),
    {
        let code = MOUSE_PALETTE[self.macro_palette].1;
        self.macro_seq.push(code);
    }

    /// Drops the last click of the sequence, if any.
    fn macro_remove(&mut self)
        ensures
            final(self).macro_seq@ == (if old(self).macro_seq@.len() > 0 {
                old(self).macro_seq@.drop_last()
            } else {
                old(self).macro_seq@
            }),
            *final(self) == (App { macro_seq: final(self).macro_seq, ..*old(self) }),
    {
        let _ = self.macro_seq.pop();
    }

    fn macro_cursor(&mut self, delta: i32)
        ensures
            *final(self) == (App {
                macro_palette: clamp_idx_spec(
                    old(self).macro_palette as int,
                    delta as int,
                    PALETTE_LEN as int,
                ) as usize,
                ..*old(self)
            }),
    {
        self.macro_palette = clamp_idx(self.macro_palette, delta, PALETTE_LEN);
    }
}

/// One row of the sensor diff: (label, device value, edited value).
pub type DiffRow = (&'static str, String, String);

/// A diff row by its characters.
pub open spec fn row_view(r: DiffRow) -> (Seq<char>, Seq<char>, Seq<char>) {
    (r.0@, r.1@, r.2@)
}

/// Diff rows by their characters.
pub open spec fn rows_view(v: Seq<DiffRow>) -> Seq<(Seq<char>, Seq<char>, Seq<char>)> {
    v.map_values(|r: DiffRow| row_view(r))
}

/// `rows` with `r` appended when `c` holds.
pub open spec fn push_if(
    rows: Seq<(Seq<char>, Seq<char>, Seq<char>)>,
    c: bool,
    r: (Seq<char>, Seq<char>, Seq<char>),
) -> Seq<(Seq<char>, Seq<char>, Seq<char>)> {
    if c {
        rows.push(r)
    } else {
        rows
    }
}

pub open spec fn scroll_name(v: u8) -> Seq<char> {
    if v == 1 {
        "inverted"@
    } else {
        "normal"@
    }
}

pub open spec fn sampling_name(v: u8) -> Seq<char> {
    if v == 1 {
        "Competitive"@
    } else {
        "Standard"@
    }
}

/// The edited angle differs from the device's (on/off, or degrees while on).
pub open spec fn angle_changed(e: SensorEdit, s: Settings) -> bool {
    e.angle_on != (s.sensor.angle != 0) || (e.angle_on && e.angle_deg != angle_deg_of(
        s.sensor.angle,
    ))
}

/// Pending sensor edits, in screen order: one row per field whose edited
/// value differs from the device snapshot.
pub open spec fn diff_rows(e: SensorEdit, s: Settings) -> Seq<(Seq<char>, Seq<char>, Seq<char>)> {
    let d = s.sensor;
    let r = push_if(
        seq![],
        e.lod != d.lod,
        ("Lift-off distance"@, lod_mm_spec(d.lod), lod_mm_spec(e.lod)),
    );
    let r = push_if(
        r,
        e.scroll_dir != d.scroll_dir,
        ("Scroll direction"@, scroll_name(d.scroll_dir), scroll_name(e.scroll_dir)),
    );
    let r = push_if(
        r,
        e.motion != d.motion_sync,
        ("Motion sync"@, on_off_spec(d.motion_sync), on_off_spec(e.motion)),
    );
    let r = push_if(r, e.wave != d.wave, ("Ripple control"@, on_off_spec(d.wave), on_off_spec(e.wave)));
    let r = push_if(
        r,
        e.fps20k != d.fps20k,
        ("Sampling mode"@, sampling_name(d.fps20k), sampling_name(e.fps20k)),
    );
    let r = push_if(
        r,
        angle_changed(e, s),
        (
            "Angle snapping"@,
            angle_str_spec(d.angle != 0, angle_deg_of(d.angle)),
            angle_str_spec(e.angle_on, e.angle_deg),
        ),
    );
    let r = push_if(
        r,
        e.debounce != s.debounce.value,
        ("Debounce"@, dec(s.debounce.value as nat) + " ms"@, dec(e.debounce as nat) + " ms"@),
    );
    push_if(
        r,
        e.sleep != s.sleep_min,
        ("Sleep"@, dec(s.sleep_min as nat) + " min"@, dec(e.sleep as nat) + " min"@),
    )
}

/// The diff of the app's editor against its snapshot (empty before a read).
pub open spec fn diff_of(a: App) -> Seq<(Seq<char>, Seq<char>, Seq<char>)> {
    match a.settings {
        Some(s) => diff_rows(a.sensor_edit, s),
        None => seq![],
    }
}

/// `Some(v)` when the edit changed the field, else `None`.
pub open spec fn changed(edit: u8, dev: u8) -> Option<u8> {
    if edit != dev {
        Some(edit)
    } else {
        None
    }
}

/// The writes that commit a sensor edit: one combined sensor-block write
/// for the fields that changed there, then angle, debounce and sleep, each
/// only when it changed.
pub open spec fn sensor_cmds(e: SensorEdit, s: Settings) -> Seq<Cmd> {
    let d = s.sensor;
    let f = SensorFields {
        lod: changed(e.lod, d.lod),
        scroll_dir: changed(e.scroll_dir, d.scroll_dir),
        motion: changed(e.motion, d.motion_sync),
        wave: changed(e.wave, d.wave),
        line: None,
        fps20k: changed(e.fps20k, d.fps20k),
    };
    let any = e.lod != d.lod || e.scroll_dir != d.scroll_dir || e.motion != d.motion_sync || e.wave
        != d.wave || e.fps20k != d.fps20k;
    (if any {
        seq![Cmd::SetSensor(f)]
    } else {
        seq![]
    }) + (if angle_changed(e, s) {
        seq![Cmd::SetAngle { degrees: e.angle_deg, enable: e.angle_on }]
    } else {
        seq![]
    }) + (if e.debounce != s.debounce.value {
        seq![Cmd::SetDebounce(e.debounce)]
    } else {
        seq![]
    }) + (if e.sleep != s.sleep_min {
        seq![Cmd::SetSleep(e.sleep)]
    } else {
        seq![]
    })
}

/// Confirming the sensor diff queues its writes (nothing before a read).
pub open spec fn sensor_apply_step(o: App, n: App) -> bool {
    match o.settings {
        Some(s) => {
            &&& sent(o, n, sensor_cmds(o.sensor_edit, s))
            &&& says(n, "applying sensor…"@, StatusLevel::Info)
            &&& n == (App { outbox: n.outbox, status: n.status, ..o })
        },
        None => n == o,
    }
}

/// A typed character: DPI entry takes up to five digits, macro text takes
/// anything but control characters; other states ignore it.
pub open spec fn typed_step(o: App, n: App, c: char) -> bool {
    let accept = if o.modal == Some(Modal::DpiInput) {
        '0' <= c <= '9' && o.text_buf@.len() < 5
    } else {
        o.modal == Some(Modal::MacroText) && !is_control_spec(c)
    };
    if accept {
        n.text_buf@ == o.text_buf@.push(c) && n == (App { text_buf: n.text_buf, ..o })
    } else {
        n == o
    }
}

/// Enter in the text modal: the macro text, lower-cased, becomes key taps
/// for the target button.
pub open spec fn text_macro_step(o: App, n: App) -> bool {
    match o.macro_target {
        None => n == o,
        Some(id) => {
            let low = lowercase_text(o.text_buf@);
            if all_keycodes(low) {
                let ev = taps_spec(CLASS_KEY, keycodes_of(low));
                if ev.len() > 0 {
                    &&& sent_one(o, n)
                    &&& (n.outbox@.last() matches Cmd::SetMacro { id: i, events } && i == id
                        && events@ == ev)
                    &&& says(n, "uploading text macro…"@, StatusLevel::Info)
                    &&& n == (App { outbox: n.outbox, status: n.status, ..o })
                } else {
                    says(n, "empty macro — nothing sent"@, StatusLevel::Info) && n == (App {
                        status: n.status,
                        ..o
                    })
                }
            } else {
                says(
                    n,
                    "bad reply: "@ + ("no keycode for "@ + char_debug_text(
                        low[first_unsupported(low)],
                    )),
                    StatusLevel::Failure,
                ) && n == (App { status: n.status, ..o })
            }
        },
    }
}

/// `v` clamped to the device's DPI range.
pub open spec fn clamp_dpi(v: u16) -> u16 {
    if v < crate::proto::dpi::DPI_MIN {
        crate::proto::dpi::DPI_MIN
    } else if v > crate::proto::dpi::DPI_MAX {
        crate::proto::dpi::DPI_MAX
    } else {
        v
    }
}

/// Enter in the DPI entry: a valid number, clamped to the range, is written
/// to the preset under the cursor; anything else is reported.
pub open spec fn dpi_commit_step(o: App, n: App) -> bool {
    match parse_u16_spec(o.text_buf@) {
        Some(v) => {
            let c = clamp_dpi(v);
            &&& sent(o, n, seq![Cmd::SetDpi { index: o.dpi_cursor, value: c }])
            &&& says(
                n,
                "DPI preset "@ + dec((o.dpi_cursor + 1) as nat) + " → "@ + dec(c as nat) + "…"@,
                StatusLevel::Info,
            )
            &&& n == (App { outbox: n.outbox, status: n.status, ..o })
        },
        None => says(n, "invalid number"@, StatusLevel::Failure) && n == (App {
            status: n.status,
            ..o
        }),
    }
}

/// Enter in the macro editor: the click sequence is uploaded to the target.
pub open spec fn click_macro_step(o: App, n: App) -> bool {
    match o.macro_target {
        None => says(n, "no target — press m on a button first"@, StatusLevel::Info) && n == (App {
            status: n.status,
            ..o
        }),
        Some(id) => if o.macro_seq@.len() == 0 {
            says(n, "macro empty — add clicks or press i for text"@, StatusLevel::Info) && n == (
            App { status: n.status, ..o })
        } else {
            &&& sent_one(o, n)
            &&& (n.outbox@.last() matches Cmd::SetMacro { id: i, events } && i == id && events@
                == taps_spec(CLASS_MOUSE, o.macro_seq@))
            &&& says(n, "uploading macro…"@, StatusLevel::Info)
            &&& n == (App { outbox: n.outbox, status: n.status, ..o })
        },
    }
}

/// The text buffer emptied and the given text modal opened.
pub open spec fn text_modal_step(o: App, n: App, m: Modal) -> bool {
    n.text_buf@.len() == 0 && n == (App { text_buf: n.text_buf, modal: Some(m), ..o })
}

/// Enter on a focused section: DPI opens the numeric entry, Polling writes
/// the selected rate, Sensor asks to confirm a non-empty diff, Buttons opens
/// the picker, Profiles switches to the profile under the cursor.
pub open spec fn apply_edit_step(o: App, n: App) -> bool {
    match screen_of(o) {
        Screen::Dpi => text_modal_step(o, n, Modal::DpiInput),
        Screen::Polling => {
            &&& sent(o, n, seq![Cmd::SetRate { hz: crate::proto::polling::rates_hz()[o.poll_sel as int] }])
            &&& says(n, "applying polling rate…"@, StatusLevel::Info)
            &&& n == (App { outbox: n.outbox, status: n.status, ..o })
        },
        Screen::Sensor => if diff_of(o).len() > 0 {
            n == (App { modal: Some(Modal::ConfirmSensor), ..o })
        } else {
            n == o
        },
        Screen::Buttons => picker_open_step(o, n),
        Screen::Profiles => {
            &&& sent(o, n, seq![Cmd::SetProfile(o.profile_cursor as u8)])
            &&& says(n, "switching profile…"@, StatusLevel::Info)
            &&& n == (App { outbox: n.outbox, status: n.status, ..o })
        },
        Screen::Overview => n == o,
    }
}

fn push_row(rows: &mut Vec<DiffRow>, label: &'static str, dev: String, edit: String)
    ensures
        rows_view(final(rows)@) == rows_view(old(rows)@).push((label@, dev@, edit@)),
{
    let ghost before = rows@;
    rows.push((label, dev, edit));
    assert(rows_view(rows@) =~= rows_view(before).push((label@, dev@, edit@))) by {
        assert(rows@ =~= before.push((label, dev, edit)));
    }
}

fn scroll_label(v: u8) -> (s: String)
    ensures
        s@ == scroll_name(v),
{
    if v == 1 {
        String::from_str("inverted")
    } else {
        String::from_str("normal")
    }
}

fn sampling_label(v: u8) -> (s: String)
    ensures
        s@ == sampling_name(v),
{
    if v == 1 {
        String::from_str("Competitive")
    } else {
        String::from_str("Standard")
    }
}

fn with_unit(v: u8, unit: &str) -> (s: String)
    ensures
        s@ == dec(v as nat) + unit@,
{
    let mut s = String::new();
    append_radix(&mut s, v as u64, 10);
    s.append(unit);
    s
}

/// The writes that commit the sensor editor `e` against snapshot `s`.
fn sensor_writes(e: SensorEdit, s: &Settings) -> (cmds: Vec<Cmd>)
    ensures
        cmds@ == sensor_cmds(e, *s),
{
    let dev = &s.sensor;
    let mut f = SensorFields::default();
    let mut any = false;
    if e.lod != dev.lod {
        f.lod = Some(e.lod);
        any = true;
    }
    if e.scroll_dir != dev.scroll_dir {
        f.scroll_dir = Some(e.scroll_dir);
        any = true;
    }
    if e.motion != dev.motion_sync {
        f.motion = Some(e.motion);
        any = true;
    }
    if e.wave != dev.wave {
        f.wave = Some(e.wave);
        any = true;
    }
    if e.fps20k != dev.fps20k {
        f.fps20k = Some(e.fps20k);
        any = true;
    }
    let mut out: Vec<Cmd> = Vec::new();
    if any {
        out.push(Cmd::SetSensor(f));
    }
    let ghost p1 = out@;
    let dev_deg = angle_deg(dev.angle);
    if e.angle_on != (dev.angle != 0) || (e.angle_on && e.angle_deg != dev_deg) {
        out.push(Cmd::SetAngle { degrees: e.angle_deg, enable: e.angle_on });
    }
    let ghost p2 = out@;
    if e.debounce != s.debounce.value {
        out.push(Cmd::SetDebounce(e.debounce));
    }
    let ghost p3 = out@;
    if e.sleep != s.sleep_min {
        out.push(Cmd::SetSleep(e.sleep));
    }
    proof {
        let d = s.sensor;
        let sf = SensorFields {
            lod: changed(e.lod, d.lod),
            scroll_dir: changed(e.scroll_dir, d.scroll_dir),
            motion: changed(e.motion, d.motion_sync),
            wave: changed(e.wave, d.wave),
            line: None,
            fps20k: changed(e.fps20k, d.fps20k),
        };
        assert(any ==> f == sf);
        let a = if any {
            seq![Cmd::SetSensor(sf)]
        } else {
            seq![]
        };
        let b = if angle_changed(e, *s) {
            seq![Cmd::SetAngle { degrees: e.angle_deg, enable: e.angle_on }]
        } else {
            seq![]
        };
        let c = if e.debounce != s.debounce.value {
            seq![Cmd::SetDebounce(e.debounce)]
        } else {
            seq![]
        };
        let dd = if e.sleep != s.sleep_min {
            seq![Cmd::SetSleep(e.sleep)]
        } else {
            seq![]
        };
        assert(p1 =~= a);
        assert(p2 =~= a + b);
        assert(p3 =~= a + b + c);
        assert(out@ =~= a + b + c + dd);
    }
    out
}

impl App {
    /// Pending sensor edits as (label, old, new) display strings.
    pub fn sensor_diff(&self) -> (rows: Vec<DiffRow>)
        ensures
            rows_view(rows@) == diff_of(*self),
    {
        let mut out: Vec<DiffRow> = Vec::new();
        let s = match &self.settings {
            Some(s) => s,
            None => {
                assert(rows_view(out@) =~= seq![]);
                return out;
            },
        };
        let e = self.sensor_edit;
        let d = &s.sensor;
        assert(rows_view(out@) =~= seq![]);
        if e.lod != d.lod {
            push_row(
                &mut out,
                "Lift-off distance",
                String::from_str(lod_mm(d.lod)),
                String::from_str(lod_mm(e.lod)),
            );
        }
        if e.scroll_dir != d.scroll_dir {
            push_row(
                &mut out,
                "Scroll direction",
                scroll_label(d.scroll_dir),
                scroll_label(e.scroll_dir),
            );
        }
        if e.motion != d.motion_sync {
            push_row(&mut out, "Motion sync", on_off(d.motion_sync), on_off(e.motion));
        }
        if e.wave != d.wave {
            push_row(&mut out, "Ripple control", on_off(d.wave), on_off(e.wave));
        }
        if e.fps20k != d.fps20k {
            push_row(&mut out, "Sampling mode", sampling_label(d.fps20k), sampling_label(e.fps20k));
        }
        let dev_on = d.angle != 0;
        let dev_deg = angle_deg(d.angle);
        if e.angle_on != dev_on || (e.angle_on && e.angle_deg != dev_deg) {
            push_row(
                &mut out,
                "Angle snapping",
                angle_str(dev_on, dev_deg),
                angle_str(e.angle_on, e.angle_deg),
            );
        }
        if e.debounce != s.debounce.value {
            push_row(&mut out, "Debounce", with_unit(s.debounce.value, " ms"), with_unit(e.debounce, " ms"));
        }
        if e.sleep != s.sleep_min {
            push_row(&mut out, "Sleep", with_unit(s.sleep_min, " min"), with_unit(e.sleep, " min"));
        }
        out
    }

    /// Routes a typed character to the open text or number entry.
    pub fn input_char(&mut self, c: char)
        requires
            old(self).wf(),
        ensures
            final(self).wf(),
            typed_step(*old(self), *final(self), c),
    {
        match self.modal {
            Some(Modal::DpiInput) => {
                if '0' <= c && c <= '9' && self.text_buf.as_str().unicode_len() < 5 {
                    push_char(&mut self.text_buf, c);
                }
            },
            Some(Modal::MacroText) => {
                if !is_control(c) {
                    push_char(&mut self.text_buf, c);
                }
            },
            _ => {},
        }
    }

    /// Deletes the last character of the entry buffer.
    pub fn input_backspace(&mut self)
        requires
            old(self).wf(),
        ensures
            final(self).wf(),
            final(self).text_buf@ == (if old(self).text_buf@.len() > 0 {
                old(self).text_buf@.drop_last()
            } else {
                old(self).text_buf@
            }),
            *final(self) == (App { text_buf: final(self).text_buf, ..*old(self) }),
    {
        let _ = pop_char(&mut self.text_buf);
    }

    /// Closes the open modal without acting on it.
    pub fn input_cancel(&mut self)
        requires
            old(self).wf(),
        ensures
            final(self).wf(),
            *final(self) == (App { modal: None, ..*old(self) }),
    {
        self.modal = None;
    }

    /// Enter in a text entry: commits the macro text or the DPI value, and
    /// closes whatever modal is open.
    pub fn input_commit(&mut self)
        requires
            old(self).wf(),
        ensures
            final(self).wf(),
            ({
                let c = App { modal: None, ..*old(self) };
                if old(self).modal == Some(Modal::MacroText) {
                    text_macro_step(c, *final(self))
                } else if old(self).modal == Some(Modal::DpiInput) {
                    dpi_commit_step(c, *final(self))
                } else {
                    *final(self) == c
                }
            }),
    {
        let m = self.modal;
        self.modal = None;
        match m {
            Some(Modal::MacroText) => self.commit_macro_text(),
            Some(Modal::DpiInput) => self.commit_dpi_input(),
            _ => {},
        }
    }

    fn commit_macro_text(&mut self)
        requires
            old(self).wf(),
            old(self).modal is None,
        ensures
            text_macro_step(*old(self), *final(self)),
    {
        let id = match self.macro_target {
            Some(id) => id,
            None => {
                return;
            },
        };
        match macros::text_events(self.text_buf.as_str()) {
            Ok(events) => {
                if events.len() > 0 {
                    let ghost ev = events@;
                    self.send(Cmd::SetMacro { id, events });
                    assert(self.outbox@.last() matches Cmd::SetMacro { id: i, events } && i == id
                        && events@ == ev);
                    self.set_status(String::from_str("uploading text macro…"), StatusLevel::Info);
                } else {
                    self.set_status(
                        String::from_str("empty macro — nothing sent"),
                        StatusLevel::Info,
                    );
                }
            },
            Err(e) => {
                let m = e.message();
                self.set_status(m, StatusLevel::Failure);
            },
        }
    }

    fn commit_dpi_input(&mut self)
        requires
            old(self).wf(),
        ensures
            dpi_commit_step(*old(self), *final(self)),
    {
        match parse_u16(self.text_buf.as_str()) {
            Some(v) => {
                let v = if v < crate::proto::dpi::DPI_MIN {
                    crate::proto::dpi::DPI_MIN
                } else if v > crate::proto::dpi::DPI_MAX {
                    crate::proto::dpi::DPI_MAX
                } else {
                    v
                };
                let index = self.dpi_cursor;
                self.send(Cmd::SetDpi { index, value: v });
                let mut m = String::from_str("DPI preset ");
                append_radix(&mut m, (index + 1) as u64, 10);
                m.append(" → ");
                append_radix(&mut m, v as u64, 10);
                m.append("…");
                self.set_status(m, StatusLevel::Info);
                assert(self.outbox@ =~= old(self).outbox@ + seq![Cmd::SetDpi { index, value: v }]);
            },
            None => self.set_status(String::from_str("invalid number"), StatusLevel::Failure),
        }
    }

    fn upload_click_macro(&mut self)
        requires
            old(self).wf(),
        ensures
            click_macro_step(*old(self), *final(self)),
    {
        let id = match self.macro_target {
            Some(id) => id,
            None => {
                self.set_status(
                    String::from_str("no target — press m on a button first"),
                    StatusLevel::Info,
                );
                return;
            },
        };
        if self.macro_seq.len() == 0 {
            self.set_status(
                String::from_str("macro empty — add clicks or press i for text"),
                StatusLevel::Info,
            );
            return;
        }
        let events = macros::click_events(self.macro_seq.as_slice());
        self.send(Cmd::SetMacro { id, events });
        self.set_status(String::from_str("uploading macro…"), StatusLevel::Info);
    }

    /// Apply every sensor field that differs from the device (one Enter
    /// commits all pending edits); the post-write refresh reseeds.
    fn apply_sensor_row(&mut self)
        requires
            old(self).wf(),
        ensures
            sensor_apply_step(*old(self), *final(self)),
    {
        let mut cmds = match &self.settings {
            None => {
                return;
            },
            Some(s) => sensor_writes(self.sensor_edit, s),
        };
        self.outbox.append(&mut cmds);
        self.set_status(String::from_str("applying sensor…"), StatusLevel::Info);
    }

    fn apply_edit(&mut self)
        requires
            old(self).wf(),
        ensures
            apply_edit_step(*old(self), *final(self)),
    {
        match self.screen() {
            Screen::Dpi => {
                self.text_buf = String::new();
                self.modal = Some(Modal::DpiInput);
            },
            Screen::Polling => {
                let rates = crate::proto::polling::RATES_HZ;
                assert(rates@ == crate::proto::polling::rates_hz());
                let hz = rates[self.poll_sel];
                self.send(Cmd::SetRate { hz });
                self.set_status(String::from_str("applying polling rate…"), StatusLevel::Info);
                assert(self.outbox@ =~= old(self).outbox@ + seq![Cmd::SetRate { hz }]);
            },
            Screen::Sensor => {
                let rows = self.sensor_diff();
                if rows.len() > 0 {
                    self.modal = Some(Modal::ConfirmSensor);
                }
            },
            Screen::Buttons => self.open_button_picker(),
            Screen::Profiles => {
                let p = self.profile_cursor as u8;
                self.send(Cmd::SetProfile(p));
                self.set_status(String::from_str("switching profile…"), StatusLevel::Info);
                assert(self.outbox@ =~= old(self).outbox@ + seq![Cmd::SetProfile(p)]);
            },
            Screen::Overview => {},
        }
    }
}

/// Up/down in the picker: the type list, or the value list of the chosen
/// type, clamped.
pub open spec fn picker_moved(p: Picker, d: int) -> Picker {
    if p.col == PickerCol::Type {
        Picker { type_idx: clamp_idx_spec(p.type_idx as int, d, 4) as usize, ..p }
    } else {
        Picker {
            value_idx: clamp_idx_spec(
                p.value_idx as int,
                d,
                value_count_spec(pick_kind_at(p.type_idx as int)) as int,
            ) as usize,
            ..p
        }
    }
}

/// Right enters the value list of a type that has values; left leaves it.
pub open spec fn picker_side(p: Picker, d: int) -> Picker {
    if d > 0 && p.col == PickerCol::Type && value_count_spec(pick_kind_at(p.type_idx as int)) > 0 {
        Picker { col: PickerCol::Value, value_idx: 0, ..p }
    } else if d < 0 && p.col == PickerCol::Value {
        Picker { col: PickerCol::Type, ..p }
    } else {
        p
    }
}

/// Enter in the picker (the modal already closed in `o`): a type with
/// values opens its list; Disable and Default are sent at once; a chosen
/// value is sent as a Mouse or Media assignment.
pub open spec fn picker_commit_step(o: App, n: App, p: Picker) -> bool {
    let kind = pick_kind_at(p.type_idx as int);
    if p.col == PickerCol::Type {
        match kind {
            PickKind::Disable => {
                &&& sent(o, n, seq![Cmd::SetButtonDisable(p.id)])
                &&& says(n, "disabling…"@, StatusLevel::Info)
                &&& n == (App { outbox: n.outbox, status: n.status, ..o })
            },
            PickKind::Default => {
                &&& sent(o, n, seq![Cmd::SetButtonDefault(p.id)])
                &&& says(n, "restoring default…"@, StatusLevel::Info)
                &&& n == (App { outbox: n.outbox, status: n.status, ..o })
            },
            _ => n == (App {
                modal: Some(
                    Modal::ButtonPicker(Picker { col: PickerCol::Value, value_idx: 0, ..p }),
                ),
                ..o
            }),
        }
    } else {
        &&& sent_one(o, n)
        &&& (if kind == PickKind::Media {
            n.outbox@.last() matches Cmd::SetButtonMedia { id, action } && id == p.id && action@
                == crate::app::value_label_spec(kind, p.value_idx as int)
        } else {
            n.outbox@.last() matches Cmd::SetButtonMouse { id, action } && id == p.id && action@
                == crate::app::value_label_spec(kind, p.value_idx as int)
        })
        &&& says(n, "applying…"@, StatusLevel::Info)
        &&& n == (App { outbox: n.outbox, status: n.status, ..o })
    }
}

/// A key in the action picker (`o` has the modal closed; `p` is the picker).
pub open spec fn picker_step(o: App, n: App, p: Picker, a: Action) -> bool {
    match a {
        Action::Cancel | Action::Back => n == o,
        Action::Vertical(d) => n == (App {
            modal: Some(Modal::ButtonPicker(picker_moved(p, d as int))),
            ..o
        }),
        Action::Horizontal(d) => n == (App {
            modal: Some(Modal::ButtonPicker(picker_side(p, d as int))),
            ..o
        }),
        Action::Enter | Action::Confirm => picker_commit_step(o, n, p),
        _ => n == (App { modal: Some(Modal::ButtonPicker(p)), ..o }),
    }
}

/// A key while a modal is open. Quit always stops the app; otherwise each
/// modal reads its own keys and keeps itself open on any other.
pub open spec fn modal_step(o: App, n: App, a: Action) -> bool {
    let c = App { modal: None, ..o };
    match o.modal {
        None => true,
        Some(m) => if a == Action::Quit {
            n == (App { running: false, ..o })
        } else {
            match m {
                Modal::ConfirmReset => match a {
                    Action::Confirm | Action::Enter => {
                        &&& sent(c, n, seq![Cmd::FactoryReset])
                        &&& says(n, "factory reset…"@, StatusLevel::Info)
                        &&& n == (App { outbox: n.outbox, status: n.status, ..c })
                    },
                    Action::Cancel | Action::Back => n == c,
                    _ => n == o,
                },
                Modal::ButtonPicker(p) => picker_step(c, n, p, a),
                Modal::MacroText | Modal::DpiInput => n == o,
                Modal::MacroEdit => match a {
                    Action::Back | Action::Cancel => n == c,
                    Action::Enter => click_macro_step(c, n),
                    Action::TextInput => text_modal_step(o, n, Modal::MacroText),
                    Action::Vertical(d) => n == (App {
                        macro_palette: clamp_idx_spec(
                            o.macro_palette as int,
                            d as int,
                            PALETTE_LEN as int,
                        ) as usize,
                        ..o
                    }),
                    Action::Add | Action::Toggle => {
                        &&& n.macro_seq@ == o.macro_seq@.push(
                            MOUSE_PALETTE@[o.macro_palette as int].1,
                        )
                        &&& n == (App { macro_seq: n.macro_seq, ..o })
                    },
                    Action::Remove => {
                        &&& n.macro_seq@ == (if o.macro_seq@.len() > 0 {
                            o.macro_seq@.drop_last()
                        } else {
                            o.macro_seq@
                        })
                        &&& n == (App { macro_seq: n.macro_seq, ..o })
                    },
                    _ => n == o,
                },
                Modal::ConfirmSensor => match a {
                    Action::Enter => sensor_apply_step(c, n),
                    Action::Back => n == c,
                    _ => n == o,
                },
                Modal::Help => match a {
                    Action::Cancel | Action::Back | Action::Help | Action::Enter => n == c,
                    _ => n == o,
                },
                Modal::ThemePicker => match a {
                    Action::Vertical(d) => n == (App {
                        theme_idx: clamp_idx_spec(o.theme_idx as int, d as int, THEME_COUNT as int)
                            as usize,
                        ..o
                    }),
                    Action::Enter | Action::Confirm => n == c,
                    Action::Back | Action::Cancel => n == (App { theme_idx: o.theme_saved, ..c }),
                    _ => n == o,
                },
            }
        },
    }
}

/// `r` refreshes the snapshot (and the button table on Buttons).
pub open spec fn refresh_step(o: App, n: App) -> bool {
    &&& sent(
        o,
        n,
        if screen_of(o) == Screen::Buttons {
            seq![Cmd::ReadAll, Cmd::ReadButtons]
        } else {
            seq![Cmd::ReadAll]
        },
    )
    &&& says(n, "refreshing…"@, StatusLevel::Info)
    &&& n == (App { outbox: n.outbox, status: n.status, refreshing: true, ..o })
}

/// A key with no modal open.
pub open spec fn main_step(o: App, n: App, a: Action) -> bool {
    match a {
        Action::Quit => n == (App { running: false, ..o }),
        Action::CycleTheme => n == (App {
            theme_saved: o.theme_idx,
            modal: Some(Modal::ThemePicker),
            ..o
        }),
        Action::Refresh => refresh_step(o, n),
        Action::ToggleFocus => toggle_focus_step(o, n),
        Action::Back => n == (App { focus: Focus::Sidebar, ..o }),
        Action::Vertical(d) => if o.focus == Focus::Sidebar {
            section_step(o, n, d as int)
        } else {
            cursor_step(o, n, d as int)
        },
        Action::Horizontal(d) => if o.focus == Focus::Sidebar {
            if d > 0 {
                enter_step(o, n)
            } else {
                n == o
            }
        } else {
            adjust_step(o, n, d as int)
        },
        Action::Toggle => toggle_step(o, n),
        Action::Enter => if o.focus == Focus::Sidebar {
            enter_step(o, n)
        } else {
            apply_edit_step(o, n)
        },
        Action::ResetPrompt => n == (App { modal: Some(Modal::ConfirmReset), ..o }),
        Action::CheckUpdate => if o.conn is Up {
            &&& sent(o, n, seq![Cmd::CheckUpdate])
            &&& n == (App { outbox: n.outbox, fw_check: FwCheck::Checking, ..o })
        } else {
            n == o
        },
        Action::Help => n == (App { modal: Some(Modal::Help), ..o }),
        Action::SetDefault => button_step(o, n, false),
        Action::SetDisable => button_step(o, n, true),
        Action::RecordMacro => macro_start_step(o, n),
        Action::TextInput => if screen_of(o) == Screen::Dpi {
            text_modal_step(o, n, Modal::DpiInput)
        } else {
            n == o
        },
        Action::Add | Action::Remove | Action::Confirm | Action::Cancel | Action::Idle => n == o,
    }
}

/// The connected line for a device name and protocol variant.
pub open spec fn connected_line(name: Seq<char>, v: Variant) -> Seq<char> {
    "connected: "@ + name + if v == Variant::EightKNordic {
        ""@
    } else {
        " (unsupported variant — reads may be wrong)"@
    }
}

/// A worker result folded into the state.
pub open spec fn apply_step(o: App, n: App, u: Update) -> bool {
    match u {
        Update::Connected { name, variant, firmware, transport } => {
            &&& says(n, connected_line(name@, variant), StatusLevel::Success)
            &&& n == (App {
                status: n.status,
                conn: Conn::Up { name, firmware, transport },
                fw_check: FwCheck::Idle,
                ..o
            })
        },
        Update::Settings(s) => {
            let code = s.polling.levels[0] as int;
            let base = App {
                poll_sel: if code < RATE_COUNT {
                    code as usize
                } else {
                    o.poll_sel
                },
                sensor_edit: if o.sensor_dirty {
                    o.sensor_edit
                } else {
                    seed_spec(*s)
                },
                settings: Some(*s),
                refreshing: false,
                ..o
            };
            match o.conn {
                Conn::Up { name, .. } => if o.refreshing {
                    says(n, "connected: "@ + name@, StatusLevel::Success) && n == (App {
                        status: n.status,
                        ..base
                    })
                } else {
                    n == base
                },
                _ => n == base,
            }
        },
        Update::Buttons(v) => n == (App {
            buttons: v,
            button_cursor: if o.button_cursor >= v@.len() {
                if v@.len() > 0 {
                    (v@.len() - 1) as usize
                } else {
                    0
                }
            } else {
                o.button_cursor
            },
            ..o
        }),
        Update::Written { ok, msg } => n == (App {
            status: Status {
                text: msg,
                level: if ok {
                    StatusLevel::Success
                } else {
                    StatusLevel::Failure
                },
            },
            sensor_dirty: if ok {
                false
            } else {
                o.sensor_dirty
            },
            ..o
        }),
        Update::Firmware { latest } => match o.conn {
            Conn::Up { firmware, .. } => match latest {
                Some(v) => if v@ == firmware@ {
                    n == (App { fw_check: FwCheck::UpToDate, ..o })
                } else {
                    n == (App { fw_check: FwCheck::Available(v), ..o })
                },
                None => n == (App { fw_check: FwCheck::Failed, ..o }),
            },
            _ => n == o,
        },
        Update::Error(e) => {
            &&& says(n, first_line_or_error(e@), StatusLevel::Failure)
            &&& n == (App {
                settings: None,
                fw_check: FwCheck::Idle,
                status: n.status,
                conn: Conn::Down(e),
                refreshing: false,
                ..o
            })
        },
    }
}

impl App {
    fn update_picker(&mut self, p: Picker, action: Action)
        requires
            old(self).wf(),
            old(self).modal is None,
            picker_wf(p),
        ensures
            picker_step(*old(self), *final(self), p, action),
    {
        let kind = pick_kind(p.type_idx);
        match action {
            Action::Cancel | Action::Back => {},
            Action::Vertical(d) => {
                let q = if p.col == PickerCol::Type {
                    Picker { type_idx: clamp_idx(p.type_idx, d, 4), ..p }
                } else {
                    Picker { value_idx: clamp_idx(p.value_idx, d, kind.value_count()), ..p }
                };
                self.modal = Some(Modal::ButtonPicker(q));
            },
            Action::Horizontal(d) => {
                let has_values = kind.value_count() > 0;
                let q = if d > 0 && p.col == PickerCol::Type && has_values {
                    Picker { col: PickerCol::Value, value_idx: 0, ..p }
                } else if d < 0 && p.col == PickerCol::Value {
                    Picker { col: PickerCol::Type, ..p }
                } else {
                    p
                };
                self.modal = Some(Modal::ButtonPicker(q));
            },
            Action::Enter | Action::Confirm => self.commit_picker(p),
            _ => {
                self.modal = Some(Modal::ButtonPicker(p));
            },
        }
    }

    /// Act on the picker: descend into a value list, or send the chosen
    /// assignment and leave the picker closed.
    fn commit_picker(&mut self, p: Picker)
        requires
            old(self).wf(),
            old(self).modal is None,
            picker_wf(p),
        ensures
            picker_commit_step(*old(self), *final(self), p),
    {
        let kind = pick_kind(p.type_idx);
        match p.col {
            PickerCol::Type => match kind {
                PickKind::Mouse | PickKind::Media => {
                    self.modal = Some(
                        Modal::ButtonPicker(Picker { col: PickerCol::Value, value_idx: 0, ..p }),
                    );
                },
                PickKind::Disable => {
                    self.send(Cmd::SetButtonDisable(p.id));
                    self.set_status(String::from_str("disabling…"), StatusLevel::Info);
                },
                PickKind::Default => {
                    self.send(Cmd::SetButtonDefault(p.id));
                    self.set_status(String::from_str("restoring default…"), StatusLevel::Info);
                },
            },
            PickerCol::Value => {
                let action = String::from_str(kind.value_label(p.value_idx));
                let ghost label = action@;
                if kind == PickKind::Media {
                    self.send(Cmd::SetButtonMedia { id: p.id, action });
                } else {
                    self.send(Cmd::SetButtonMouse { id: p.id, action });
                }
                self.set_status(String::from_str("applying…"), StatusLevel::Info);
            },
        }
    }

    fn update_modal(&mut self, action: Action)
        requires
            old(self).wf(),
            old(self).modal is Some,
        ensures
            modal_step(*old(self), *final(self), action),
    {
        if action == Action::Quit {
            self.running = false;
            return;
        }
        let m = match self.modal {
            Some(m) => m,
            None => {
                return;
            },
        };
        self.modal = None;
        match m {
            Modal::ConfirmReset => match action {
                Action::Confirm | Action::Enter => {
                    self.send(Cmd::FactoryReset);
                    self.set_status(String::from_str("factory reset…"), StatusLevel::Info);
                },
                Action::Cancel | Action::Back => {},
                _ => {
                    self.modal = Some(Modal::ConfirmReset);
                },
            },
            Modal::ButtonPicker(p) => self.update_picker(p, action),
            Modal::MacroText => {
                self.modal = Some(Modal::MacroText);
            },
            Modal::DpiInput => {
                self.modal = Some(Modal::DpiInput);
            },
            Modal::MacroEdit => match action {
                Action::Back | Action::Cancel => {},
                Action::Enter => self.upload_click_macro(),
                Action::TextInput => {
                    self.text_buf = String::new();
                    self.modal = Some(Modal::MacroText);
                },
                Action::Vertical(d) => {
                    self.macro_cursor(d);
                    self.modal = Some(Modal::MacroEdit);
                },
                Action::Add | Action::Toggle => {
                    self.macro_add();
                    self.modal = Some(Modal::MacroEdit);
                },
                Action::Remove => {
                    self.macro_remove();
                    self.modal = Some(Modal::MacroEdit);
                },
                _ => {
                    self.modal = Some(Modal::MacroEdit);
                },
            },
            Modal::ConfirmSensor => match action {
                Action::Enter => self.apply_sensor_row(),
                Action::Back => {},
                _ => {
                    self.modal = Some(Modal::ConfirmSensor);
                },
            },
            Modal::Help => match action {
                Action::Cancel | Action::Back | Action::Help | Action::Enter => {},
                _ => {
                    self.modal = Some(Modal::Help);
                },
            },
            Modal::ThemePicker => match action {
                Action::Vertical(d) => {
                    self.theme_idx = clamp_idx(self.theme_idx, d, THEME_COUNT);
                    self.modal = Some(Modal::ThemePicker);
                },
                Action::Enter | Action::Confirm => {},
                Action::Back | Action::Cancel => {
                    self.theme_idx = self.theme_saved;
                },
                _ => {
                    self.modal = Some(Modal::ThemePicker);
                },
            },
        }
    }

    /// Interprets one key action against the current screen, focus and
    /// modal.
    pub fn update(&mut self, action: Action)
        requires
            old(self).wf(),
        ensures
            final(self).wf(),
            step(*old(self), *final(self), action),
    {
        if self.modal.is_some() {
            self.update_modal(action);
            return;
        }
        match action {
            Action::Quit => {
                self.running = false;
            },
            Action::CycleTheme => {
                self.theme_saved = self.theme_idx;
                self.modal = Some(Modal::ThemePicker);
            },
            Action::Refresh => {
                self.request_read();
                if self.screen() == Screen::Buttons {
                    self.request_buttons();
                }
                self.set_status(String::from_str("refreshing…"), StatusLevel::Info);
                self.refreshing = true;
                proof {
                    if screen_of(*old(self)) == Screen::Buttons {
                        assert(self.outbox@ =~= old(self).outbox@ + seq![
                            Cmd::ReadAll,
                            Cmd::ReadButtons,
                        ]);
                    } else {
                        assert(self.outbox@ =~= old(self).outbox@ + seq![Cmd::ReadAll]);
                    }
                }
            },
            Action::ToggleFocus => self.toggle_focus(),
            Action::Back => self.back(),
            Action::Vertical(d) => match self.focus {
                Focus::Sidebar => self.section(d),
                Focus::Content => self.move_cursor(d),
            },
            Action::Horizontal(d) => match self.focus {
                Focus::Sidebar => {
                    if d > 0 {
                        self.enter_content();
                    }
                },
                Focus::Content => self.adjust(d),
            },
            Action::Toggle => self.toggle_row(),
            Action::Enter => match self.focus {
                Focus::Sidebar => self.enter_content(),
                Focus::Content => self.apply_edit(),
            },
            Action::ResetPrompt => {
                self.modal = Some(Modal::ConfirmReset);
            },
            Action::CheckUpdate => {
                if let Conn::Up { .. } = self.conn {
                    self.send(Cmd::CheckUpdate);
                    self.fw_check = FwCheck::Checking;
                }
            },
            Action::Help => {
                self.modal = Some(Modal::Help);
            },
            Action::SetDefault => self.button_action(false),
            Action::SetDisable => self.button_action(true),
            Action::RecordMacro => self.start_macro_for_selected_button(),
            Action::TextInput => {
                if self.screen() == Screen::Dpi {
                    self.text_buf = String::new();
                    self.modal = Some(Modal::DpiInput);
                }
            },
            Action::Add | Action::Remove | Action::Confirm | Action::Cancel | Action::Idle => {},
        }
    }

    /// Apply a device update from the worker.
    pub fn apply(&mut self, update: Update)
        requires
            old(self).wf(),
        ensures
            final(self).wf(),
            apply_step(*old(self), *final(self), update),
    {
        match update {
            Update::Connected { name, variant, firmware, transport } => {
                let mut line = String::from_str("connected: ");
                line.append(name.as_str());
                if variant != Variant::EightKNordic {
                    line.append(" (unsupported variant — reads may be wrong)");
                } else {
                    proof {
                        reveal_strlit("");
                        assert(line@ =~= line@ + ""@);
                    }
                }
                self.set_status(line, StatusLevel::Success);
                self.conn = Conn::Up { name, firmware, transport };
                self.fw_check = FwCheck::Idle;
            },
            Update::Settings(s) => {
                let code = s.polling.levels[0] as usize;
                if code < RATE_COUNT {
                    self.poll_sel = code;
                }
                if !self.sensor_dirty {
                    self.sensor_edit = seed_sensor(&s);
                }
                self.settings = Some(*s);
                if self.refreshing {
                    let line = match &self.conn {
                        Conn::Up { name, .. } => {
                            let mut line = String::from_str("connected: ");
                            line.append(name.as_str());
                            Some(line)
                        },
                        _ => None,
                    };
                    if let Some(line) = line {
                        self.set_status(line, StatusLevel::Success);
                    }
                }
                self.refreshing = false;
            },
            Update::Buttons(v) => {
                let len = v.len();
                self.buttons = v;
                if self.button_cursor >= len {
                    self.button_cursor = if len > 0 {
                        len - 1
                    } else {
                        0
                    };
                }
            },
            Update::Written { ok, msg } => {
                self.set_status(
                    msg,
                    if ok {
                        StatusLevel::Success
                    } else {
                        StatusLevel::Failure
                    },
                );
                if ok {
                    self.sensor_dirty = false;
                }
            },
            Update::Firmware { latest } => {
                let next = match &self.conn {
                    Conn::Up { firmware, .. } => match latest {
                        Some(v) => if crate::text::str_eq(v.as_str(), firmware.as_str()) {
                            Some(FwCheck::UpToDate)
                        } else {
                            Some(FwCheck::Available(v))
                        },
                        None => Some(FwCheck::Failed),
                    },
                    _ => None,
                };
                if let Some(f) = next {
                    self.fw_check = f;
                }
            },
            Update::Error(e) => {
                let line = first_line(e.as_str());
                self.settings = None;
                self.fw_check = FwCheck::Idle;
                self.set_status(line, StatusLevel::Failure);
                self.conn = Conn::Down(e);
                self.refreshing = false;
            },
        }
    }
}

/// One `update` call: the modal's keys while a modal is open, the main
/// keys otherwise.
pub open spec fn step(o: App, n: App, a: Action) -> bool {
    if o.modal is Some {
        modal_step(o, n, a)
    } else {
        main_step(o, n, a)
    }
}

/// Quit stops the app from any state, modal open or not.
pub proof fn lemma_quit_stops(o: App, n: App)
    requires
        step(o, n, Action::Quit),
    ensures
        !n.running,
{
}

/// While a modal is open, keys never move the section, the focus, the
/// cursors or the snapshot.
pub proof fn lemma_modal_keeps_place(o: App, n: App, a: Action)
    requires
        o.modal is Some,
        step(o, n, a),
    ensures
        n.screen_idx == o.screen_idx,
        n.focus == o.focus,
        n.dpi_cursor == o.dpi_cursor,
        n.sensor_cursor == o.sensor_cursor,
        n.button_cursor == o.button_cursor,
        n.settings == o.settings,
{
}

/// Moving down and then up by the same amount in the sidebar comes back
/// to the section it started on.
pub proof fn lemma_section_round_trip(o: App, n1: App, n2: App, d: i32)
    requires
        o.wf(),
        o.modal is None,
        o.focus == Focus::Sidebar,
        d > i32::MIN,
        step(o, n1, Action::Vertical(d)),
        step(n1, n2, Action::Vertical((-d) as i32)),
    ensures
        n2.screen_idx == o.screen_idx,
{
    let i = o.screen_idx as int;
    let k = (i + d) % 6;
    assert(((k - d) % 6) == i) by (nonlinear_arith)
        requires
            0 <= i < 6,
            k == (i + d) % 6,
    ;
}

/// The theme picker previews live: Back restores the theme it opened on,
/// Enter keeps the previewed one, and either closes it.
pub proof fn lemma_theme_preview(o: App, n1: App, n2: App, n3: App, d: i32, close: Action)
    requires
        o.modal is None,
        close == Action::Back || close == Action::Enter,
        step(o, n1, Action::CycleTheme),
        step(n1, n2, Action::Vertical(d)),
        step(n2, n3, close),
    ensures
        n3.modal is None,
        close == Action::Back ==> n3.theme_idx == o.theme_idx,
        close == Action::Enter ==> n3.theme_idx == n2.theme_idx,
{
}

/// After a refresh on a connected device, the snapshot that lands puts the
/// connected line back in the status bar.
pub proof fn lemma_refresh_then_snapshot(o: App, n1: App, n2: App, s: Box<Settings>)
    requires
        o.modal is None,
        o.conn is Up,
        step(o, n1, Action::Refresh),
        apply_step(n1, n2, Update::Settings(s)),
    ensures
        n1.status.text@ == "refreshing…"@,
        n2.status.text@ == "connected: "@ + o.conn->Up_name@,
        n2.status.level == StatusLevel::Success,
        !n2.refreshing,
{
}

/// The editor's value for `row` differs from the device snapshot (never
/// before a read).
pub open spec fn row_changed_spec(a: App, row: SensorRow) -> bool {
    match a.settings {
        None => false,
        Some(s) => {
            let e = a.sensor_edit;
            let d = s.sensor;
            match row {
                SensorRow::Lod => e.lod != d.lod,
                SensorRow::ScrollDir => e.scroll_dir != d.scroll_dir,
                SensorRow::Motion => e.motion != d.motion_sync,
                SensorRow::Ripple => e.wave != d.wave,
                SensorRow::Sampling => e.fps20k != d.fps20k,
                SensorRow::Angle => angle_changed(e, s),
                SensorRow::Debounce => e.debounce != s.debounce.value,
                SensorRow::Sleep => e.sleep != s.sleep_min,
            }
        },
    }
}

impl App {
    /// Whether the row's edited value differs from the device's current value.
    pub fn row_changed(&self, row: SensorRow) -> (r: bool)
        ensures
            r == row_changed_spec(*self, row),
    {
        let s = match &self.settings {
            Some(s) => s,
            None => {
                return false;
            },
        };
        let e = &self.sensor_edit;
        let se = &s.sensor;
        match row {
            SensorRow::Lod => e.lod != se.lod,
            SensorRow::ScrollDir => e.scroll_dir != se.scroll_dir,
            SensorRow::Motion => e.motion != se.motion_sync,
            SensorRow::Ripple => e.wave != se.wave,
            SensorRow::Sampling => e.fps20k != se.fps20k,
            SensorRow::Angle => {
                let dev_deg = angle_deg(se.angle);
                e.angle_on != (se.angle != 0) || (e.angle_on && e.angle_deg != dev_deg)
            },
            SensorRow::Debounce => e.debounce != s.debounce.value,
            SensorRow::Sleep => e.sleep != s.sleep_min,
        }
    }
}

/// The screen marks a row unsaved exactly when the confirm dialog has
/// something to list: some row differs iff the sensor diff is non-empty.
pub proof fn lemma_unsaved_iff_diff(a: App)
    ensures
        (exists|row: SensorRow| #[trigger] row_changed_spec(a, row)) <==> diff_of(a).len() > 0,
{
    match a.settings {
        None => {},
        Some(s) => {
            let e = a.sensor_edit;
            if diff_of(a).len() > 0 {
                if e.lod != s.sensor.lod {
                    assert(row_changed_spec(a, SensorRow::Lod));
                } else if e.scroll_dir != s.sensor.scroll_dir {
                    assert(row_changed_spec(a, SensorRow::ScrollDir));
                } else if e.motion != s.sensor.motion_sync {
                    assert(row_changed_spec(a, SensorRow::Motion));
                } else if e.wave != s.sensor.wave {
                    assert(row_changed_spec(a, SensorRow::Ripple));
                } else if e.fps20k != s.sensor.fps20k {
                    assert(row_changed_spec(a, SensorRow::Sampling));
                } else if angle_changed(e, s) {
                    assert(row_changed_spec(a, SensorRow::Angle));
                } else if e.debounce != s.debounce.value {
                    assert(row_changed_spec(a, SensorRow::Debounce));
                } else {
                    assert(row_changed_spec(a, SensorRow::Sleep));
                }
            }
        },
    }
}

/// The commands one step queued.
pub open spec fn new_cmds(o: App, n: App) -> Seq<Cmd> {
    n.outbox@.skip(o.outbox@.len() as int)
}

/// No command in `cmds` is a factory reset or an update check.
pub open spec fn routine(cmds: Seq<Cmd>) -> bool {
    forall|i: int| 0 <= i < cmds.len() ==> !(#[trigger] cmds[i] is FactoryReset) && !(cmds[i] is CheckUpdate)
}

proof fn lemma_sensor_cmds_routine(e: SensorEdit, s: Settings)
    ensures
        routine(sensor_cmds(e, s)),
{
    let c = sensor_cmds(e, s);
    assert forall|i: int| 0 <= i < c.len() implies !(#[trigger] c[i] is FactoryReset) && !(
    c[i] is CheckUpdate) by {
        assert(c[i] is SetSensor || c[i] is SetAngle || c[i] is SetDebounce || c[i] is SetSleep);
    }
}

/// Keys only ever append to the worker queue. A factory reset is queued only
/// by confirming the reset dialog, and an update check only by its own key
/// while a device is connected; every other key queues neither.
pub proof fn lemma_queue_discipline(o: App, n: App, a: Action)
    requires
        o.wf(),
        step(o, n, a),
    ensures
        o.outbox@.is_prefix_of(n.outbox@),
        !(o.modal == Some(Modal::ConfirmReset) && (a == Action::Confirm || a == Action::Enter))
            && !(o.modal is None && a == Action::CheckUpdate) ==> routine(new_cmds(o, n)),
{
    let d = new_cmds(o, n);
    if let Some(s) = o.settings {
        lemma_sensor_cmds_routine(o.sensor_edit, s);
    }
    if n.outbox@.len() > o.outbox@.len() && n.outbox@.drop_last() == o.outbox@ {
        assert(d =~= seq![n.outbox@.last()]);
    }
    assert(o.outbox@.is_prefix_of(n.outbox@));
}

} // verus!
