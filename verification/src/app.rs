//! App state and the action reducer. Holds the latest device snapshot plus the
//! per-screen edit buffers. Device I/O runs on the worker; actions that mutate
//! the device queue a `Cmd` in the outbox, which the event loop drains and
//! sends, and the result comes back as an `Update`.

use vstd::prelude::*;

use crate::proto::block::Settings;
use crate::proto::buttons::{MEDIA_ACTIONS, MOUSE_ACTIONS};
use crate::hid::enumerate::{chars_of, line_at};
use crate::text::{append_radix, dec, push_char, string_of};

pub mod state;

pub use state::App;

verus! {

pub const LOD_MAX: u8 = 2;
pub const ANGLE_MAX: u8 = 90;
pub const ANGLE_STEP: u8 = 5;
pub const DEBOUNCE_MAX: u8 = 30;
pub const SLEEP_MIN: u8 = 1;
pub const SLEEP_MAX: u8 = 240;
pub const SLEEP_STEP: u8 = 5;

/// Number of colour themes the app cycles through.
pub const THEME_COUNT: usize = 4;

/// Theme names, in picker order.
pub const THEME_NAMES: [&'static str; 4] = ["Mocha", "Gruvbox", "Nord", "Tokyo Night"];

/// Left-sidebar sections. Order = display order.
#[derive(Clone, Copy, PartialEq, Eq, Debug, Structural)]
pub enum Screen {
    Overview,
    Dpi,
    Polling,
    Sensor,
    Buttons,
    Profiles,
}

/// Number of sidebar sections.
pub const SCREEN_COUNT: usize = 6;

/// The section at sidebar position `i` (positions past the end repeat the last).
pub open spec fn screen_at(i: int) -> Screen {
    if i == 0 {
        Screen::Overview
    } else if i == 1 {
        Screen::Dpi
    } else if i == 2 {
        Screen::Polling
    } else if i == 3 {
        Screen::Sensor
    } else if i == 4 {
        Screen::Buttons
    } else {
        Screen::Profiles
    }
}

/// Whether a section's content pane accepts focus / editing.
pub open spec fn interactive_spec(s: Screen) -> bool {
    s != Screen::Overview
}

impl Screen {
    pub const ALL: [Screen; 6] = [
        Screen::Overview,
        Screen::Dpi,
        Screen::Polling,
        Screen::Sensor,
        Screen::Buttons,
        Screen::Profiles,
    ];

    /// Section title.
    pub fn title(self) -> (s: &'static str)
        ensures
            self == Screen::Overview ==> s@ == "Overview"@,
            self == Screen::Dpi ==> s@ == "DPI"@,
            self == Screen::Polling ==> s@ == "Polling"@,
            self == Screen::Sensor ==> s@ == "Sensor"@,
            self == Screen::Buttons ==> s@ == "Buttons"@,
            self == Screen::Profiles ==> s@ == "Profiles"@,
    {
        match self {
            Screen::Overview => "Overview",
            Screen::Dpi => "DPI",
            Screen::Polling => "Polling",
            Screen::Sensor => "Sensor",
            Screen::Buttons => "Buttons",
            Screen::Profiles => "Profiles",
        }
    }

    /// Whether the content pane accepts focus / editing (others are read-only).
    pub fn interactive(self) -> (r: bool)
        ensures
            r == interactive_spec(self),
    {
        match self {
            Screen::Overview => false,
            _ => true,
        }
    }
}

/// Which pane has keyboard focus.
#[derive(Clone, Copy, PartialEq, Eq, Debug, Structural)]
pub enum Focus {
    Sidebar,
    Content,
}

/// The footer's key hints for `focus` on `screen`, as (key, label) pairs
/// in display order: navigation for the focused pane (in the content pane,
/// the keys of the screen shown), then the global keys.
pub open spec fn footer_hints_spec(focus: Focus, screen: Screen) -> Seq<(Seq<char>, Seq<char>)> {
    let lead = match focus {
        Focus::Sidebar => seq![(" ↑↓ "@, "section  "@)] + if interactive_spec(screen) {
            seq![("→ "@, "edit  "@)]
        } else {
            Seq::empty()
        },
        Focus::Content => (match screen {
            Screen::Dpi => seq![(" ↑↓ "@, "row  "@), ("↵ "@, "apply  "@)],
            Screen::Polling => seq![(" ↑↓ "@, "pick  "@), ("↵ "@, "apply  "@)],
            Screen::Sensor => seq![
                (" ↑↓ "@, "row  "@),
                ("←→ "@, "change  "@),
                ("␣ "@, "toggle  "@),
                ("↵ "@, "apply  "@),
            ],
            _ => Seq::empty(),
        }) + seq![("⇥ "@, "back  "@)],
    };
    lead + seq![("r "@, "refresh  "@), ("t "@, "theme  "@), ("X "@, "reset  "@), ("q "@, "quit   "@)]
}

/// The footer's key hints for `focus` on `screen` (see [`footer_hints_spec`]).
pub fn footer_hints(focus: Focus, screen: Screen) -> (v: Vec<(&'static str, &'static str)>)
    ensures
        v@.map_values(|p: (&'static str, &'static str)| (p.0@, p.1@)) == footer_hints_spec(
            focus,
            screen,
        ),
{
    let mut v: Vec<(&'static str, &'static str)> = Vec::new();
    match focus {
        Focus::Sidebar => {
            v.push((" ↑↓ ", "section  "));
            if screen.interactive() {
                v.push(("→ ", "edit  "));
            }
        },
        Focus::Content => {
            match screen {
                Screen::Dpi => {
                    v.push((" ↑↓ ", "row  "));
                    v.push(("↵ ", "apply  "));
                },
                Screen::Polling => {
                    v.push((" ↑↓ ", "pick  "));
                    v.push(("↵ ", "apply  "));
                },
                Screen::Sensor => {
                    v.push((" ↑↓ ", "row  "));
                    v.push(("←→ ", "change  "));
                    v.push(("␣ ", "toggle  "));
                    v.push(("↵ ", "apply  "));
                },
                _ => {},
            }
            v.push(("⇥ ", "back  "));
        },
    }
    v.push(("r ", "refresh  "));
    v.push(("t ", "theme  "));
    v.push(("X ", "reset  "));
    v.push(("q ", "quit   "));
    assert(v@.map_values(|p: (&'static str, &'static str)| (p.0@, p.1@)) =~= footer_hints_spec(
        focus,
        screen,
    ));
    v
}

/// Editable rows on the Sensor screen.
#[derive(Clone, Copy, PartialEq, Eq, Debug, Structural)]
pub enum SensorRow {
    Lod,
    ScrollDir,
    Motion,
    Angle,
    Ripple,
    Sampling,
    Debounce,
    Sleep,
}

/// Number of Sensor-screen rows.
pub const SENSOR_ROW_COUNT: usize = 8;

/// The Sensor row at position `i`.
pub open spec fn sensor_row_at(i: int) -> SensorRow {
    if i == 0 {
        SensorRow::Lod
    } else if i == 1 {
        SensorRow::ScrollDir
    } else if i == 2 {
        SensorRow::Motion
    } else if i == 3 {
        SensorRow::Angle
    } else if i == 4 {
        SensorRow::Ripple
    } else if i == 5 {
        SensorRow::Sampling
    } else if i == 6 {
        SensorRow::Debounce
    } else {
        SensorRow::Sleep
    }
}

/// Label of a Sensor row.
pub open spec fn sensor_label_spec(r: SensorRow) -> Seq<char> {
    match r {
        SensorRow::Lod => "Lift-off distance"@,
        SensorRow::ScrollDir => "Scroll direction"@,
        SensorRow::Motion => "Motion sync"@,
        SensorRow::Angle => "Angle snapping"@,
        SensorRow::Ripple => "Ripple control"@,
        SensorRow::Sampling => "Sampling mode"@,
        SensorRow::Debounce => "Debounce"@,
        SensorRow::Sleep => "Sleep"@,
    }
}

impl SensorRow {
    pub const ALL: [SensorRow; 8] = [
        SensorRow::Lod,
        SensorRow::ScrollDir,
        SensorRow::Motion,
        SensorRow::Angle,
        SensorRow::Ripple,
        SensorRow::Sampling,
        SensorRow::Debounce,
        SensorRow::Sleep,
    ];

    /// Row label.
    pub fn label(self) -> (s: &'static str)
        ensures
            s@ == sensor_label_spec(self),
    {
        match self {
            SensorRow::Lod => "Lift-off distance",
            SensorRow::ScrollDir => "Scroll direction",
            SensorRow::Motion => "Motion sync",
            SensorRow::Angle => "Angle snapping",
            SensorRow::Ripple => "Ripple control",
            SensorRow::Sampling => "Sampling mode",
            SensorRow::Debounce => "Debounce",
            SensorRow::Sleep => "Sleep",
        }
    }
}

/// The row at `i` (exec).
fn sensor_row(i: usize) -> (r: SensorRow)
    ensures
        r == sensor_row_at(i as int),
{
    if i == 0 {
        SensorRow::Lod
    } else if i == 1 {
        SensorRow::ScrollDir
    } else if i == 2 {
        SensorRow::Motion
    } else if i == 3 {
        SensorRow::Angle
    } else if i == 4 {
        SensorRow::Ripple
    } else if i == 5 {
        SensorRow::Sampling
    } else if i == 6 {
        SensorRow::Debounce
    } else {
        SensorRow::Sleep
    }
}

/// Working copy of the Sensor screen values (seeded from the device snapshot).
#[derive(Clone, Copy, PartialEq, Eq, Debug, Structural)]
pub struct SensorEdit {
    pub lod: u8,
    pub scroll_dir: u8,
    pub motion: u8,
    pub wave: u8,
    pub fps20k: u8,
    pub angle_on: bool,
    pub angle_deg: u8,
    pub debounce: u8,
    pub sleep: u8,
}

/// All-zero edit buffer.
pub open spec fn zero_edit() -> SensorEdit {
    SensorEdit {
        lod: 0,
        scroll_dir: 0,
        motion: 0,
        wave: 0,
        fps20k: 0,
        angle_on: false,
        angle_deg: 0,
        debounce: 0,
        sleep: 0,
    }
}

impl Default for SensorEdit {
    fn default() -> (e: Self)
        ensures
            e == zero_edit(),
    {
        SensorEdit {
            lod: 0,
            scroll_dir: 0,
            motion: 0,
            wave: 0,
            fps20k: 0,
            angle_on: false,
            angle_deg: 0,
            debounce: 0,
            sleep: 0,
        }
    }
}

/// Action-picker columns: choose a type, then (for Mouse/Media) a value.
#[derive(Clone, Copy, PartialEq, Eq, Debug, Structural)]
pub enum PickerCol {
    Type,
    Value,
}

/// Action types offered in the picker.
#[derive(Clone, Copy, PartialEq, Eq, Debug, Structural)]
pub enum PickKind {
    Mouse,
    Media,
    Disable,
    Default,
}

pub const PICK_TYPES: [(&'static str, PickKind); 4] = [
    ("Mouse", PickKind::Mouse),
    ("Media", PickKind::Media),
    ("Disable", PickKind::Disable),
    ("Default", PickKind::Default),
];

/// Kind of picker row `i`.
pub open spec fn pick_kind_at(i: int) -> PickKind {
    if i == 0 {
        PickKind::Mouse
    } else if i == 1 {
        PickKind::Media
    } else if i == 2 {
        PickKind::Disable
    } else {
        PickKind::Default
    }
}

fn pick_kind(i: usize) -> (k: PickKind)
    ensures
        k == pick_kind_at(i as int),
{
    if i == 0 {
        PickKind::Mouse
    } else if i == 1 {
        PickKind::Media
    } else if i == 2 {
        PickKind::Disable
    } else {
        PickKind::Default
    }
}

/// Number of values offered for a kind (0 = applied immediately).
pub open spec fn value_count_spec(k: PickKind) -> nat {
    match k {
        PickKind::Mouse => 10,
        PickKind::Media => 7,
        _ => 0,
    }
}

/// Value label at `idx` for a kind.
pub open spec fn value_label_spec(k: PickKind, idx: int) -> Seq<char> {
    match k {
        PickKind::Mouse => MOUSE_ACTIONS@[idx].0@,
        PickKind::Media => MEDIA_ACTIONS@[idx].0@,
        _ => ""@,
    }
}

impl PickKind {
    /// Number of values offered for this type (0 = applied immediately).
    pub fn value_count(self) -> (n: usize)
        ensures
            n == value_count_spec(self),
    {
        match self {
            PickKind::Mouse => MOUSE_ACTIONS.len(),
            PickKind::Media => MEDIA_ACTIONS.len(),
            _ => 0,
        }
    }

    /// Value label at `idx` for this type; empty for the kinds that offer
    /// no values.
    pub fn value_label(self, idx: usize) -> (s: &'static str)
        requires
            self == PickKind::Mouse ==> idx < value_count_spec(self),
            self == PickKind::Media ==> idx < value_count_spec(self),
        ensures
            s@ == value_label_spec(self, idx as int),
            !(self == PickKind::Mouse || self == PickKind::Media) ==> s@ == ""@,
    {
        match self {
            PickKind::Mouse => MOUSE_ACTIONS[idx].0,
            PickKind::Media => MEDIA_ACTIONS[idx].0,
            _ => "",
        }
    }
}

#[derive(Clone, Copy, PartialEq, Eq, Debug, Structural)]
pub struct Picker {
    pub id: u8,
    pub col: PickerCol,
    pub type_idx: usize,
    pub value_idx: usize,
}

/// Active modal overlay.
#[derive(Clone, Copy, PartialEq, Eq, Debug, Structural)]
pub enum Modal {
    ConfirmReset,
    ButtonPicker(Picker),
    MacroText,
    /// Numeric entry for the selected DPI preset.
    DpiInput,
    /// Macro builder for the target button (click sequence + text option).
    MacroEdit,
    /// Diff confirmation before applying pending sensor edits.
    ConfirmSensor,
    Help,
    /// Live-preview theme list; Back restores the theme it opened on.
    ThemePicker,
}

/// Connection state to the device.
pub enum Conn {
    Connecting,
    Up { name: String, firmware: String, transport: &'static str },
    Down(String),
}

/// Opt-in firmware-update check state (triggered by `u`).
pub enum FwCheck {
    Idle,
    Checking,
    UpToDate,
    Available(String),
    Failed,
}

/// Transient status-line message; severity drives its color.
pub struct Status {
    pub text: String,
    pub level: StatusLevel,
}

#[derive(Clone, Copy, PartialEq, Eq, Debug, Structural)]
pub enum StatusLevel {
    Info,
    Success,
    Failure,
}

/// Input actions, as the key map produces them.
#[derive(Clone, Copy, PartialEq, Eq, Debug, Structural)]
pub enum Action {
    /// A key with no binding.
    Idle,
    Quit,
    CycleTheme,
    Refresh,
    ToggleFocus,
    Back,
    /// Up/down by the signed amount.
    Vertical(i32),
    /// Left/right by the signed amount.
    Horizontal(i32),
    Toggle,
    Enter,
    ResetPrompt,
    CheckUpdate,
    Help,
    SetDefault,
    SetDisable,
    RecordMacro,
    TextInput,
    Add,
    Remove,
    Confirm,
    Cancel,
}

/// `cur + delta` clamped to `0..len`.
pub open spec fn clamp_idx_spec(cur: int, delta: int, len: int) -> int {
    let v = cur + delta;
    if v < 0 {
        0
    } else if v > len - 1 {
        len - 1
    } else {
        v
    }
}

/// Move an index by `delta`, clamped to `0..len`.
pub fn clamp_idx(cur: usize, delta: i32, len: usize) -> (r: usize)
    requires
        len > 0,
    ensures
        r == clamp_idx_spec(cur as int, delta as int, len as int),
        r < len,
{
    let v: i128 = cur as i128 + delta as i128;
    if v < 0 {
        0
    } else if v > len as i128 - 1 {
        len - 1
    } else {
        v as usize
    }
}

/// Sign of `v` (-1, 0 or 1).
pub open spec fn signum(v: int) -> int {
    if v > 0 {
        1
    } else if v < 0 {
        -1
    } else {
        0
    }
}

/// `cur + sign(dir) * step` clamped to `min..=max`.
pub open spec fn step_clamp_spec(cur: int, dir: int, min: int, max: int, step: int) -> int {
    let v = cur + signum(dir) * step;
    if v < min {
        min
    } else if v > max {
        max
    } else {
        v
    }
}

/// Step a value by `dir * step`, clamped to `min..=max`.
pub fn step_clamp(cur: u8, dir: i32, min: u8, max: u8, step: u8) -> (r: u8)
    requires
        min <= max,
    ensures
        r == step_clamp_spec(cur as int, dir as int, min as int, max as int, step as int),
{
    let s: i32 = if dir > 0 {
        1
    } else if dir < 0 {
        -1
    } else {
        0
    };
    let v: i32 = cur as i32 + s * step as i32;
    if v < min as i32 {
        min
    } else if v > max as i32 {
        max
    } else {
        v as u8
    }
}

/// LOD code -> its millimetre label.
pub open spec fn lod_mm_spec(v: u8) -> Seq<char> {
    if v == 0 {
        "0.7 mm"@
    } else if v == 1 {
        "1.0 mm"@
    } else if v == 2 {
        "2.0 mm"@
    } else {
        "?"@
    }
}

pub fn lod_mm(v: u8) -> (s: &'static str)
    ensures
        s@ == lod_mm_spec(v),
{
    match v {
        0 => "0.7 mm",
        1 => "1.0 mm",
        2 => "2.0 mm",
        _ => "?",
    }
}

/// How a piece of a sensor row is shown.
#[derive(Clone, Copy, PartialEq, Eq, Debug, Structural)]
pub enum RowTone {
    /// The row's name.
    Label,
    /// The current value.
    Value,
    /// The choices a row offers, or a detail beside its value.
    Hint,
    /// A switch that is on.
    On,
    /// A switch that is off.
    Off,
    /// The adjust marker of the selected row.
    Adjust,
    /// The mark of an edit not yet applied.
    Unsaved,
}

/// `s` padded with spaces on the right to 18 characters.
pub open spec fn pad18(s: Seq<char>) -> Seq<char> {
    if s.len() < 18 {
        s + Seq::new((18 - s.len()) as nat, |i: int| ' ')
    } else {
        s
    }
}

/// The piece that shows a switch.
pub open spec fn switch_part(on: bool) -> (Seq<char>, RowTone) {
    if on {
        ("● on"@, RowTone::On)
    } else {
        ("○ off"@, RowTone::Off)
    }
}

/// The adjust marker around `v`, shown on the selected row.
pub open spec fn adjust_part(v: Seq<char>, selected: bool) -> Seq<(Seq<char>, RowTone)> {
    if selected {
        seq![("   ◄ "@ + v + " ►"@, RowTone::Adjust)]
    } else {
        Seq::empty()
    }
}

/// The pieces after the label of the sensor screen's line for `row`: the
/// value with its hints or adjust marker.
pub open spec fn row_body_spec(e: SensorEdit, row: SensorRow, selected: bool) -> Seq<(Seq<char>, RowTone)> {
    match row {
        SensorRow::Lod => seq![(lod_mm_spec(e.lod), RowTone::Value)] + adjust_part(
            lod_mm_spec(e.lod),
            selected,
        ),
        SensorRow::ScrollDir => seq![
            (if e.scroll_dir == 1 {
                "inverted"@
            } else {
                "normal"@
            }, RowTone::Value),
            ("  [ normal | inverted ]"@, RowTone::Hint),
        ],
        SensorRow::Motion => seq![switch_part(e.motion == 1)],
        SensorRow::Angle => seq![
            switch_part(e.angle_on),
            ("   "@ + dec(e.angle_deg as nat) + "°"@, RowTone::Hint),
        ],
        SensorRow::Ripple => seq![switch_part(e.wave == 1)],
        SensorRow::Sampling => seq![
            (if e.fps20k == 1 {
                "Competitive"@
            } else {
                "Standard"@
            }, RowTone::Value),
            ("  [ Std | Competitive ]"@, RowTone::Hint),
        ],
        SensorRow::Debounce => seq![(dec(e.debounce as nat) + " ms"@, RowTone::Value)] + adjust_part(
            dec(e.debounce as nat),
            selected,
        ),
        SensorRow::Sleep => seq![(dec(e.sleep as nat) + " min"@, RowTone::Value)] + adjust_part(
            dec(e.sleep as nat) + " min"@,
            selected,
        ),
    }
}

/// The unsaved mark, when the edit differs from the device.
pub open spec fn unsaved_part(changed: bool) -> Seq<(Seq<char>, RowTone)> {
    if changed {
        seq![("  ✎ unsaved"@, RowTone::Unsaved)]
    } else {
        Seq::empty()
    }
}

/// The pieces of the sensor screen's line for `row`, in order: the padded
/// label, the value with its hints or adjust marker, and the unsaved mark
/// when the edit differs from the device.
pub open spec fn sensor_row_spec(
    e: SensorEdit,
    row: SensorRow,
    selected: bool,
    changed: bool,
) -> Seq<(Seq<char>, RowTone)> {
    seq![(pad18(sensor_label_spec(row)), RowTone::Label)] + row_body_spec(e, row, selected)
        + unsaved_part(changed)
}

/// `s` with spaces appended up to 18 characters.
fn padded18(s: &str) -> (r: String)
    ensures
        r@ == pad18(s@),
{
    let mut r = string_of(s);
    let n = s.unicode_len();
    let mut k = n;
    while k < 18
        invariant
            n == s@.len(),
            n <= k <= 18 || (n >= 18 && k == n),
            r@ == s@ + Seq::new((k - n) as nat, |i: int| ' '),
        decreases 18 - k,
    {
        push_char(&mut r, ' ');
        k = k + 1;
        assert(r@ =~= s@ + Seq::new((k - n) as nat, |i: int| ' '));
    }
    proof {
        if n >= 18 {
            assert(r@ =~= s@);
        }
    }
    r
}

/// The piece that shows a switch (see [`switch_part`]).
fn switch_text(on: bool) -> (p: (String, RowTone))
    ensures
        (p.0@, p.1) == switch_part(on),
{
    if on {
        (string_of("● on"), RowTone::On)
    } else {
        (string_of("○ off"), RowTone::Off)
    }
}

/// `"{prefix}{n}{suffix}"`.
fn number_text(prefix: &str, n: u8, suffix: &str) -> (r: String)
    ensures
        r@ == prefix@ + dec(n as nat) + suffix@,
{
    let mut r = string_of(prefix);
    append_radix(&mut r, n as u64, 10);
    r.append(suffix);
    r
}

/// The line of the sensor screen for `row` (see [`sensor_row_spec`]):
/// `selected` when the cursor is on it, `changed` when its edit differs
/// from the device.
pub fn sensor_row_text(e: &SensorEdit, row: SensorRow, selected: bool, changed: bool) -> (v: Vec<
    (String, RowTone),
>)
    ensures
        v@.map_values(|p: (String, RowTone)| (p.0@, p.1)) == sensor_row_spec(
            *e,
            row,
            selected,
            changed,
        ),
{
    let mut v: Vec<(String, RowTone)> = Vec::new();
    v.push((padded18(row.label()), RowTone::Label));
    assert(v@.map_values(|p: (String, RowTone)| (p.0@, p.1)) =~= seq![
        (pad18(sensor_label_spec(row)), RowTone::Label),
    ]);
    match row {
        SensorRow::Lod => {
            v.push((string_of(lod_mm(e.lod)), RowTone::Value));
            if selected {
                let mut a = string_of("   ◄ ");
                a.append(lod_mm(e.lod));
                a.append(" ►");
                v.push((a, RowTone::Adjust));
            }
            assert(v@.map_values(|p: (String, RowTone)| (p.0@, p.1)) =~= seq![
                (pad18(sensor_label_spec(row)), RowTone::Label),
            ] + row_body_spec(*e, row, selected));
        },
        SensorRow::ScrollDir => {
            v.push(
                (
                    string_of(
                        if e.scroll_dir == 1 {
                            "inverted"
                        } else {
                            "normal"
                        },
                    ),
                    RowTone::Value,
                ),
            );
            v.push((string_of("  [ normal | inverted ]"), RowTone::Hint));
            assert(v@.map_values(|p: (String, RowTone)| (p.0@, p.1)) =~= seq![
                (pad18(sensor_label_spec(row)), RowTone::Label),
            ] + row_body_spec(*e, row, selected));
        },
        SensorRow::Motion => {
            v.push(switch_text(e.motion == 1));
            assert(v@.map_values(|p: (String, RowTone)| (p.0@, p.1)) =~= seq![
                (pad18(sensor_label_spec(row)), RowTone::Label),
            ] + row_body_spec(*e, row, selected));
        },
        SensorRow::Angle => {
            v.push(switch_text(e.angle_on));
            v.push((number_text("   ", e.angle_deg, "°"), RowTone::Hint));
            assert(v@.map_values(|p: (String, RowTone)| (p.0@, p.1)) =~= seq![
                (pad18(sensor_label_spec(row)), RowTone::Label),
            ] + row_body_spec(*e, row, selected));
        },
        SensorRow::Ripple => {
            v.push(switch_text(e.wave == 1));
            assert(v@.map_values(|p: (String, RowTone)| (p.0@, p.1)) =~= seq![
                (pad18(sensor_label_spec(row)), RowTone::Label),
            ] + row_body_spec(*e, row, selected));
        },
        SensorRow::Sampling => {
            v.push(
                (
                    string_of(
                        if e.fps20k == 1 {
                            "Competitive"
                        } else {
                            "Standard"
                        },
                    ),
                    RowTone::Value,
                ),
            );
            v.push((string_of("  [ Std | Competitive ]"), RowTone::Hint));
            assert(v@.map_values(|p: (String, RowTone)| (p.0@, p.1)) =~= seq![
                (pad18(sensor_label_spec(row)), RowTone::Label),
            ] + row_body_spec(*e, row, selected));
        },
        SensorRow::Debounce => {
            proof {
                reveal_strlit("");
            }
            v.push((number_text("", e.debounce, " ms"), RowTone::Value));
            if selected {
                v.push((number_text("   ◄ ", e.debounce, " ►"), RowTone::Adjust));
            }
            assert(v@.map_values(|p: (String, RowTone)| (p.0@, p.1)) =~= seq![
                (pad18(sensor_label_spec(row)), RowTone::Label),
            ] + row_body_spec(*e, row, selected));
        },
        SensorRow::Sleep => {
            proof {
                reveal_strlit("");
                reveal_strlit(" min");
                reveal_strlit(" ►");
                reveal_strlit(" min ►");
                assert("   ◄ "@ + dec(e.sleep as nat) + " min ►"@ =~= "   ◄ "@ + (dec(e.sleep as nat)
                    + " min"@) + " ►"@);
            }
            v.push((number_text("", e.sleep, " min"), RowTone::Value));
            if selected {
                v.push((number_text("   ◄ ", e.sleep, " min ►"), RowTone::Adjust));
            }
            assert(v@.map_values(|p: (String, RowTone)| (p.0@, p.1)) =~= seq![
                (pad18(sensor_label_spec(row)), RowTone::Label),
            ] + row_body_spec(*e, row, selected));
        },
    }
    assert(v@.map_values(|p: (String, RowTone)| (p.0@, p.1)) =~= seq![
        (pad18(sensor_label_spec(row)), RowTone::Label),
    ] + row_body_spec(*e, row, selected));
    if changed {
        v.push((string_of("  ✎ unsaved"), RowTone::Unsaved));
    }
    assert(v@.map_values(|p: (String, RowTone)| (p.0@, p.1)) =~= sensor_row_spec(
        *e,
        row,
        selected,
        changed,
    ));
    v
}

/// "on" for 1, "off" otherwise.
pub open spec fn on_off_spec(v: u8) -> Seq<char> {
    if v == 1 {
        "on"@
    } else {
        "off"@
    }
}

pub fn on_off(v: u8) -> (s: String)
    ensures
        s@ == on_off_spec(v),
{
    if v == 1 {
        string_of("on")
    } else {
        string_of("off")
    }
}

/// Angle-snapping summary: "on {deg}°" or "off".
pub open spec fn angle_str_spec(on: bool, deg: u8) -> Seq<char> {
    if on {
        "on "@ + dec(deg as nat) + "°"@
    } else {
        "off"@
    }
}

pub fn angle_str(on: bool, deg: u8) -> (s: String)
    ensures
        s@ == angle_str_spec(on, deg),
{
    if on {
        let mut s = string_of("on ");
        append_radix(&mut s, deg as u64, 10);
        s.append("°");
        s
    } else {
        string_of("off")
    }
}

/// Device angle as the editor shows it: |angle| capped at 90.
pub open spec fn angle_deg_of(angle: i16) -> u8 {
    let a = if angle < 0 {
        -(angle as int)
    } else {
        angle as int
    };
    (if a > 90 {
        90
    } else {
        a
    }) as u8
}

pub fn angle_deg(angle: i16) -> (d: u8)
    ensures
        d == angle_deg_of(angle),
{
    let a: i32 = if angle < 0 {
        -(angle as i32)
    } else {
        angle as i32
    };
    if a > 90 {
        90
    } else {
        a as u8
    }
}

/// The Sensor editor seeded from a device snapshot.
pub open spec fn seed_spec(s: Settings) -> SensorEdit {
    SensorEdit {
        lod: s.sensor.lod,
        scroll_dir: s.sensor.scroll_dir,
        motion: s.sensor.motion_sync,
        wave: s.sensor.wave,
        fps20k: s.sensor.fps20k,
        angle_on: s.sensor.angle != 0,
        angle_deg: angle_deg_of(s.sensor.angle),
        debounce: s.debounce.value,
        sleep: s.sleep_min,
    }
}

/// Seed the Sensor editor from a device snapshot.
pub fn seed_sensor(s: &Settings) -> (e: SensorEdit)
    ensures
        e == seed_spec(*s),
{
    SensorEdit {
        lod: s.sensor.lod,
        scroll_dir: s.sensor.scroll_dir,
        motion: s.sensor.motion_sync,
        wave: s.sensor.wave,
        fps20k: s.sensor.fps20k,
        angle_on: s.sensor.angle != 0,
        angle_deg: angle_deg(s.sensor.angle),
        debounce: s.debounce.value,
        sleep: s.sleep_min,
    }
}

/// Whether `c` is a control character (general category Cc).
pub open spec fn is_control_spec(c: char) -> bool {
    c <= '\u{1f}' || ('\u{7f}' <= c && c <= '\u{9f}')
}

/// `char::is_control`.
pub fn is_control(c: char) -> (r: bool)
    ensures
        r == is_control_spec(c),
{
    c <= '\u{1f}' || ('\u{7f}' <= c && c <= '\u{9f}')
}

/// Every character is an ASCII digit.
pub open spec fn all_digits(s: Seq<char>) -> bool {
    forall|i: int| 0 <= i < s.len() ==> '0' <= #[trigger] s[i] <= '9'
}

/// Value of a run of decimal digits.
pub open spec fn digits_value(s: Seq<char>) -> nat
    decreases s.len(),
{
    if s.len() == 0 {
        0
    } else {
        digits_value(s.drop_last()) * 10 + (s.last() as nat - '0' as nat) as nat
    }
}

/// What `str::parse::<u16>` accepts: an optional `+`, then one or more ASCII
/// digits whose value fits in 16 bits.
pub open spec fn parse_u16_spec(s: Seq<char>) -> Option<u16> {
    let body = if s.len() > 0 && s[0] == '+' {
        s.drop_first()
    } else {
        s
    };
    if body.len() > 0 && all_digits(body) && digits_value(body) <= 65535 {
        Some(digits_value(body) as u16)
    } else {
        None
    }
}

/// Parses a decimal `u16` as `str::parse::<u16>` does.
pub fn parse_u16(text: &str) -> (r: Option<u16>)
    ensures
        r == parse_u16_spec(text@),
{
    let s = chars_of(text);
    let n = s.len();
    let start: usize = if n > 0 && s[0] == '+' {
        1
    } else {
        0
    };
    let ghost body = if text@.len() > 0 && text@[0] == '+' {
        text@.drop_first()
    } else {
        text@
    };
    assert(body =~= text@.subrange(start as int, n as int));
    if start == n {
        return None;
    }
    let mut acc: u32 = 0;
    let mut over = false;
    let mut i = start;
    while i < n
        invariant
            s@ == text@,
            n == s@.len(),
            start <= i <= n,
            body == s@.subrange(start as int, n as int),
            body == (if text@.len() > 0 && text@[0] == '+' {
                text@.drop_first()
            } else {
                text@
            }),
            all_digits(s@.subrange(start as int, i as int)),
            !over ==> acc == digits_value(s@.subrange(start as int, i as int)) && acc <= 65535,
            over ==> digits_value(s@.subrange(start as int, i as int)) > 65535,
        decreases n - i,
    {
        let c = s[i];
        if !('0' <= c && c <= '9') {
            assert(body[i - start] == c);
            assert(!all_digits(body));
            return None;
        }
        let ghost pre = s@.subrange(start as int, i as int);
        let ghost post = s@.subrange(start as int, i + 1);
        assert(post.drop_last() =~= pre);
        assert(post.last() == c);
        let d: u32 = (c as u32) - ('0' as u32);
        if !over {
            let next = acc * 10 + d;
            if next > 65535 {
                over = true;
            } else {
                acc = next;
            }
        } else {
            assert(digits_value(post) >= digits_value(pre)) by (nonlinear_arith)
                requires
                    digits_value(post) == digits_value(pre) * 10 + (c as nat - '0' as nat) as nat,
            ;
        }
        i = i + 1;
    }
    assert(s@.subrange(start as int, n as int) == body);
    if over {
        None
    } else {
        Some(acc as u16)
    }
}

/// The first line of `e` as `str::lines` yields it, or "error" when there
/// is none.
pub open spec fn first_line_or_error(e: Seq<char>) -> Seq<char> {
    if e.len() == 0 {
        "error"@
    } else {
        line_at(e, 0)
    }
}

/// First line of an error text for the status bar ("error" if empty).
pub fn first_line(e: &str) -> (r: String)
    ensures
        r@ == first_line_or_error(e@),
{
    let s = chars_of(e);
    let n = s.len();
    if n == 0 {
        return string_of("error");
    }
    let mut end: usize = 0;
    while end < n && s[end] != '\n'
        invariant
            s@ == e@,
            n == s@.len(),
            end <= n,
            crate::hid::enumerate::line_end(s@, 0) == crate::hid::enumerate::line_end(
                s@,
                end as int,
            ),
        decreases n - end,
    {
        end = end + 1;
    }
    let stop = if end < n && end > 0 && s[end - 1] == '\r' {
        end - 1
    } else {
        end
    };
    let mut out = String::new();
    let mut k: usize = 0;
    while k < stop
        invariant
            s@ == e@,
            stop <= n == s@.len(),
            k <= stop,
            out@ == s@.subrange(0, k as int),
        decreases stop - k,
    {
        push_char(&mut out, s[k]);
        assert(s@.subrange(0, k + 1) =~= s@.subrange(0, k as int).push(s@[k as int]));
        k = k + 1;
    }
    out
}

/// Name of the click-palette entry with event code `code`; "?" if none.
pub open spec fn palette_name_spec(code: u8) -> Seq<char> {
    if code == 1 {
        "left"@
    } else if code == 2 {
        "right"@
    } else if code == 3 {
        "middle"@
    } else if code == 4 {
        "backward"@
    } else if code == 5 {
        "forward"@
    } else {
        "?"@
    }
}

/// Palette name of a click code in a macro sequence.
pub fn palette_name(code: u8) -> (s: &'static str)
    ensures
        s@ == palette_name_spec(code),
{
    match code {
        1 => "left",
        2 => "right",
        3 => "middle",
        4 => "backward",
        5 => "forward",
        _ => "?",
    }
}

/// Index of the last space before `end`, or -1.
pub open spec fn last_space(s: Seq<char>, end: int) -> int
    decreases end,
{
    if end <= 0 {
        -1
    } else if s[end - 1] == ' ' {
        end - 1
    } else {
        last_space(s, end - 1)
    }
}

/// The last two space-separated words of a product name (the whole name
/// when it has fewer than three words).
pub open spec fn short_name_spec(s: Seq<char>) -> Seq<char> {
    let j = last_space(s, s.len() as int);
    if j < 0 {
        s
    } else {
        let k = last_space(s, j);
        if k < 0 {
            s
        } else {
            s.skip(k + 1)
        }
    }
}

fn find_last_space(s: &Vec<char>, end: usize) -> (r: Option<usize>)
    requires
        end <= s@.len(),
    ensures
        r matches Some(i) ==> last_space(s@, end as int) == i as int,
        r is None ==> last_space(s@, end as int) == -1,
{
    let mut e = end;
    while e > 0
        invariant
            e <= end <= s@.len(),
            last_space(s@, end as int) == last_space(s@, e as int),
        decreases e,
    {
        if s[e - 1] == ' ' {
            return Some(e - 1);
        }
        e = e - 1;
    }
    None
}

/// Trim a long product string to fit the narrow sidebar.
pub fn short_name(name: &str) -> (r: String)
    ensures
        r@ == short_name_spec(name@),
{
    let s = chars_of(name);
    let n = s.len();
    proof {
        lemma_last_space_range(s@, n as int);
    }
    let start: usize = match find_last_space(&s, n) {
        None => 0,
        Some(j) => {
            proof {
                lemma_last_space_range(s@, j as int);
            }
            match find_last_space(&s, j) {
                None => 0,
                Some(k) => k + 1,
            }
        },
    };
    let mut out = String::new();
    let mut i = start;
    while i < n
        invariant
            s@ == name@,
            n == s@.len(),
            start <= i <= n,
            out@ == s@.subrange(start as int, i as int),
        decreases n - i,
    {
        push_char(&mut out, s[i]);
        assert(s@.subrange(start as int, i + 1) =~= s@.subrange(start as int, i as int).push(
            s@[i as int],
        ));
        i = i + 1;
    }
    assert(out@ =~= s@.skip(start as int));
    assert(start == 0 ==> s@.skip(0) =~= s@);
    out
}

proof fn lemma_last_space_range(s: Seq<char>, end: int)
    requires
        0 <= end <= s.len(),
    ensures
        -1 <= last_space(s, end) < end,
    decreases end,
{
    if end > 0 && s[end - 1] != ' ' {
        lemma_last_space_range(s, end - 1);
    }
}

/// The Sensor row the reducer works on at cursor position `i` is the row
/// the screen draws at position `i`.
pub proof fn sensor_rows_match_the_screen(i: int)
    requires
        0 <= i < 8,
    ensures
        sensor_row_at(i) == SensorRow::ALL@[i],
{
    assert(SensorRow::ALL@ == seq![
        SensorRow::Lod,
        SensorRow::ScrollDir,
        SensorRow::Motion,
        SensorRow::Angle,
        SensorRow::Ripple,
        SensorRow::Sampling,
        SensorRow::Debounce,
        SensorRow::Sleep,
    ]);
}

} // verus!
