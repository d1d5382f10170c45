//! What the desktop front end is told: each worker `Update` as a named event
//! with a flat payload of plain values, ready for the shell to serialise and
//! emit, and the static option lists of the button picker.

use vstd::prelude::*;

use crate::proto::block::Settings;
use crate::proto::buttons::{
    action_type_name, action_type_name_spec, friendly_name, friendly_name_spec, is_present,
    ButtonInfo, EMPTY_DEFAULT_DATA, MEDIA_ACTIONS, MOUSE_ACTIONS, TYPE_DEFAULT,
};
use crate::proto::polling::{hz_from_code, rates_hz, RATES_HZ};
use crate::worker::Update;

verus! {

/// A settings snapshot as the front end shows it.
pub struct SettingsView {
    pub profile_current: u8,
    pub profile_count: u8,
    pub dpi_presets: [u16; 5],
    /// Active DPI stage of the current profile.
    pub dpi_active: u8,
    pub dpi_count: u8,
    pub dpi_max: u16,
    /// Polling rate in Hz; 0 for a code past the rate table.
    pub polling_hz: u32,
    pub lod: u8,
    pub scroll_inverted: bool,
    pub motion: bool,
    pub fps20k: bool,
    pub angle: i16,
    pub debounce: u8,
    pub sleep_min: u8,
    /// Battery level, capped at 100.
    pub battery_percent: u8,
    pub battery_charging: bool,
}

/// One button-table row as the front end shows it.
pub struct ButtonView {
    pub id: u8,
    /// Physical name, or "" where the slot is not mapped.
    pub friendly: &'static str,
    pub type_id: u8,
    pub action_type: &'static str,
    pub label: String,
    pub present: bool,
}

/// A worker update as a front-end event.
pub enum Event {
    Connected { name: String, firmware: String, transport: &'static str },
    Settings(SettingsView),
    Buttons(Vec<ButtonView>),
    Written { ok: bool, msg: String },
    Firmware { latest: Option<String> },
    Error { message: String },
}

/// Hz for a rate code, 0 past the table.
pub open spec fn hz_or_zero(code: u8) -> u32 {
    if (code as int) < 6 {
        rates_hz()[code as int]
    } else {
        0
    }
}

/// `view` shows snapshot `s`.
pub open spec fn shows_settings(view: SettingsView, s: Settings) -> bool {
    &&& view.profile_current == s.profile.current
    &&& view.profile_count == s.profile.count
    &&& view.dpi_presets@ == s.dpi.presets@
    &&& view.dpi_active == s.dpi.active_levels[0]
    &&& view.dpi_count == s.dpi.count
    &&& view.dpi_max == s.dpi.max
    &&& view.polling_hz == hz_or_zero(s.polling.levels[0])
    &&& view.lod == s.sensor.lod
    &&& view.scroll_inverted == (s.sensor.scroll_dir == 1)
    &&& view.motion == (s.sensor.motion_sync == 1)
    &&& view.fps20k == (s.sensor.fps20k == 1)
    &&& view.angle == s.sensor.angle
    &&& view.debounce == s.debounce.value
    &&& view.sleep_min == s.sleep_min
    &&& view.battery_percent == (if s.battery.percent > 100 {
        100
    } else {
        s.battery.percent
    })
    &&& view.battery_charging == s.battery.charging
}

/// `view` shows button `b`.
pub open spec fn shows_button(view: ButtonView, b: ButtonInfo) -> bool {
    &&& view.id == b.id
    &&& view.friendly@ == (match friendly_name_spec(b.id) {
        Some(n) => n,
        None => ""@,
    })
    &&& view.type_id == b.type_id
    &&& view.action_type@ == action_type_name_spec(b.type_id)
    &&& view.label@ == b.label@
    &&& view.present == !(b.type_id == TYPE_DEFAULT && b.data == EMPTY_DEFAULT_DATA)
}

/// The front-end view of a settings snapshot.
pub fn settings_view(s: &Settings) -> (v: SettingsView)
    ensures
        shows_settings(v, *s),
{
    let polling_hz = match hz_from_code(s.polling.levels[0]) {
        Some(hz) => hz,
        None => 0,
    };
    SettingsView {
        profile_current: s.profile.current,
        profile_count: s.profile.count,
        dpi_presets: s.dpi.presets,
        dpi_active: s.dpi.active_levels[0],
        dpi_count: s.dpi.count,
        dpi_max: s.dpi.max,
        polling_hz,
        lod: s.sensor.lod,
        scroll_inverted: s.sensor.scroll_dir == 1,
        motion: s.sensor.motion_sync == 1,
        fps20k: s.sensor.fps20k == 1,
        angle: s.sensor.angle,
        debounce: s.debounce.value,
        sleep_min: s.sleep_min,
        battery_percent: if s.battery.percent > 100 {
            100
        } else {
            s.battery.percent
        },
        battery_charging: s.battery.charging,
    }
}

/// The front-end view of one button.
pub fn button_view(b: &ButtonInfo) -> (v: ButtonView)
    ensures
        shows_button(v, *b),
{
    let friendly = match friendly_name(b.id) {
        Some(n) => n,
        None => "",
    };
    ButtonView {
        id: b.id,
        friendly,
        type_id: b.type_id,
        action_type: action_type_name(b.type_id),
        label: b.label.clone(),
        present: is_present(b),
    }
}

/// `e` is the event for update `u`.
pub open spec fn event_for(e: Event, u: Update) -> bool {
    match u {
        Update::Connected { name, firmware, transport, .. } => e == Event::Connected {
            name,
            firmware,
            transport,
        },
        Update::Settings(s) => e matches Event::Settings(v) && shows_settings(v, *s),
        Update::Buttons(list) => e matches Event::Buttons(w) && w@.len() == list@.len() && forall|
            i: int,
        |
            0 <= i < w@.len() ==> shows_button(#[trigger] w@[i], list@[i]),
        Update::Written { ok, msg } => e == Event::Written { ok, msg },
        Update::Firmware { latest } => e == Event::Firmware { latest },
        Update::Error(m) => e == Event::Error { message: m },
    }
}

/// The event for a worker update.
pub fn event_of(u: Update) -> (e: Event)
    ensures
        event_for(e, u),
{
    match u {
        Update::Connected { name, firmware, transport, .. } => Event::Connected {
            name,
            firmware,
            transport,
        },
        Update::Settings(s) => Event::Settings(settings_view(&s)),
        Update::Buttons(list) => {
            let mut w: Vec<ButtonView> = Vec::new();
            let mut i: usize = 0;
            while i < list.len()
                invariant
                    i <= list@.len(),
                    w@.len() == i,
                    forall|k: int| 0 <= k < i ==> shows_button(#[trigger] w@[k], list@[k]),
                decreases list@.len() - i,
            {
                w.push(button_view(&list[i]));
                i = i + 1;
            }
            Event::Buttons(w)
        },
        Update::Written { ok, msg } => Event::Written { ok, msg },
        Update::Firmware { latest } => Event::Firmware { latest },
        Update::Error(m) => Event::Error { message: m },
    }
}

impl Event {
    /// The event's name on the front-end channel.
    pub fn name(&self) -> (n: &'static str)
        ensures
            self is Connected ==> n@ == "connected"@,
            self is Settings ==> n@ == "settings"@,
            self is Buttons ==> n@ == "buttons"@,
            self is Written ==> n@ == "written"@,
            self is Firmware ==> n@ == "firmware"@,
            self is Error ==> n@ == "error"@,
    {
        match self {
            Event::Connected { .. } => "connected",
            Event::Settings(_) => "settings",
            Event::Buttons(_) => "buttons",
            Event::Written { .. } => "written",
            Event::Firmware { .. } => "firmware",
            Event::Error { .. } => "error",
        }
    }
}

/// Option lists of the button picker: mouse action names, media action
/// names, selectable polling rates.
pub struct Palettes {
    pub mouse: Vec<&'static str>,
    pub media: Vec<&'static str>,
    pub rates: [u32; 6],
}

/// The picker's option lists, in table order.
pub fn palettes() -> (p: Palettes)
    ensures
        p.mouse@.len() == 10,
        forall|i: int| 0 <= i < 10 ==> #[trigger] p.mouse@[i]@ == MOUSE_ACTIONS@[i].0@,
        p.media@.len() == 7,
        forall|i: int| 0 <= i < 7 ==> #[trigger] p.media@[i]@ == MEDIA_ACTIONS@[i].0@,
        p.rates@ == rates_hz(),
{
    let mut mouse: Vec<&'static str> = Vec::new();
    let mut i: usize = 0;
    while i < 10
        invariant
            i <= 10,
            mouse@.len() == i,
            forall|k: int| 0 <= k < i ==> #[trigger] mouse@[k]@ == MOUSE_ACTIONS@[k].0@,
        decreases 10 - i,
    {
        mouse.push(MOUSE_ACTIONS[i].0);
        i = i + 1;
    }
    let mut media: Vec<&'static str> = Vec::new();
    let mut j: usize = 0;
    while j < 7
        invariant
            j <= 7,
            media@.len() == j,
            forall|k: int| 0 <= k < j ==> #[trigger] media@[k]@ == MEDIA_ACTIONS@[k].0@,
        decreases 7 - j,
    {
        media.push(MEDIA_ACTIONS[j].0);
        j = j + 1;
    }
    let rates = RATES_HZ;
    assert(rates@ == rates_hz());
    Palettes { mouse, media, rates }
}

} // verus!
