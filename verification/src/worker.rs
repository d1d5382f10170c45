//! The device-I/O worker's command set and its dispatch. The UI sends `Cmd`,
//! receives `Update`; [`handle`] executes one command against a connected
//! device and returns the updates to emit, in order. The thread, channels and
//! reconnect loop that drive it belong to the application.

use vstd::prelude::*;

use crate::hid::enumerate::{chars_of, is_space, DeviceInfo};
use crate::hid::{added, extends, lemma_log_same, lemma_log_split, ExchangeLog, Hid, HidError};
use crate::proto::block::{self, block_read, Settings};
use crate::proto::buttons::{self, label_spec, slots_read, ButtonInfo, TYPE_MEDIA, TYPE_MOUSE};
use crate::proto::macros::frame_fits;
use crate::proto::sensor::SensorFields;
use crate::proto::{dpi, macros, polling, profile, sensor, system, Variant};
use crate::text::{
    append_hex_pad, append_radix, append_signed, dec, hex_pad, push_char, signed_dec, string_of,
};

verus! {

/// Commands from the UI to the worker.
#[derive(Debug)]
pub enum Cmd {
    ReadAll,
    ReadButtons,
    SetDpi { index: usize, value: u16 },
    SetActiveDpi(usize),
    SetRate { hz: u32 },
    SetSensor(SensorFields),
    SetAngle { degrees: u8, enable: bool },
    SetDebounce(u8),
    SetSleep(u8),
    SetButtonMouse { id: u8, action: String },
    SetButtonMedia { id: u8, action: String },
    SetButtonDisable(u8),
    SetButtonDefault(u8),
    SetMacro { id: u8, events: Vec<u8> },
    SetProfile(u8),
    FactoryReset,
    CheckUpdate,
    Shutdown,
}

/// Results from the worker to the UI.
pub enum Update {
    Connected { name: String, variant: Variant, firmware: String, transport: &'static str },
    Settings(Box<Settings>),
    Buttons(Vec<ButtonInfo>),
    /// Result of a write, after read-back. Drives the ✓/✗ status line.
    Written { ok: bool, msg: String },
    /// Opt-in firmware check result; None = lookup failed/offline.
    Firmware { latest: Option<String> },
    Error(String),
}

/// A command the worker can run without overflowing a macro frame.
pub open spec fn admissible(cmd: Cmd) -> bool {
    match cmd {
        Cmd::SetMacro { events, .. } => frame_fits(events@.len()) && events@.len() + 130
            <= usize::MAX,
        _ => true,
    }
}

/// Whether the worker can run `cmd`: a macro must fit one frame's length
/// byte.
pub fn is_admissible(cmd: &Cmd) -> (r: bool)
    ensures
        r == admissible(*cmd),
{
    match cmd {
        Cmd::SetMacro { events, .. } => ((events.len() / 4) as u8) <= 62 && events.len()
            <= usize::MAX - 130,
        _ => true,
    }
}

/// `m` reports a failed block read.
pub open spec fn read_failed(m: Seq<char>) -> bool {
    exists|e: HidError| m == "read failed: "@ + #[trigger] e.message_spec()
}

/// `m` reports a failed button-table read.
pub open spec fn button_read_failed(m: Seq<char>) -> bool {
    exists|e: HidError| m == "button read failed: "@ + #[trigger] e.message_spec()
}

/// `u` is a fresh settings snapshot, or the error of reading one.
pub open spec fn settings_refresh(u: Update) -> bool {
    ||| u matches Update::Settings(s) && block_read(*s)
    ||| u matches Update::Error(m) && read_failed(m@)
}

/// `u` is a fresh button table (all slots), or the error of reading it.
pub open spec fn buttons_refresh(u: Update) -> bool {
    ||| u matches Update::Buttons(v) && v@.len() == buttons::COUNT && slots_read(v@)
    ||| u matches Update::Error(m) && button_read_failed(m@)
}

/// The update for a settings read that gave `rr`.
pub open spec fn settings_update(u: Update, rr: Result<Settings, HidError>) -> bool {
    match rr {
        Ok(s) => u matches Update::Settings(b) && *b == s,
        Err(e) => u matches Update::Error(m) && m@ == "read failed: "@ + e.message_spec(),
    }
}

/// `u` is the update of the settings read whose exchanges are `d`.
pub open spec fn settings_from(d: ExchangeLog, u: Update) -> bool {
    exists|rr: Result<Settings, HidError>|
        #[trigger] block::read_all_outcome(d, rr) && settings_update(u, rr)
}

/// The update for a button-table read that gave `rr`.
pub open spec fn buttons_update(u: Update, rr: Result<Vec<ButtonInfo>, HidError>) -> bool {
    match rr {
        Ok(v) => u matches Update::Buttons(w) && w@ == v@,
        Err(e) => u matches Update::Error(m) && m@ == "button read failed: "@ + e.message_spec(),
    }
}

/// `u` is the update of the button-table read whose exchanges are `d`.
pub open spec fn buttons_from(d: ExchangeLog, u: Update) -> bool {
    exists|rr: Result<Vec<ButtonInfo>, HidError>|
        #[trigger] buttons::get_all_outcome(d, (buttons::COUNT as u8) as nat, rr) && buttons_update(
            u,
            rr,
        )
}

/// The updates after a write that gave `res`, with `rest` the exchanges
/// after it: a failed write yields only its failure line and nothing more
/// is exchanged; a confirmed one yields a success line, then the refresh
/// read from `rest` (an `Error` update when that read fails).
pub open spec fn wrote_tail<T>(
    rest: ExchangeLog,
    r: Seq<Update>,
    res: Result<T, HidError>,
    refresh_buttons: bool,
) -> bool {
    match res {
        Err(e) => rest.len() == 0 && r.len() == 1 && (r[0] matches Update::Written {
            ok: false,
            msg,
        } && msg@ == e.message_spec()),
        Ok(_) => r.len() == 2 && (r[0] matches Update::Written { ok: true, .. }) && if refresh_buttons {
            buttons_from(rest, r[1])
        } else {
            settings_from(rest, r[1])
        },
    }
}

/// The exchanges [`handle`] makes for `cmd`, and how the updates `r`
/// follow from them: a read command is one refresh read; a write command
/// is its protocol operation on the device (the exchanges up to `k`), with
/// the operation's own arguments, then what [`wrote_tail`] says; an angle
/// write and a restore report the angle and the label they read back.
pub open spec fn handle_exchanges(cmd: Cmd, d: ExchangeLog, r: Seq<Update>) -> bool {
    match cmd {
        Cmd::ReadAll => r.len() == 1 && settings_from(d, r[0]),
        Cmd::ReadButtons => r.len() == 1 && buttons_from(d, r[0]),
        Cmd::SetDpi { index, value } => exists|k: int, res: Result<[u16; 5], HidError>|
            0 <= k <= d.len() && #[trigger] dpi::set_dpi_outcome(d.take(k), value, index, res)
                && wrote_tail(d.skip(k), r, res, false),
        Cmd::SetActiveDpi(index) => exists|k: int, res: Result<u8, HidError>|
            0 <= k <= d.len() && #[trigger] dpi::set_active_outcome(d.take(k), index, res)
                && wrote_tail(d.skip(k), r, res, false),
        Cmd::SetRate { hz } => exists|k: int, res: Result<u32, HidError>|
            0 <= k <= d.len() && #[trigger] polling::set_rate_outcome(d.take(k), hz, res)
                && wrote_tail(d.skip(k), r, res, false),
        Cmd::SetSensor(f) => exists|k: int, res: Result<(), HidError>|
            0 <= k <= d.len() && #[trigger] sensor::set_sensor_exchanges(d.take(k), f, res)
                && wrote_tail(d.skip(k), r, res, false),
        Cmd::SetAngle { degrees, enable } => exists|k: int, res: Result<i16, HidError>|
            0 <= k <= d.len() && #[trigger] sensor::set_angle_outcome(
                d.take(k),
                degrees,
                enable,
                res,
            ) && wrote_tail(d.skip(k), r, res, false) && (enable ==> (res matches Ok(a) ==> ok_line(
                r,
                "angle snap → "@ + signed_dec(a as int) + "° ✓ verified"@,
            ))),
        Cmd::SetDebounce(ms) => exists|k: int, res: Result<u8, HidError>|
            0 <= k <= d.len() && #[trigger] system::set_debounce_outcome(d.take(k), ms, res)
                && wrote_tail(d.skip(k), r, res, false),
        Cmd::SetSleep(minutes) => exists|k: int, res: Result<u8, HidError>|
            0 <= k <= d.len() && #[trigger] system::set_sleep_outcome(d.take(k), minutes, res)
                && wrote_tail(d.skip(k), r, res, false),
        Cmd::FactoryReset => exists|k: int, res: Result<(), HidError>|
            0 <= k <= d.len() && #[trigger] system::factory_reset_outcome(d.take(k), res)
                && wrote_tail(d.skip(k), r, res, false),
        Cmd::SetProfile(index) => exists|k: int, res: Result<u8, HidError>|
            0 <= k <= d.len() && #[trigger] profile::set_profile_exchanges(d.take(k), index, res)
                && wrote_tail(d.skip(k), r, res, false),
        Cmd::SetButtonMouse { id, action } => exists|k: int, res: Result<ButtonInfo, HidError>|
            0 <= k <= d.len() && #[trigger] buttons::set_mouse_outcome(d.take(k), id, action@, res)
                && wrote_tail(d.skip(k), r, res, true),
        Cmd::SetButtonMedia { id, action } => exists|k: int, res: Result<ButtonInfo, HidError>|
            0 <= k <= d.len() && #[trigger] buttons::set_media_outcome(d.take(k), id, action@, res)
                && wrote_tail(d.skip(k), r, res, true),
        Cmd::SetButtonDisable(id) => exists|k: int, res: Result<ButtonInfo, HidError>|
            0 <= k <= d.len() && #[trigger] buttons::set_button_outcome(
                d.take(k),
                id,
                buttons::TYPE_DISABLE,
                0,
                res,
            ) && wrote_tail(d.skip(k), r, res, true),
        Cmd::SetButtonDefault(id) => exists|k: int, res: Result<ButtonInfo, HidError>|
            0 <= k <= d.len() && #[trigger] buttons::restore_outcome(d.take(k), id, res)
                && wrote_tail(d.skip(k), r, res, true) && (res matches Ok(b) ==> ok_line(
                r,
                "button "@ + dec(id as nat) + " → "@ + b.label@ + " ✓ verified"@,
            )),
        Cmd::SetMacro { id, events } => exists|k: int, res: Result<ButtonInfo, HidError>|
            0 <= k <= d.len() && #[trigger] macros::set_macro_exchanges(
                d.take(k),
                macros::frame_spec(id, events@, 1, macros::LOOP_STOP_ON_RELEASE),
                id,
                res,
            ) && wrote_tail(d.skip(k), r, res, true),
        Cmd::CheckUpdate | Cmd::Shutdown => d.len() == 0,
    }
}

/// A write the device confirmed, whose refresh read then failed in
/// transport, is reported as written and then as an `Error` (which makes
/// the caller reconnect).
pub proof fn failed_refresh_after_write_is_an_error<T>(
    rest: ExchangeLog,
    r: Seq<Update>,
    res: Result<T, HidError>,
    refresh_buttons: bool,
)
    requires
        wrote_tail(rest, r, res, refresh_buttons),
        res is Ok,
        rest.len() >= 1,
        rest[0] is Read && rest[0]->Read_reply is Err,
    ensures
        r.len() == 2,
        r[0] matches Update::Written { ok: true, .. },
        r[1] is Error,
{
    if refresh_buttons {
        let rr = choose|rr: Result<Vec<ButtonInfo>, HidError>|
            #[trigger] buttons::get_all_outcome(rest, (buttons::COUNT as u8) as nat, rr)
                && buttons_update(r[1], rr);
        if rr is Ok {
            assert(buttons::slot_read_as(rest[0], 0, rr->Ok_0@[0]));
        }
    }
}

/// The updates after a write: a failed write yields only its failure; a
/// confirmed one yields its success line, then a refresh.
pub open spec fn after_write(r: Seq<Update>, refresh_buttons: bool) -> bool {
    ||| r.len() == 1 && (r[0] matches Update::Written { ok: false, msg } && exists|e: HidError|
        msg@ == #[trigger] e.message_spec())
    ||| r.len() == 2 && (r[0] matches Update::Written { ok: true, .. }) && (if refresh_buttons {
        buttons_refresh(r[1])
    } else {
        settings_refresh(r[1])
    })
}

/// The success line of a confirmed write is `msg`.
pub open spec fn ok_line(r: Seq<Update>, msg: Seq<char>) -> bool {
    r.len() == 2 ==> (r[0] matches Update::Written { ok: true, msg: m } && m@ == msg)
}

/// A write refused before any transfer: exactly its failure line, from `e`.
pub open spec fn refused(r: Seq<Update>, reason: Seq<char>) -> bool {
    r.len() == 1 && (r[0] matches Update::Written { ok: false, msg } && msg@ == "bad reply: "@
        + reason)
}

/// A write the protocol layer refuses before anything is sent: a DPI value
/// out of range or preset index past the table, an unsupported polling rate,
/// an unknown action name, or a button id past the table.
pub open spec fn refused_before_wire(cmd: Cmd) -> bool {
    match cmd {
        Cmd::SetDpi { index, value } => !(dpi::DPI_MIN <= value <= dpi::DPI_MAX) || index
            >= dpi::NUM_PRESETS,
        Cmd::SetActiveDpi(index) => index >= dpi::NUM_PRESETS,
        Cmd::SetRate { hz } => forall|i: int| 0 <= i < 6 ==> polling::rates_hz()[i] != hz,
        Cmd::SetButtonMouse { id, action } => buttons::mouse_value_of(action@) is None || id
            >= buttons::COUNT,
        Cmd::SetButtonMedia { id, action } => buttons::media_code_of(action@) is None || id
            >= buttons::COUNT,
        Cmd::SetButtonDisable(id) => id >= buttons::COUNT,
        Cmd::SetButtonDefault(id) => id >= buttons::COUNT,
        _ => false,
    }
}

/// What [`handle`] returns for `cmd`.
pub open spec fn handled(cmd: Cmd, r: Seq<Update>) -> bool {
    match cmd {
        Cmd::ReadAll => r.len() == 1 && settings_refresh(r[0]) && !(r[0] is Written),
        Cmd::ReadButtons => r.len() == 1 && buttons_refresh(r[0]) && !(r[0] is Written),
        Cmd::SetDpi { index, value } => {
            &&& after_write(r, false)
            &&& !(dpi::DPI_MIN <= value <= dpi::DPI_MAX) ==> refused(
                r,
                dpi::out_of_range_message(value),
            )
            &&& (dpi::DPI_MIN <= value <= dpi::DPI_MAX && index >= dpi::NUM_PRESETS) ==> refused(
                r,
                dpi::bad_index_message(index),
            )
            &&& ok_line(
                r,
                "DPI preset "@ + dec((index + 1) as nat) + " → "@ + dec(value as nat)
                    + " ✓ verified"@,
            )
        },
        Cmd::SetActiveDpi(index) => {
            &&& after_write(r, false)
            &&& index >= dpi::NUM_PRESETS ==> refused(r, dpi::bad_index_message(index))
            &&& ok_line(r, "active DPI → preset "@ + dec((index + 1) as nat) + " ✓ verified"@)
        },
        Cmd::SetRate { hz } => {
            &&& after_write(r, false)
            &&& (forall|i: int| 0 <= i < 6 ==> polling::rates_hz()[i] != hz) ==> refused(
                r,
                polling::unsupported_rate_message(hz),
            )
            &&& ok_line(r, "polling → "@ + dec(hz as nat) + " Hz ✓ verified"@)
        },
        Cmd::SetSensor(_) => after_write(r, false) && ok_line(r, "sensor ✓ verified"@),
        Cmd::SetAngle { enable, .. } => {
            &&& after_write(r, false)
            &&& !enable ==> ok_line(r, "angle snap off ✓ verified"@)
            &&& enable ==> (r.len() == 2 ==> exists|a: int|
                -256 <= a <= 255 && (r[0] matches Update::Written { msg, .. } && msg@
                    == "angle snap → "@ + #[trigger] signed_dec(a) + "° ✓ verified"@))
        },
        Cmd::SetDebounce(ms) => after_write(r, false) && ok_line(
            r,
            "debounce → "@ + dec(ms as nat) + " ms ✓ verified"@,
        ),
        Cmd::SetSleep(minutes) => after_write(r, false) && ok_line(
            r,
            "sleep → "@ + dec(minutes as nat) + " min ✓ verified"@,
        ),
        Cmd::FactoryReset => after_write(r, false) && ok_line(r, "factory reset sent"@),
        Cmd::SetProfile(index) => after_write(r, false) && ok_line(
            r,
            "profile → "@ + dec((index + 1) as nat) + " ✓ verified"@,
        ),
        Cmd::SetButtonMouse { id, action } => {
            &&& after_write(r, true)
            &&& (buttons::mouse_value_of(action@) is None ==> refused(
                r,
                buttons::unknown_action_message("mouse"@, action@),
            ))
            &&& (buttons::mouse_value_of(action@) is Some && id >= buttons::COUNT ==> refused(
                r,
                buttons::bad_id_message(id),
            ))
            &&& (buttons::mouse_value_of(action@) matches Some(v) ==> ok_line(
                r,
                "button "@ + dec(id as nat) + " → "@ + label_spec(TYPE_MOUSE, v) + " ✓ verified"@,
            ))
        },
        Cmd::SetButtonMedia { id, action } => {
            &&& after_write(r, true)
            &&& (buttons::media_code_of(action@) is None ==> refused(
                r,
                buttons::unknown_action_message("media"@, action@),
            ))
            &&& (buttons::media_code_of(action@) is Some && id >= buttons::COUNT ==> refused(
                r,
                buttons::bad_id_message(id),
            ))
            &&& (buttons::media_code_of(action@) matches Some(c) ==> ok_line(
                r,
                "button "@ + dec(id as nat) + " → "@ + label_spec(
                    TYPE_MEDIA,
                    buttons::media_data(c),
                ) + " ✓ verified"@,
            ))
        },
        Cmd::SetButtonDisable(id) => {
            &&& after_write(r, true)
            &&& id >= buttons::COUNT ==> refused(r, buttons::bad_id_message(id))
            &&& ok_line(r, "button "@ + dec(id as nat) + " disabled ✓ verified"@)
        },
        Cmd::SetButtonDefault(id) => {
            &&& after_write(r, true)
            &&& id >= buttons::COUNT ==> refused(r, buttons::bad_id_message(id))
        },
        Cmd::SetMacro { id, events } => {
            &&& after_write(r, true)
            &&& ok_line(
                r,
                "macro → button "@ + dec(id as nat) + " ✓ verified (len "@ + dec(
                    macros::frame_spec(id, events@, 1, macros::LOOP_STOP_ON_RELEASE)[3] as nat,
                ) + ")"@,
            )
        },
        Cmd::CheckUpdate | Cmd::Shutdown => r.len() == 0,
    }
}

/// What the worker loop does next with a received command.
#[derive(Clone, Copy, PartialEq, Eq, Debug, Structural)]
pub enum Step {
    /// Leave the loop.
    Stop,
    /// Connect first, then decide again.
    Connect,
    /// Look up the latest firmware for this device, off the device thread.
    Lookup { vid: u16, pid: u16 },
    /// Nothing to do (an update check before any device was identified).
    Skip,
    /// Run the command against the device with [`handle`].
    Run,
}

/// The worker's decision for `cmd`: shutdown stops; every other command
/// needs a connection first; an update check goes to the network with the
/// connected device's ids; anything else runs on the device.
pub open spec fn next_step_spec(cmd: Cmd, connected: bool, ids: Option<(u16, u16)>) -> Step {
    if cmd is Shutdown {
        Step::Stop
    } else if !connected {
        Step::Connect
    } else if cmd is CheckUpdate {
        match ids {
            Some((vid, pid)) => Step::Lookup { vid, pid },
            None => Step::Skip,
        }
    } else {
        Step::Run
    }
}

/// The worker's decision for `cmd` (see [`next_step_spec`]).
pub fn next_step(cmd: &Cmd, connected: bool, ids: Option<(u16, u16)>) -> (s: Step)
    ensures
        s == next_step_spec(*cmd, connected, ids),
{
    match cmd {
        Cmd::Shutdown => Step::Stop,
        _ => if !connected {
            Step::Connect
        } else {
            match cmd {
                Cmd::CheckUpdate => match ids {
                    Some((vid, pid)) => Step::Lookup { vid, pid },
                    None => Step::Skip,
                },
                _ => Step::Run,
            }
        },
    }
}

/// Whether an update list tells the caller to drop and reconnect the device.
pub fn must_reconnect(updates: &Vec<Update>) -> (r: bool)
    ensures
        r == exists|i: int| 0 <= i < updates@.len() && #[trigger] updates@[i] is Error,
{
    let mut i: usize = 0;
    while i < updates.len()
        invariant
            i <= updates@.len(),
            forall|k: int| 0 <= k < i ==> !(#[trigger] updates@[k] is Error),
        decreases updates@.len() - i,
    {
        if let Update::Error(_) = &updates[i] {
            return true;
        }
        i = i + 1;
    }
    false
}

fn read_settings<H: Hid>(dev: &mut H) -> (u: Update)
    ensures
        extends(old(dev).log(), final(dev).log()),
        settings_from(added(old(dev).log(), final(dev).log()), u),
        settings_refresh(u),
        !(u is Written),
{
    match block::read_all(dev) {
        Ok(s) => Update::Settings(Box::new(s)),
        Err(e) => {
            let mut m = string_of("read failed: ");
            let t = e.message();
            m.append(t.as_str());
            Update::Error(m)
        },
    }
}

fn read_buttons<H: Hid>(dev: &mut H) -> (u: Update)
    ensures
        extends(old(dev).log(), final(dev).log()),
        buttons_from(added(old(dev).log(), final(dev).log()), u),
        buttons_refresh(u),
        !(u is Written),
{
    match buttons::get_all(dev, buttons::COUNT) {
        Ok(v) => Update::Buttons(v),
        Err(e) => {
            let mut m = string_of("button read failed: ");
            let t = e.message();
            m.append(t.as_str());
            Update::Error(m)
        },
    }
}

/// Written status from a write result, then a fresh block snapshot. On a
/// write error: just the failed status.
pub fn write_then_settings<H: Hid>(dev: &mut H, result: Result<String, HidError>) -> (r: Vec<
    Update,
>)
    ensures
        extends(old(dev).log(), final(dev).log()),
        wrote_tail(added(old(dev).log(), final(dev).log()), r@, result, false),
        after_write(r@, false),
        result matches Ok(msg) ==> ok_line(r@, msg@) && r@.len() == 2,
        result matches Err(e) ==> r@.len() == 1 && (r@[0] matches Update::Written { ok: false, msg }
            && msg@ == e.message_spec()),
        result is Err ==> *final(dev) == *old(dev),
{
    proof {
        lemma_log_same(dev.log());
    }
    let msg = match result {
        Ok(msg) => msg,
        Err(e) => {
            let m = e.message();
            return vec![Update::Written { ok: false, msg: m }];
        },
    };
    let mut out: Vec<Update> = Vec::new();
    out.push(Update::Written { ok: true, msg });
    out.push(read_settings(dev));
    out
}

/// Like [`write_then_settings`], but refreshes the button table after the write.
pub fn write_then_buttons<H: Hid>(dev: &mut H, result: Result<String, HidError>) -> (r: Vec<
    Update,
>)
    ensures
        extends(old(dev).log(), final(dev).log()),
        wrote_tail(added(old(dev).log(), final(dev).log()), r@, result, true),
        after_write(r@, true),
        result matches Ok(msg) ==> ok_line(r@, msg@) && r@.len() == 2,
        result matches Err(e) ==> r@.len() == 1 && (r@[0] matches Update::Written { ok: false, msg }
            && msg@ == e.message_spec()),
        result is Err ==> *final(dev) == *old(dev),
{
    proof {
        lemma_log_same(dev.log());
    }
    let msg = match result {
        Ok(msg) => msg,
        Err(e) => {
            let m = e.message();
            return vec![Update::Written { ok: false, msg: m }];
        },
    };
    let mut out: Vec<Update> = Vec::new();
    out.push(Update::Written { ok: true, msg });
    out.push(read_buttons(dev));
    out
}

/// `"button {id} → {label} ✓ verified"`.
fn button_line(id: u8, label: &String) -> (m: String)
    ensures
        m@ == "button "@ + dec(id as nat) + " → "@ + label@ + " ✓ verified"@,
{
    let mut m = string_of("button ");
    append_radix(&mut m, id as u64, 10);
    m.append(" → ");
    m.append(label.as_str());
    m.append(" ✓ verified");
    m
}

/// Execute one connected-device command, returning the updates to emit in
/// order. An `Update::Error` in the result tells the caller to drop and
/// reconnect the device. `CheckUpdate`/`Shutdown` are the caller's own.
pub fn handle<H: Hid>(cmd: Cmd, dev: &mut H) -> (r: Vec<Update>)
    requires
        admissible(cmd),
    ensures
        extends(old(dev).log(), final(dev).log()),
        handle_exchanges(cmd, added(old(dev).log(), final(dev).log()), r@),
        handled(cmd, r@),
        refused_before_wire(cmd) ==> *final(dev) == *old(dev),
{
    let ghost l0 = dev.log();
    proof {
        lemma_log_same(l0);
    }
    match cmd {
        Cmd::ReadAll => vec![read_settings(dev)],
        Cmd::ReadButtons => vec![read_buttons(dev)],
        Cmd::SetDpi { index, value } => {
            let op = dpi::set_dpi(dev, value, index);
            let ghost l1 = dev.log();
            let ghost res = op;
            let r = match op {
                Ok(_) => {
                    let mut m = string_of("DPI preset ");
                    append_radix(&mut m, index as u64 + 1, 10);
                    m.append(" → ");
                    append_radix(&mut m, value as u64, 10);
                    m.append(" ✓ verified");
                    Ok(m)
                },
                Err(e) => Err(e),
            };
            let out = write_then_settings(dev, r);
            proof {
                lemma_log_split(l0, l1, dev.log());
                let k = added(l0, l1).len() as int;
                assert(dpi::set_dpi_outcome(added(l0, dev.log()).take(k), value, index, res));
            }
            out
        },
        Cmd::SetActiveDpi(index) => {
            let op = dpi::set_active(dev, index);
            let ghost l1 = dev.log();
            let ghost res = op;
            let r = match op {
                Ok(i) => {
                    let mut m = string_of("active DPI → preset ");
                    append_radix(&mut m, i as u64 + 1, 10);
                    m.append(" ✓ verified");
                    Ok(m)
                },
                Err(e) => Err(e),
            };
            let out = write_then_settings(dev, r);
            proof {
                lemma_log_split(l0, l1, dev.log());
                let k = added(l0, l1).len() as int;
                assert(dpi::set_active_outcome(added(l0, dev.log()).take(k), index, res));
            }
            out
        },
        Cmd::SetRate { hz } => {
            let op = polling::set_rate(dev, hz);
            let ghost l1 = dev.log();
            let ghost res = op;
            let r = match op {
                Ok(_) => {
                    let mut m = string_of("polling → ");
                    append_radix(&mut m, hz as u64, 10);
                    m.append(" Hz ✓ verified");
                    Ok(m)
                },
                Err(e) => Err(e),
            };
            let out = write_then_settings(dev, r);
            proof {
                lemma_log_split(l0, l1, dev.log());
                let k = added(l0, l1).len() as int;
                assert(polling::set_rate_outcome(added(l0, dev.log()).take(k), hz, res));
            }
            out
        },
        Cmd::SetSensor(fields) => {
            let op = sensor::set_sensor(dev, fields);
            let ghost l1 = dev.log();
            let ghost res = op;
            let r = match op {
                Ok(_) => Ok(string_of("sensor ✓ verified")),
                Err(e) => Err(e),
            };
            let out = write_then_settings(dev, r);
            proof {
                lemma_log_split(l0, l1, dev.log());
                let k = added(l0, l1).len() as int;
                assert(sensor::set_sensor_exchanges(added(l0, dev.log()).take(k), fields, res));
            }
            out
        },
        Cmd::SetAngle { degrees, enable } => {
            let op = sensor::set_angle(dev, degrees, enable);
            let ghost l1 = dev.log();
            let ghost res = op;
            let r = match op {
                Ok(a) => {
                    if enable {
                        let mut m = string_of("angle snap → ");
                        append_signed(&mut m, a as i64);
                        m.append("° ✓ verified");
                        Ok(m)
                    } else {
                        Ok(string_of("angle snap off ✓ verified"))
                    }
                },
                Err(e) => Err(e),
            };
            let out = write_then_settings(dev, r);
            proof {
                lemma_log_split(l0, l1, dev.log());
                let k = added(l0, l1).len() as int;
                assert(sensor::set_angle_outcome(added(l0, dev.log()).take(k), degrees, enable, res));
            }
            out
        },
        Cmd::SetDebounce(ms) => {
            let op = system::set_debounce(dev, ms);
            let ghost l1 = dev.log();
            let ghost res = op;
            let r = match op {
                Ok(v) => {
                    let mut m = string_of("debounce → ");
                    append_radix(&mut m, v as u64, 10);
                    m.append(" ms ✓ verified");
                    Ok(m)
                },
                Err(e) => Err(e),
            };
            let out = write_then_settings(dev, r);
            proof {
                lemma_log_split(l0, l1, dev.log());
                let k = added(l0, l1).len() as int;
                assert(system::set_debounce_outcome(added(l0, dev.log()).take(k), ms, res));
            }
            out
        },
        Cmd::SetSleep(minutes) => {
            let op = system::set_sleep(dev, minutes);
            let ghost l1 = dev.log();
            let ghost res = op;
            let r = match op {
                Ok(v) => {
                    let mut m = string_of("sleep → ");
                    append_radix(&mut m, v as u64, 10);
                    m.append(" min ✓ verified");
                    Ok(m)
                },
                Err(e) => Err(e),
            };
            let out = write_then_settings(dev, r);
            proof {
                lemma_log_split(l0, l1, dev.log());
                let k = added(l0, l1).len() as int;
                assert(system::set_sleep_outcome(added(l0, dev.log()).take(k), minutes, res));
            }
            out
        },
        Cmd::FactoryReset => {
            let op = system::factory_reset(dev);
            let ghost l1 = dev.log();
            let ghost res = op;
            let r = match op {
                Ok(_) => Ok(string_of("factory reset sent")),
                Err(e) => Err(e),
            };
            let out = write_then_settings(dev, r);
            proof {
                lemma_log_split(l0, l1, dev.log());
                let k = added(l0, l1).len() as int;
                assert(system::factory_reset_outcome(added(l0, dev.log()).take(k), res));
            }
            out
        },
        Cmd::SetProfile(index) => {
            let op = profile::set_profile(dev, index);
            let ghost l1 = dev.log();
            let ghost res = op;
            let r = match op {
                Ok(i) => {
                    let mut m = string_of("profile → ");
                    append_radix(&mut m, i as u64 + 1, 10);
                    m.append(" ✓ verified");
                    Ok(m)
                },
                Err(e) => Err(e),
            };
            let out = write_then_settings(dev, r);
            proof {
                lemma_log_split(l0, l1, dev.log());
                let k = added(l0, l1).len() as int;
                assert(profile::set_profile_exchanges(added(l0, dev.log()).take(k), index, res));
            }
            out
        },
        Cmd::SetButtonMouse { id, action } => {
            let op = buttons::set_mouse(dev, id, action.as_str());
            let ghost l1 = dev.log();
            let ghost res = op;
            let r = match op {
                Ok(b) => Ok(button_line(id, &b.label)),
                Err(e) => Err(e),
            };
            let out = write_then_buttons(dev, r);
            proof {
                lemma_log_split(l0, l1, dev.log());
                let k = added(l0, l1).len() as int;
                assert(buttons::set_mouse_outcome(added(l0, dev.log()).take(k), id, action@, res));
            }
            out
        },
        Cmd::SetButtonMedia { id, action } => {
            let op = buttons::set_media(dev, id, action.as_str());
            let ghost l1 = dev.log();
            let ghost res = op;
            let r = match op {
                Ok(b) => Ok(button_line(id, &b.label)),
                Err(e) => Err(e),
            };
            let out = write_then_buttons(dev, r);
            proof {
                lemma_log_split(l0, l1, dev.log());
                let k = added(l0, l1).len() as int;
                assert(buttons::set_media_outcome(added(l0, dev.log()).take(k), id, action@, res));
            }
            out
        },
        Cmd::SetButtonDisable(id) => {
            let op = buttons::disable(dev, id);
            let ghost l1 = dev.log();
            let ghost res = op;
            let r = match op {
                Ok(_) => {
                    let mut m = string_of("button ");
                    append_radix(&mut m, id as u64, 10);
                    m.append(" disabled ✓ verified");
                    Ok(m)
                },
                Err(e) => Err(e),
            };
            let out = write_then_buttons(dev, r);
            proof {
                lemma_log_split(l0, l1, dev.log());
                let k = added(l0, l1).len() as int;
                assert(buttons::set_button_outcome(added(l0, dev.log()).take(k), id, buttons::TYPE_DISABLE, 0, res));
            }
            out
        },
        Cmd::SetButtonDefault(id) => {
            let op = buttons::restore_default(dev, id);
            let ghost l1 = dev.log();
            let ghost res = op;
            let r = match op {
                Ok(b) => Ok(button_line(id, &b.label)),
                Err(e) => Err(e),
            };
            let out = write_then_buttons(dev, r);
            proof {
                lemma_log_split(l0, l1, dev.log());
                let k = added(l0, l1).len() as int;
                assert(buttons::restore_outcome(added(l0, dev.log()).take(k), id, res));
            }
            out
        },
        Cmd::SetMacro { id, events } => {
            let op = macros::set_macro(dev, id, events.as_slice());
            let ghost l1 = dev.log();
            let ghost res = op;
            let r = match op {
                Ok(b) => {
                    let mut m = string_of("macro → button ");
                    append_radix(&mut m, id as u64, 10);
                    m.append(" ✓ verified (len ");
                    append_radix(&mut m, b.data as u64, 10);
                    m.append(")");
                    Ok(m)
                },
                Err(e) => Err(e),
            };
            let out = write_then_buttons(dev, r);
            proof {
                lemma_log_split(l0, l1, dev.log());
                let k = added(l0, l1).len() as int;
                assert(macros::set_macro_exchanges(added(l0, dev.log()).take(k), macros::frame_spec(id, events@, 1, macros::LOOP_STOP_ON_RELEASE), id, res));
            }
            out
        },
        Cmd::CheckUpdate | Cmd::Shutdown => Vec::new(),
    }
}

/// Collapse consecutive duplicate words (device HID_NAME repeats "Keychron").
pub open spec fn dedupe_spec(words: Seq<Seq<char>>) -> Seq<Seq<char>>
    decreases words.len(),
{
    if words.len() == 0 {
        words
    } else {
        let rest = dedupe_spec(words.drop_last());
        if rest.len() > 0 && rest.last() == words.last() {
            rest
        } else {
            rest.push(words.last())
        }
    }
}

/// The whitespace-separated words of `s` (`str::split_whitespace`).
pub open spec fn words(s: Seq<char>) -> Seq<Seq<char>>
    decreases s.len(),
{
    if s.len() == 0 {
        Seq::empty()
    } else if is_space(s.last()) {
        words(s.drop_last())
    } else if s.len() >= 2 && !is_space(s[s.len() - 2]) && words(s.drop_last()).len() > 0 {
        let w = words(s.drop_last());
        w.update(w.len() - 1, w.last().push(s.last()))
    } else {
        words(s.drop_last()).push(seq![s.last()])
    }
}

/// Words joined by single spaces.
pub open spec fn join_words(ws: Seq<Seq<char>>) -> Seq<char>
    decreases ws.len(),
{
    if ws.len() == 0 {
        Seq::empty()
    } else if ws.len() == 1 {
        ws[0]
    } else {
        join_words(ws.drop_last()) + seq![' '] + ws.last()
    }
}

/// `s` with consecutive duplicate words collapsed, words joined by one space.
pub open spec fn dedupe_words_spec(s: Seq<char>) -> Seq<char> {
    join_words(dedupe_spec(words(s)))
}

fn split_words(s: &Vec<char>) -> (ws: Vec<Vec<char>>)
    ensures
        ws@.len() == words(s@).len(),
        forall|k: int| 0 <= k < ws@.len() ==> (#[trigger] ws@[k])@ == words(s@)[k],
{
    let mut ws: Vec<Vec<char>> = Vec::new();
    let mut i: usize = 0;
    while i < s.len()
        invariant
            i <= s@.len(),
            ws@.len() == words(s@.subrange(0, i as int)).len(),
            forall|k: int| 0 <= k < ws@.len() ==> (#[trigger] ws@[k])@ == words(s@.subrange(0, i as int))[k],
        decreases s@.len() - i,
    {
        let c = s[i];
        let ghost pre = s@.subrange(0, i as int);
        let ghost post = s@.subrange(0, i + 1);
        assert(post.drop_last() =~= pre);
        assert(post.last() == c);
        if is_space_char(c) {
        } else if i >= 1 && !is_space_char(s[i - 1]) && ws.len() > 0 {
            assert(post[post.len() - 2] == s@[i - 1]);
            let last = ws.len() - 1;
            let mut w = ws.remove(last);
            let ghost w0 = w@;
            w.push(c);
            ws.push(w);
            assert forall|k: int| 0 <= k < ws@.len() implies (#[trigger] ws@[k])@ == words(post)[k] by {
                if k < last {
                } else {
                    assert(w0 == words(pre)[k]);
                }
            }
        } else {
            proof {
                if i >= 1 && !is_space(s@[i - 1]) {
                    assert(post[post.len() - 2] == s@[i - 1]);
                }
            }
            let mut w: Vec<char> = Vec::new();
            w.push(c);
            assert(w@ =~= seq![c]);
            ws.push(w);
        }
        i = i + 1;
    }
    assert(s@.subrange(0, s@.len() as int) =~= s@);
    ws
}

fn is_space_char(c: char) -> (r: bool)
    ensures
        r == is_space(c),
{
    ('\t' <= c && c <= '\r') || c == ' ' || c == '\u{85}' || c == '\u{a0}' || c == '\u{1680}' || (
    '\u{2000}' <= c && c <= '\u{200a}') || c == '\u{2028}' || c == '\u{2029}' || c == '\u{202f}'
        || c == '\u{205f}' || c == '\u{3000}'
}

fn chars_eq(a: &Vec<char>, b: &Vec<char>) -> (r: bool)
    ensures
        r == (a@ == b@),
{
    if a.len() != b.len() {
        return false;
    }
    let mut i: usize = 0;
    while i < a.len()
        invariant
            a@.len() == b@.len(),
            i <= a@.len(),
            forall|k: int| 0 <= k < i ==> a@[k] == b@[k],
        decreases a@.len() - i,
    {
        if a[i] != b[i] {
            return false;
        }
        i = i + 1;
    }
    assert(a@ =~= b@);
    true
}

/// Collapse consecutive duplicate words (device HID_NAME repeats "Keychron").
pub fn dedupe_words(s: &str) -> (out: String)
    ensures
        out@ == dedupe_words_spec(s@),
{
    let cs = chars_of(s);
    let ws = split_words(&cs);
    let ghost all = words(s@);
    let mut kept: Vec<Vec<char>> = Vec::new();
    let mut i: usize = 0;
    while i < ws.len()
        invariant
            ws@.len() == all.len(),
            forall|k: int| 0 <= k < ws@.len() ==> (#[trigger] ws@[k])@ == all[k],
            i <= ws@.len(),
            kept@.len() == dedupe_spec(all.subrange(0, i as int)).len(),
            forall|k: int| 0 <= k < kept@.len() ==> (#[trigger] kept@[k])@ == dedupe_spec(all.subrange(0, i as int))[k],
        decreases ws@.len() - i,
    {
        let ghost pre = all.subrange(0, i as int);
        let ghost post = all.subrange(0, i + 1);
        assert(post.drop_last() =~= pre);
        let w = ws[i].clone();
        assert(w@ == all[i as int]);
        let dup = kept.len() > 0 && chars_eq(&kept[kept.len() - 1], &w);
        if !dup {
            kept.push(w);
        }
        i = i + 1;
    }
    assert(all.subrange(0, ws@.len() as int) =~= all);
    let ghost d = dedupe_spec(all);
    let mut out = String::new();
    let mut k: usize = 0;
    while k < kept.len()
        invariant
            kept@.len() == d.len(),
            forall|j: int| 0 <= j < kept@.len() ==> (#[trigger] kept@[j])@ == d[j],
            k <= kept@.len(),
            out@ == join_words(d.subrange(0, k as int)),
        decreases kept@.len() - k,
    {
        let ghost pre = d.subrange(0, k as int);
        let ghost post = d.subrange(0, k + 1);
        assert(post.drop_last() =~= pre);
        if k > 0 {
            push_char(&mut out, ' ');
        }
        let mut j: usize = 0;
        let ghost start = out@;
        while j < kept[k].len()
            invariant
                k < kept@.len(),
                j <= kept@[k as int]@.len(),
                out@ == start + kept@[k as int]@.subrange(0, j as int),
            decreases kept@[k as int]@.len() - j,
        {
            push_char(&mut out, kept[k][j]);
            j = j + 1;
            assert(out@ =~= start + kept@[k as int]@.subrange(0, j as int));
        }
        assert(kept@[k as int]@.subrange(0, j as int) =~= kept@[k as int]@);
        proof {
            if k == 0 {
                assert(out@ =~= join_words(post));
            } else {
                assert(out@ =~= join_words(post));
            }
        }
        k = k + 1;
    }
    assert(d.subrange(0, kept@.len() as int) =~= d);
    out
}

/// Display name of a connected device: its deduplicated `HID_NAME`, or
/// `Keychron vvvv:pppp` when the node has none.
pub open spec fn device_name_spec(info: DeviceInfo) -> Seq<char> {
    if info.name@.len() == 0 {
        "Keychron "@ + hex_pad(info.vid as nat, 4) + ":"@ + hex_pad(info.pid as nat, 4)
    } else {
        dedupe_words_spec(info.name@)
    }
}

/// Display name of a connected device.
pub fn device_name(info: &DeviceInfo) -> (s: String)
    ensures
        s@ == device_name_spec(*info),
{
    if info.name.as_str().unicode_len() == 0 {
        let mut s = string_of("Keychron ");
        append_hex_pad(&mut s, info.vid as u64, 4);
        s.append(":");
        append_hex_pad(&mut s, info.pid as u64, 4);
        s
    } else {
        dedupe_words(info.name.as_str())
    }
}

/// Link label from the PID: 0xD0xx PIDs are the 2.4 GHz dongle transport;
/// the others are wired.
pub fn link_label(pid: u16) -> (s: &'static str)
    ensures
        pid >= 0xD000 ==> s@ == "2.4 GHz"@,
        pid < 0xD000 ==> s@ == "wired"@,
{
    if pid >= 0xD000 {
        "2.4 GHz"
    } else {
        "wired"
    }
}

/// The connection announcement for a freshly opened device.
pub fn connected_update(info: &DeviceInfo, firmware: String) -> (u: Update)
    ensures
        u matches Update::Connected { name, variant, firmware: fw, transport } && name@
            == device_name_spec(*info) && variant == (if info.usage_page
            == crate::hid::enumerate::USAGE_PAGE_CONFIG {
            Variant::EightKNordic
        } else {
            Variant::Unsupported
        }) && fw@ == firmware@ && (info.pid >= 0xD000 ==> transport@ == "2.4 GHz"@) && (
        info.pid < 0xD000 ==> transport@ == "wired"@),
{
    Update::Connected {
        name: device_name(info),
        variant: crate::proto::detect(info.usage_page),
        firmware,
        transport: link_label(info.pid),
    }
}

/// Message when no config collection is present.
pub fn not_found_message() -> (s: String)
    ensures
        s@ == "Keychron config device not found (VID 3434, usage 0xFFC1). Plug in the dongle."@,
{
    string_of("Keychron config device not found (VID 3434, usage 0xFFC1). Plug in the dongle.")
}

/// Message when the node exists but cannot be opened, with the udev fix.
pub fn open_failed_message(node: &str, err: &str) -> (s: String)
    ensures
        s@ == "cannot open "@ + node@ + " ("@ + err@ + OPEN_FIX@,
{
    let mut s = string_of("cannot open ");
    s.append(node);
    s.append(" (");
    s.append(err);
    s.append(OPEN_FIX);
    s
}

/// The udev fix printed after an open failure.
pub const OPEN_FIX: &'static str = ").\nudev fix (then replug the dongle):\n  echo 'SUBSYSTEM==\"hidraw\", ATTRS{idVendor}==\"3434\", MODE=\"0660\", GROUP=\"input\"' | sudo tee /etc/udev/rules.d/99-keychron.rules\n  sudo udevadm control --reload-rules && sudo udevadm trigger --action=add";

} // verus!
