//! Button remap (cmd 0x52 set / 0x62 get). Action data is a 24-bit
//! big-endian value whose meaning depends on `type`. Type 0 = DEFAULT hardware
//! function (not "off"); type 9 = Disable. Every write reads back and confirms.

use vstd::prelude::*;

use crate::hid::{
    added, extends, lemma_log_one, lemma_log_one_more, lemma_log_push, lemma_log_same,
    lemma_log_then, long_write_of, long_write_step, read_of, read_step, refused, Exchange, ExchangeLog, Hid,
    HidError,
};
use crate::proto::rejection;
use crate::text::{
    append_hex_list, append_hex_pad, append_radix, dec, hex_list, hex_pad, str_eq, string_of,
};

verus! {

pub const CMD_SET_BUTTON: u8 = 0x52;
pub const CMD_GET_BUTTON: u8 = 0x62;

/// Number of slots in the device's button table.
pub const COUNT: usize = 16;

pub const TYPE_DEFAULT: u8 = 0;
pub const TYPE_MOUSE: u8 = 1;
pub const TYPE_MEDIA: u8 = 3;
pub const TYPE_DISABLE: u8 = 9;

/// A Default-type slot with data 0 is an empty / non-physical slot; a real
/// default button carries non-zero data (0xffffff untouched, or a device
/// default code after a restore).
pub const EMPTY_DEFAULT_DATA: u32 = 0;

/// Name of an action type (Launcher enum `S`).
pub open spec fn action_type_name_spec(t: u8) -> Seq<char> {
    if t == 0 {
        "Default"@
    } else if t == 1 {
        "Mouse"@
    } else if t == 2 {
        "Keyboard"@
    } else if t == 3 {
        "Media"@
    } else if t == 4 {
        "Macro"@
    } else if t == 5 {
        "DPI"@
    } else if t == 6 {
        "Light"@
    } else if t == 7 {
        "Game"@
    } else if t == 8 {
        "ShortCut"@
    } else if t == 9 {
        "Disable"@
    } else if t == 10 {
        "Profile"@
    } else if t == 13 {
        "PollingRate"@
    } else {
        "?"@
    }
}

/// Action type enum `S` from the Launcher.
pub fn action_type_name(t: u8) -> (s: &'static str)
    ensures
        s@ == action_type_name_spec(t),
{
    match t {
        0 => "Default",
        1 => "Mouse",
        2 => "Keyboard",
        3 => "Media",
        4 => "Macro",
        5 => "DPI",
        6 => "Light",
        7 => "Game",
        8 => "ShortCut",
        9 => "Disable",
        10 => "Profile",
        13 => "PollingRate",
        _ => "?",
    }
}

/// Mouse actions (enum `_`) as the 24-bit value, display order.
pub const MOUSE_ACTIONS: [(&'static str, u32); 10] = [
    ("left", 0x010000),
    ("right", 0x020000),
    ("middle", 0x040000),
    ("forward", 0x080000),
    ("backward", 0x100000),
    ("leftDouble", 0x800000),
    ("upScroll", 0x000200),
    ("downScroll", 0x00fe00),
    ("leftScroll", 0x0000fe),
    ("rightScroll", 0x000002),
];

/// Assignable Media (Consumer Control) actions: name -> consumer code.
pub const MEDIA_ACTIONS: [(&'static str, u8); 7] = [
    ("Vol +", 0xe9),
    ("Vol -", 0xea),
    ("Mute", 0xe2),
    ("Play/Pause", 0xcd),
    ("Next", 0xb5),
    ("Prev", 0xb6),
    ("Stop", 0xb7),
];

/// Index of the mouse action whose value is `data`.
pub open spec fn mouse_index(data: u32) -> Option<int> {
    if exists|i: int| 0 <= i < 10 && #[trigger] MOUSE_ACTIONS@[i].1 == data {
        Some(choose|i: int| 0 <= i < 10 && #[trigger] MOUSE_ACTIONS@[i].1 == data)
    } else {
        None
    }
}

/// Index of the media action whose consumer code is the high byte of `data`.
pub open spec fn media_index(data: u32) -> Option<int> {
    if exists|i: int| 0 <= i < 7 && #[trigger] MEDIA_ACTIONS@[i].1 == data >> 16 {
        Some(choose|i: int| 0 <= i < 7 && #[trigger] MEDIA_ACTIONS@[i].1 == data >> 16)
    } else {
        None
    }
}

/// The action values are pairwise distinct, and so are the consumer codes,
/// so a value names at most one action.
pub proof fn lemma_tables_distinct()
    ensures
        forall|i: int, j: int|
            0 <= i < 10 && 0 <= j < 10 && #[trigger] MOUSE_ACTIONS@[i].1 == #[trigger] MOUSE_ACTIONS@[j].1
                ==> i == j,
        forall|i: int, j: int|
            0 <= i < 7 && 0 <= j < 7 && #[trigger] MEDIA_ACTIONS@[i].1 == #[trigger] MEDIA_ACTIONS@[j].1
                ==> i == j,
{
}

/// Name of the mouse action with value `data`, if any.
pub fn mouse_name(data: u32) -> (r: Option<&'static str>)
    ensures
        mouse_index(data) is None ==> r is None,
        mouse_index(data) matches Some(i) ==> r == Some(MOUSE_ACTIONS@[i].0),
{
    let table = MOUSE_ACTIONS;
    let mut i: usize = 0;
    while i < 10
        invariant
            i <= 10,
            table@ == MOUSE_ACTIONS@,
            forall|k: int| 0 <= k < i ==> MOUSE_ACTIONS@[k].1 != data,
        decreases 10 - i,
    {
        if table[i].1 == data {
            proof {
                lemma_tables_distinct();
                assert(MOUSE_ACTIONS@[i as int].1 == data);
            }
            return Some(table[i].0);
        }
        i = i + 1;
    }
    None
}

/// Media (Consumer Control) action from the high byte of the 24-bit data.
pub fn media_name(data: u32) -> (r: Option<&'static str>)
    ensures
        media_index(data) is None ==> r is None,
        media_index(data) matches Some(i) ==> r == Some(MEDIA_ACTIONS@[i].0),
{
    let table = MEDIA_ACTIONS;
    let hi = data >> 16;
    let mut i: usize = 0;
    while i < 7
        invariant
            i <= 7,
            hi == data >> 16,
            table@ == MEDIA_ACTIONS@,
            forall|k: int| 0 <= k < i ==> MEDIA_ACTIONS@[k].1 != data >> 16,
        decreases 7 - i,
    {
        if table[i].1 as u32 == hi {
            proof {
                lemma_tables_distinct();
                assert(MEDIA_ACTIONS@[i as int].1 == data >> 16);
            }
            return Some(table[i].0);
        }
        i = i + 1;
    }
    None
}

#[derive(Clone, Debug)]
pub struct ButtonInfo {
    pub id: u8,
    pub type_id: u8,
    pub data: u32,
    /// Human label for the assignment (mouse action name, or the type name).
    pub label: String,
}

/// Display label of an assignment.
pub open spec fn label_spec(type_id: u8, data: u32) -> Seq<char> {
    if type_id == TYPE_MOUSE {
        match mouse_index(data) {
            Some(i) => MOUSE_ACTIONS@[i].0@,
            None => "mouse 0x"@ + hex_pad(data as nat, 6),
        }
    } else if type_id == TYPE_MEDIA {
        match media_index(data) {
            Some(i) => MEDIA_ACTIONS@[i].0@,
            None => "media 0x"@ + hex_pad((data >> 16) as nat, 2),
        }
    } else if type_id == TYPE_DISABLE {
        "disabled"@
    } else if type_id == TYPE_DEFAULT && data == EMPTY_DEFAULT_DATA {
        "—"@
    } else if type_id == TYPE_DEFAULT {
        "default"@
    } else {
        action_type_name_spec(type_id)
    }
}

/// Display label of an assignment.
pub fn label_for(type_id: u8, data: u32) -> (s: String)
    ensures
        s@ == label_spec(type_id, data),
{
    if type_id == TYPE_MOUSE {
        match mouse_name(data) {
            Some(n) => string_of(n),
            None => {
                let mut s = string_of("mouse 0x");
                append_hex_pad(&mut s, data as u64, 6);
                s
            },
        }
    } else if type_id == TYPE_MEDIA {
        match media_name(data) {
            Some(n) => string_of(n),
            None => {
                let mut s = string_of("media 0x");
                append_hex_pad(&mut s, (data >> 16) as u64, 2);
                s
            },
        }
    } else if type_id == TYPE_DISABLE {
        string_of("disabled")
    } else if type_id == TYPE_DEFAULT && data == EMPTY_DEFAULT_DATA {
        string_of("—")
    } else if type_id == TYPE_DEFAULT {
        string_of("default")
    } else {
        string_of(action_type_name(type_id))
    }
}

/// Whether this slot is a real, configurable button (not an empty slot).
pub fn is_present(b: &ButtonInfo) -> (r: bool)
    ensures
        r == !(b.type_id == TYPE_DEFAULT && b.data == EMPTY_DEFAULT_DATA),
{
    !(b.type_id == TYPE_DEFAULT && b.data == EMPTY_DEFAULT_DATA)
}

/// Physical name of a slot id, where confirmed on hardware.
pub open spec fn friendly_name_spec(id: u8) -> Option<Seq<char>> {
    if id == 0 {
        Some("Left"@)
    } else if id == 1 {
        Some("Middle"@)
    } else if id == 2 {
        Some("Right"@)
    } else if id == 3 {
        Some("Forward"@)
    } else if id == 4 {
        Some("Backward"@)
    } else if id == 5 {
        Some("Side ↑"@)
    } else if id == 6 {
        Some("Side ↓"@)
    } else if id == 10 {
        Some("Side ↑ ⧉"@)
    } else if id == 11 {
        Some("Side ↓ ⧉"@)
    } else {
        None
    }
}

/// Verified physical name for a slot id, or None if not yet mapped. The
/// firmware mirrors the side wheel into a second slot pair (10/11).
pub fn friendly_name(id: u8) -> (r: Option<&'static str>)
    ensures
        friendly_name_spec(id) is None ==> r is None,
        friendly_name_spec(id) matches Some(n) ==> r matches Some(s) && s@ == n,
{
    match id {
        0 => Some("Left"),
        1 => Some("Middle"),
        2 => Some("Right"),
        3 => Some("Forward"),
        4 => Some("Backward"),
        5 => Some("Side ↑"),
        6 => Some("Side ↓"),
        10 => Some("Side ↑ ⧉"),
        11 => Some("Side ↓ ⧉"),
        _ => None,
    }
}

/// 24-bit value from three big-endian bytes.
pub open spec fn be24_value(b0: u8, b1: u8, b2: u8) -> int {
    b0 * 65536 + b1 * 256 + b2
}

/// The low 24 bits of `v` as three big-endian bytes.
pub fn be24(v: u32) -> (r: [u8; 3])
    ensures
        r@ == seq![(v >> 16) as u8, (v >> 8) as u8, v as u8],
        v < 0x1000000 ==> be24_value(r@[0], r@[1], r@[2]) == v,
{
    let r = [(v >> 16) as u8, (v >> 8) as u8, v as u8];
    let b0 = (v >> 16) as u8;
    let b1 = (v >> 8) as u8;
    let b2 = v as u8;
    assert(v < 0x1000000 ==> b0 as u32 * 65536 + b1 as u32 * 256 + b2 as u32 == v) by (bit_vector)
        requires
            b0 == (v >> 16) as u8,
            b1 == (v >> 8) as u8,
            b2 == v as u8,
    ;
    assert(r@ =~= seq![(v >> 16) as u8, (v >> 8) as u8, v as u8]);
    r
}

/// Message for an id past the button table.
pub open spec fn bad_id_message(id: u8) -> Seq<char> {
    "button id "@ + dec(id as nat) + " out of range 0..16"@
}

/// Reject ids outside the device's button table. Every write path calls this
/// before a frame reaches the wire.
pub fn check_id(id: u8) -> (r: Result<(), HidError>)
    ensures
        (id as int) < COUNT <==> r is Ok,
        r matches Err(e) ==> (e matches HidError::BadReply(m) && m@ == bad_id_message(id)),
{
    if id as usize >= COUNT {
        let mut m = string_of("button id ");
        append_radix(&mut m, id as u64, 10);
        m.append(" out of range 0..16");
        return Err(HidError::BadReply(m));
    }
    Ok(())
}

/// A reply to a button read: long enough and echoing the command.
pub open spec fn is_button_reply(r: Seq<u8>) -> bool {
    r.len() >= 8 && r[1] == CMD_GET_BUTTON
}

/// The slot `id` as the button reply `r` describes it.
pub open spec fn button_from_reply(b: ButtonInfo, id: u8, r: Seq<u8>) -> bool {
    &&& b.id == id
    &&& b.type_id == r[4]
    &&& b.data == be24_value(r[5], r[6], r[7])
    &&& b.label@ == label_spec(r[4], b.data)
}

/// Decode a button read reply for slot `id`.
pub fn parse_button_reply(id: u8, r: &[u8]) -> (res: Result<ButtonInfo, HidError>)
    ensures
        !is_button_reply(r@) ==> (res matches Err(HidError::BadReply(m)) && m@
            == "button get: unexpected reply "@ + hex_list(r@)),
        is_button_reply(r@) ==> (res matches Ok(b) && button_from_reply(b, id, r@)),
{
    if r.len() < 8 || r[1] != CMD_GET_BUTTON {
        let mut m = string_of("button get: unexpected reply ");
        append_hex_list(&mut m, r);
        return Err(HidError::BadReply(m));
    }
    let type_id = r[4];
    let (b5, b6, b7) = (r[5], r[6], r[7]);
    let data = ((b5 as u32) << 16) | ((b6 as u32) << 8) | b7 as u32;
    assert(data == b5 * 65536 + b6 * 256 + b7) by (bit_vector)
        requires
            data == ((b5 as u32) << 16) | ((b6 as u32) << 8) | b7 as u32,
    ;
    Ok(ButtonInfo { id, type_id, data, label: label_for(type_id, data) })
}

/// What a read of slot `id` whose reply was `b` leads to: a reply that is
/// not a button reply ends the operation with that refusal; else `then`
/// goes on with the decoded slot and the exchanges after.
pub open spec fn on_button<T>(
    b: Seq<u8>,
    rest: ExchangeLog,
    id: u8,
    res: Result<T, HidError>,
    then: spec_fn(ButtonInfo, ExchangeLog) -> bool,
) -> bool {
    if !is_button_reply(b) {
        rest.len() == 0 && refused(res, "button get: unexpected reply "@ + hex_list(b))
    } else {
        exists|bi: ButtonInfo| #[trigger] button_from_reply(bi, id, b) && then(bi, rest)
    }
}

/// `d` starts with the read of slot `id` (long cmd 0x62, payload `[id]`),
/// handled as [`on_button`] says.
pub open spec fn button_step<T>(
    d: ExchangeLog,
    id: u8,
    res: Result<T, HidError>,
    then: spec_fn(ButtonInfo, ExchangeLog) -> bool,
) -> bool {
    read_step(
        d,
        CMD_GET_BUTTON,
        seq![id],
        res,
        |b: Seq<u8>, rest: ExchangeLog| on_button(b, rest, id, res, then),
    )
}

/// Read slot `id`: one read, whose reply decides the result as
/// [`on_button`] says.
pub fn get_button<H: Hid>(dev: &mut H, id: u8) -> (res: Result<ButtonInfo, HidError>)
    ensures
        extends(old(dev).log(), final(dev).log()),
        final(dev).log().len() == old(dev).log().len() + 1,
        button_step(
            added(old(dev).log(), final(dev).log()),
            id,
            res,
            |bi: ButtonInfo, rest: ExchangeLog| rest.len() == 0 && res == Ok::<ButtonInfo, HidError>(bi),
        ),
        res matches Ok(b) ==> exists|r: Seq<u8>|
            is_button_reply(r) && #[trigger] button_from_reply(b, id, r),
{
    let ghost l0 = dev.log();
    let payload = [id];
    let got = dev.get(CMD_GET_BUTTON, &payload);
    proof {
        assert(payload@ =~= seq![id]);
        lemma_log_one(l0, dev.log().last());
        assert(dev.log() =~= l0.push(dev.log().last()));
        assert(added(l0, dev.log()).skip(1) =~= Seq::<crate::hid::Exchange>::empty());
    }
    match got {
        Err(e) => Err(e),
        Ok(r) => parse_button_reply(id, r.as_slice()),
    }
}

/// `v` holds slots `0..v.len()` in order, each decoded from a button reply.
pub open spec fn slots_read(v: Seq<ButtonInfo>) -> bool {
    forall|i: int|
        0 <= i < v.len() ==> (#[trigger] v[i]).id == i && exists|r: Seq<u8>|
            is_button_reply(r) && button_from_reply(v[i], i as u8, r)
}

/// `x` is the read of slot `i`, answered with a button reply.
pub open spec fn slot_read_good(x: Exchange, i: int) -> bool {
    read_of(x, CMD_GET_BUTTON, seq![i as u8]) && (x->Read_reply matches Ok(r) && is_button_reply(r))
}

/// `x` is the read of slot `i`, answered with a button reply that decodes
/// to `b`.
pub open spec fn slot_read_as(x: Exchange, i: int, b: ButtonInfo) -> bool {
    slot_read_good(x, i) && button_from_reply(b, i as u8, x->Read_reply->Ok_0)
}

/// The failed read of slot `id` in `x`, as `res` carries it.
pub open spec fn slot_read_failed<T>(x: Exchange, id: u8, res: Result<T, HidError>) -> bool {
    read_of(x, CMD_GET_BUTTON, seq![id]) && match x->Read_reply {
        Err(e) => res == Err::<T, HidError>(e),
        Ok(r) => !is_button_reply(r) && refused(res, "button get: unexpected reply "@ + hex_list(r)),
    }
}

/// The exchanges of a read of slots `0..n`: one read per slot, in order,
/// stopping at the first that fails, whose failure is the result.
pub open spec fn get_all_outcome(d: ExchangeLog, n: nat, res: Result<Vec<ButtonInfo>, HidError>) -> bool {
    match res {
        Ok(v) => d.len() == n && v@.len() == n && forall|i: int|
            0 <= i < n ==> slot_read_as(#[trigger] d[i], i, v@[i]),
        Err(_) => 1 <= d.len() <= n && (forall|i: int|
            0 <= i < d.len() - 1 ==> slot_read_good(#[trigger] d[i], i)) && slot_read_failed(
            d.last(),
            (d.len() - 1) as u8,
            res,
        ),
    }
}

/// Read slots `0..count as u8`, one read per slot; with no slot to read it
/// succeeds at once without touching the device.
pub fn get_all<H: Hid>(dev: &mut H, count: usize) -> (res: Result<Vec<ButtonInfo>, HidError>)
    ensures
        extends(old(dev).log(), final(dev).log()),
        get_all_outcome(added(old(dev).log(), final(dev).log()), (count as u8) as nat, res),
        res matches Ok(v) ==> v@.len() == (count as u8) as int && slots_read(v@),
        (count as u8) == 0 ==> (res matches Ok(v) && v@.len() == 0 && *final(dev) == *old(dev)),
{
    let ghost l0 = dev.log();
    proof {
        lemma_log_same(l0);
    }
    let n = count as u8;
    let mut out: Vec<ButtonInfo> = Vec::new();
    let mut id: u8 = 0;
    while id < n
        invariant
            id <= n,
            n == count as u8,
            out@.len() == id,
            id == 0 ==> *dev == *old(dev),
            slots_read(out@),
            l0 == old(dev).log(),
            extends(l0, dev.log()),
            added(l0, dev.log()).len() == id,
            forall|i: int| 0 <= i < id ==> slot_read_as(#[trigger] added(l0, dev.log())[i], i, out@[i]),
        decreases n - id,
    {
        let ghost lk = dev.log();
        let got = get_button(dev, id);
        let ghost x: Exchange = dev.log().last();
        proof {
            lemma_log_one_more(lk, dev.log());
            lemma_log_push(l0, lk, x);
            lemma_log_one(lk, x);
            let p = added(l0, dev.log());
            assert forall|i: int| 0 <= i < id implies slot_read_good(#[trigger] p[i], i) by {
                assert(p[i] == added(l0, lk)[i]);
                assert(slot_read_as(added(l0, lk)[i], i, out@[i]));
            }
            assert(p.last() == x);
        }
        let b = match got {
            Ok(b) => b,
            Err(e) => return Err(e),
        };
        let ghost before = out@;
        out.push(b);
        proof {
            let p = added(l0, dev.log());
            assert forall|i: int| 0 <= i < id + 1 implies slot_read_as(#[trigger] p[i], i, out@[i]) by {
                if i < id {
                    assert(p[i] == added(l0, lk)[i]);
                    assert(out@[i] == before[i]);
                } else {
                    assert(out@[i] == b);
                }
            }
            assert forall|i: int| 0 <= i < out@.len() implies (#[trigger] out@[i]).id == i
                && exists|r: Seq<u8>| is_button_reply(r) && button_from_reply(
                out@[i],
                i as u8,
                r,
            ) by {
                if i < before.len() {
                    assert(out@[i] == before[i]);
                } else {
                    assert(out@[i] == b);
                    assert(i as u8 == id);
                }
            }
        }
        id = id + 1;
    }
    Ok(out)
}

/// What a confirmed write of (`type_id`, `data`) to slot `id` reads back as.
pub open spec fn confirmed(b: ButtonInfo, id: u8, type_id: u8, data: u32) -> bool {
    &&& b.id == id
    &&& b.type_id == type_id
    &&& b.data == data
    &&& b.label@ == label_spec(type_id, data)
}

/// The SET frame payload (after the command byte).
pub open spec fn set_payload_spec(id: u8, type_id: u8, data: u32) -> Seq<u8> {
    seq![id, 0, type_id, (data >> 16) as u8, (data >> 8) as u8, data as u8]
}

/// The exchanges of a write of (`type_id`, `data`) to slot `id`: the
/// long-channel write `(0x52, [id, 0, type_id, data as BE24])`; once acked,
/// a read of slot `id` that must show `type_id` and `data`.
pub open spec fn set_button_exchanges(
    d: ExchangeLog,
    id: u8,
    type_id: u8,
    data: u32,
    res: Result<ButtonInfo, HidError>,
) -> bool {
    long_write_step(
        d,
        CMD_SET_BUTTON,
        set_payload_spec(id, type_id, data),
        "button set"@,
        res,
        |rest: ExchangeLog|
            button_step(
                rest,
                id,
                res,
                |after: ButtonInfo, tail: ExchangeLog|
                    tail.len() == 0 && (if after.type_id == type_id && after.data == data {
                        res == Ok::<ButtonInfo, HidError>(after)
                    } else {
                        refused(res, "button set unconfirmed: "@ + button_debug(after))
                    }),
            ),
    )
}

/// What a write of (`type_id`, `data`) to slot `id` does: an id past the
/// table is refused with nothing exchanged; else the exchanges of
/// [`set_button_exchanges`].
pub open spec fn set_button_outcome(
    d: ExchangeLog,
    id: u8,
    type_id: u8,
    data: u32,
    res: Result<ButtonInfo, HidError>,
) -> bool {
    if (id as int) >= COUNT {
        d.len() == 0 && refused(res, bad_id_message(id))
    } else {
        set_button_exchanges(d, id, type_id, data, res)
    }
}

/// Assign (`type_id`, `data`) to slot `id`, then read back and confirm.
/// An id past the table is refused before any transfer.
pub fn set_button<H: Hid>(dev: &mut H, id: u8, type_id: u8, data: u32) -> (res: Result<
    ButtonInfo,
    HidError,
>)
    ensures
        (id as int) >= COUNT ==> (refused(res, bad_id_message(id)) && *final(dev) == *old(dev)),
        extends(old(dev).log(), final(dev).log()),
        set_button_outcome(added(old(dev).log(), final(dev).log()), id, type_id, data, res),
        res matches Ok(b) ==> confirmed(b, id, type_id, data),
{
    proof {
        lemma_log_same(dev.log());
    }
    match check_id(id) {
        Ok(_) => {},
        Err(e) => return Err(e),
    }
    let ghost l0 = dev.log();
    let d = be24(data);
    let payload = [id, 0, type_id, d[0], d[1], d[2]];
    let sent = dev.long_set(CMD_SET_BUTTON, &payload);
    let ghost l1 = dev.log();
    proof {
        assert(payload@ =~= set_payload_spec(id, type_id, data));
        lemma_log_same(l1);
        lemma_log_then(l0, l1.last(), l1);
    }
    let (ok, resp) = match sent {
        Ok(p) => p,
        Err(e) => return Err(e),
    };
    if !ok {
        return rejection("button set", resp.as_slice());
    }
    let got = get_button(dev, id);
    proof {
        lemma_log_then(l0, l1.last(), dev.log());
    }
    let after = match got {
        Ok(b) => b,
        Err(e) => return Err(e),
    };
    if after.type_id != type_id || after.data != data {
        let mut m = string_of("button set unconfirmed: ");
        append_button_debug(&mut m, &after);
        return Err(HidError::BadReply(m));
    }
    Ok(after)
}

/// Debug rendering of a button read-back, as `{:?}` prints it.
pub open spec fn button_debug(b: ButtonInfo) -> Seq<char> {
    "ButtonInfo { id: "@ + dec(b.id as nat) + ", type_id: "@ + dec(b.type_id as nat)
        + ", data: "@ + dec(b.data as nat) + ", label: \""@ + b.label@ + "\" }"@
}

pub fn append_button_debug(out: &mut String, b: &ButtonInfo)
    ensures
        final(out)@ == old(out)@ + button_debug(*b),
{
    let ghost start = out@;
    out.append("ButtonInfo { id: ");
    append_radix(out, b.id as u64, 10);
    out.append(", type_id: ");
    append_radix(out, b.type_id as u64, 10);
    out.append(", data: ");
    append_radix(out, b.data as u64, 10);
    out.append(", label: \"");
    out.append(b.label.as_str());
    out.append("\" }");
    assert(out@ =~= start + button_debug(*b));
}

/// First index of the mouse action called `action`.
pub open spec fn mouse_name_index(action: Seq<char>) -> Option<int> {
    if exists|i: int| 0 <= i < 10 && #[trigger] MOUSE_ACTIONS@[i].0@ == action {
        Some(
            choose|i: int|
                0 <= i < 10 && #[trigger] MOUSE_ACTIONS@[i].0@ == action && forall|k: int|
                    0 <= k < i ==> MOUSE_ACTIONS@[k].0@ != action,
        )
    } else {
        None
    }
}

/// Value of the mouse action called `action` (the first one of that name).
pub open spec fn mouse_value_of(action: Seq<char>) -> Option<u32> {
    match mouse_name_index(action) {
        Some(i) => Some(MOUSE_ACTIONS@[i].1),
        None => None,
    }
}

/// First index of the media action called `action`.
pub open spec fn media_name_index(action: Seq<char>) -> Option<int> {
    if exists|i: int| 0 <= i < 7 && #[trigger] MEDIA_ACTIONS@[i].0@ == action {
        Some(
            choose|i: int|
                0 <= i < 7 && #[trigger] MEDIA_ACTIONS@[i].0@ == action && forall|k: int|
                    0 <= k < i ==> MEDIA_ACTIONS@[k].0@ != action,
        )
    } else {
        None
    }
}

/// Consumer code of the media action called `action` (the first one of that name).
pub open spec fn media_code_of(action: Seq<char>) -> Option<u8> {
    match media_name_index(action) {
        Some(i) => Some(MEDIA_ACTIONS@[i].1),
        None => None,
    }
}

/// Value of the mouse action called `action`, looked up by name.
pub fn find_mouse_action(action: &str) -> (r: Option<u32>)
    ensures
        r == mouse_value_of(action@),
{
    let table = MOUSE_ACTIONS;
    let mut i: usize = 0;
    while i < 10
        invariant
            i <= 10,
            table@ == MOUSE_ACTIONS@,
            forall|k: int| 0 <= k < i ==> MOUSE_ACTIONS@[k].0@ != action@,
        decreases 10 - i,
    {
        if str_eq(table[i].0, action) {
            proof {
                let i0 = i as int;
                assert(MOUSE_ACTIONS@[i0].0@ == action@);
                let c = choose|j: int|
                    0 <= j < 10 && #[trigger] MOUSE_ACTIONS@[j].0@ == action@ && forall|k: int|
                        0 <= k < j ==> MOUSE_ACTIONS@[k].0@ != action@;
                assert(c == i0);
            }
            return Some(table[i].1);
        }
        i = i + 1;
    }
    None
}

/// Consumer code of the media action called `action`, looked up by name.
pub fn find_media_action(action: &str) -> (r: Option<u8>)
    ensures
        r == media_code_of(action@),
{
    let table = MEDIA_ACTIONS;
    let mut i: usize = 0;
    while i < 7
        invariant
            i <= 7,
            table@ == MEDIA_ACTIONS@,
            forall|k: int| 0 <= k < i ==> MEDIA_ACTIONS@[k].0@ != action@,
        decreases 7 - i,
    {
        if str_eq(table[i].0, action) {
            proof {
                let i0 = i as int;
                assert(MEDIA_ACTIONS@[i0].0@ == action@);
                let c = choose|j: int|
                    0 <= j < 7 && #[trigger] MEDIA_ACTIONS@[j].0@ == action@ && forall|k: int|
                        0 <= k < j ==> MEDIA_ACTIONS@[k].0@ != action@;
                assert(c == i0);
            }
            return Some(table[i].1);
        }
        i = i + 1;
    }
    None
}

/// Message for an unknown action name.
pub open spec fn unknown_action_message(kind: Seq<char>, action: Seq<char>) -> Seq<char> {
    "unknown "@ + kind + " action "@ + action
}

/// What assigning the mouse action called `action` does: an unknown name
/// is refused with nothing exchanged; else the write of its value.
pub open spec fn set_mouse_outcome(
    d: ExchangeLog,
    id: u8,
    action: Seq<char>,
    res: Result<ButtonInfo, HidError>,
) -> bool {
    match mouse_value_of(action) {
        None => d.len() == 0 && refused(res, unknown_action_message("mouse"@, action)),
        Some(v) => set_button_outcome(d, id, TYPE_MOUSE, v, res),
    }
}

/// Assign a mouse action by name. Returns the confirmed button state.
pub fn set_mouse<H: Hid>(dev: &mut H, id: u8, action: &str) -> (res: Result<ButtonInfo, HidError>)
    ensures
        mouse_value_of(action@) is None ==> (res matches Err(HidError::BadReply(m)) && m@
            == unknown_action_message("mouse"@, action@) && *final(dev) == *old(dev)),
        mouse_value_of(action@) is Some && (id as int) >= COUNT ==> (res matches Err(
            HidError::BadReply(m),
        ) && m@ == bad_id_message(id) && *final(dev) == *old(dev)),
        extends(old(dev).log(), final(dev).log()),
        set_mouse_outcome(added(old(dev).log(), final(dev).log()), id, action@, res),
        res matches Ok(b) ==> confirmed(b, id, TYPE_MOUSE, mouse_value_of(action@)->0),
{
    proof {
        lemma_log_same(dev.log());
    }
    let data = match find_mouse_action(action) {
        Some(v) => v,
        None => {
            let mut m = string_of("unknown ");
            m.append("mouse");
            m.append(" action ");
            m.append(action);
            return Err(HidError::BadReply(m));
        },
    };
    set_button(dev, id, TYPE_MOUSE, data)
}

/// The 24-bit data of a media action: `(code << 16) | 0x00FF`.
pub open spec fn media_data(code: u8) -> u32 {
    ((code as u32) << 16) | 0xff
}

/// What assigning the media action called `action` does: an unknown name
/// is refused with nothing exchanged; else the write of its data.
pub open spec fn set_media_outcome(
    d: ExchangeLog,
    id: u8,
    action: Seq<char>,
    res: Result<ButtonInfo, HidError>,
) -> bool {
    match media_code_of(action) {
        None => d.len() == 0 && refused(res, unknown_action_message("media"@, action)),
        Some(c) => set_button_outcome(d, id, TYPE_MEDIA, media_data(c), res),
    }
}

/// Assign a media action by name. Data = `(consumer_code << 16) | 0x00FF`
/// (the device's stored format, e.g. Vol+ = 0xe900ff).
pub fn set_media<H: Hid>(dev: &mut H, id: u8, action: &str) -> (res: Result<ButtonInfo, HidError>)
    ensures
        media_code_of(action@) is None ==> (res matches Err(HidError::BadReply(m)) && m@
            == unknown_action_message("media"@, action@) && *final(dev) == *old(dev)),
        media_code_of(action@) is Some && (id as int) >= COUNT ==> (res matches Err(
            HidError::BadReply(m),
        ) && m@ == bad_id_message(id) && *final(dev) == *old(dev)),
        extends(old(dev).log(), final(dev).log()),
        set_media_outcome(added(old(dev).log(), final(dev).log()), id, action@, res),
        res matches Ok(b) ==> confirmed(b, id, TYPE_MEDIA, media_data(media_code_of(action@)->0)),
{
    proof {
        lemma_log_same(dev.log());
    }
    let code = match find_media_action(action) {
        Some(c) => c,
        None => {
            let mut m = string_of("unknown ");
            m.append("media");
            m.append(" action ");
            m.append(action);
            return Err(HidError::BadReply(m));
        },
    };
    set_button(dev, id, TYPE_MEDIA, ((code as u32) << 16) | 0xff)
}

/// Turn a button OFF (no action).
pub fn disable<H: Hid>(dev: &mut H, id: u8) -> (res: Result<ButtonInfo, HidError>)
    ensures
        (id as int) >= COUNT ==> (res matches Err(HidError::BadReply(m)) && m@ == bad_id_message(
            id,
        ) && *final(dev) == *old(dev)),
        extends(old(dev).log(), final(dev).log()),
        set_button_outcome(added(old(dev).log(), final(dev).log()), id, TYPE_DISABLE, 0, res),
        res matches Ok(b) ==> confirmed(b, id, TYPE_DISABLE, 0),
{
    set_button(dev, id, TYPE_DISABLE, 0)
}

/// The exchanges of a restore of slot `id`: the long-channel write
/// `(0x52, [id, 0, 0, 0, 0, 0])`; once acked, a read of slot `id` that must
/// show the Default type.
pub open spec fn restore_exchanges(d: ExchangeLog, id: u8, res: Result<ButtonInfo, HidError>) -> bool {
    long_write_step(
        d,
        CMD_SET_BUTTON,
        seq![id, 0u8, 0u8, 0u8, 0u8, 0u8],
        "restore"@,
        res,
        |rest: ExchangeLog|
            button_step(
                rest,
                id,
                res,
                |after: ButtonInfo, tail: ExchangeLog|
                    tail.len() == 0 && (if after.type_id == TYPE_DEFAULT {
                        res == Ok::<ButtonInfo, HidError>(after)
                    } else {
                        refused(res, "restore unconfirmed: "@ + button_debug(after))
                    }),
            ),
    )
}

/// What a restore of slot `id` does: an id past the table is refused with
/// nothing exchanged; else the exchanges of [`restore_exchanges`].
pub open spec fn restore_outcome(d: ExchangeLog, id: u8, res: Result<ButtonInfo, HidError>) -> bool {
    if (id as int) >= COUNT {
        d.len() == 0 && refused(res, bad_id_message(id))
    } else {
        restore_exchanges(d, id, res)
    }
}

/// Restore a button's default hardware function (type 0). The device fills
/// in its own default code, which the read-back reports; a read-back of
/// any other type is refused.
pub fn restore_default<H: Hid>(dev: &mut H, id: u8) -> (res: Result<ButtonInfo, HidError>)
    ensures
        (id as int) >= COUNT ==> (refused(res, bad_id_message(id)) && *final(dev) == *old(dev)),
        extends(old(dev).log(), final(dev).log()),
        restore_outcome(added(old(dev).log(), final(dev).log()), id, res),
        res matches Ok(b) ==> b.id == id && b.type_id == TYPE_DEFAULT,
{
    proof {
        lemma_log_same(dev.log());
    }
    match check_id(id) {
        Ok(_) => {},
        Err(e) => return Err(e),
    }
    let ghost l0 = dev.log();
    let payload: [u8; 6] = [id, 0, 0, 0, 0, 0];
    let sent = dev.long_set(CMD_SET_BUTTON, &payload);
    let ghost l1 = dev.log();
    proof {
        assert(payload@ =~= seq![id, 0u8, 0u8, 0u8, 0u8, 0u8]);
        lemma_log_same(l1);
        lemma_log_then(l0, l1.last(), l1);
    }
    let (ok, resp) = match sent {
        Ok(p) => p,
        Err(e) => return Err(e),
    };
    if !ok {
        return rejection("restore", resp.as_slice());
    }
    let got = get_button(dev, id);
    proof {
        lemma_log_then(l0, l1.last(), dev.log());
    }
    let after = match got {
        Ok(b) => b,
        Err(e) => return Err(e),
    };
    if after.type_id != TYPE_DEFAULT {
        let mut m = string_of("restore unconfirmed: ");
        append_button_debug(&mut m, &after);
        return Err(HidError::BadReply(m));
    }
    Ok(after)
}

/// A confirmed button write was read back: it took exactly the acked write
/// of `(0x52, [id, 0, type_id, data])` and a read of slot `id` whose reply
/// carries `type_id` and `data`.
pub proof fn confirmed_button_write_was_read_back(
    d: ExchangeLog,
    id: u8,
    type_id: u8,
    data: u32,
    res: Result<ButtonInfo, HidError>,
)
    requires
        set_button_outcome(d, id, type_id, data, res),
        res is Ok,
    ensures
        d.len() == 2,
        long_write_of(d[0], CMD_SET_BUTTON, set_payload_spec(id, type_id, data)),
        d[0]->LongWrite_reply matches Ok((ok, _)) && ok,
        read_of(d[1], CMD_GET_BUTTON, seq![id]),
        d[1]->Read_reply matches Ok(r) && is_button_reply(r) && r[4] == type_id && be24_value(
            r[5],
            r[6],
            r[7],
        ) == data,
{
    assert(d.skip(1)[0] == d[1]);
}

/// A confirmed restore was read back: it took exactly the acked write of
/// `(0x52, [id, 0, 0, 0, 0, 0])` and a read of slot `id` whose reply carries
/// the Default type.
pub proof fn confirmed_restore_was_read_back(d: ExchangeLog, id: u8, res: Result<ButtonInfo, HidError>)
    requires
        restore_outcome(d, id, res),
        res is Ok,
    ensures
        d.len() == 2,
        long_write_of(d[0], CMD_SET_BUTTON, seq![id, 0u8, 0u8, 0u8, 0u8, 0u8]),
        d[0]->LongWrite_reply matches Ok((ok, _)) && ok,
        read_of(d[1], CMD_GET_BUTTON, seq![id]),
        d[1]->Read_reply matches Ok(r) && is_button_reply(r) && r[4] == TYPE_DEFAULT,
{
    assert(d.skip(1)[0] == d[1]);
}

/// A media key's data carries its consumer code in the top byte and 0xFF
/// in the low byte, within 24 bits; so data and code determine each other.
pub proof fn media_data_layout(code: u8)
    ensures
        media_data(code) >> 16 == code,
        media_data(code) & 0xff == 0xff,
        media_data(code) < 0x1000000,
{
    assert(((((code as u32) << 16) | 0xff) >> 16) == code as u32) by (bit_vector);
    assert(((((code as u32) << 16) | 0xff) & 0xff) == 0xff) by (bit_vector);
    assert((((code as u32) << 16) | 0xff) < 0x1000000) by (bit_vector);
}

/// Every media action's data is labelled with that action's name.
pub proof fn media_data_names_its_action(i: int)
    requires
        0 <= i < 7,
    ensures
        label_spec(TYPE_MEDIA, media_data(MEDIA_ACTIONS@[i].1)) == MEDIA_ACTIONS@[i].0@,
{
    let data = media_data(MEDIA_ACTIONS@[i].1);
    media_data_layout(MEDIA_ACTIONS@[i].1);
    lemma_tables_distinct();
    assert(MEDIA_ACTIONS@[i].1 == data >> 16);
    let j = choose|j: int| 0 <= j < 7 && #[trigger] MEDIA_ACTIONS@[j].1 == data >> 16;
    assert(MEDIA_ACTIONS@[j].1 == MEDIA_ACTIONS@[i].1);
}

/// A confirmed media assignment is the action asked for: the slot reads
/// back as a Media key labelled with the action's name, whose data holds
/// the action's consumer code in the top byte and 0xFF in the low byte.
pub proof fn media_assignment_reads_back_its_name(
    d: ExchangeLog,
    id: u8,
    action: Seq<char>,
    res: Result<ButtonInfo, HidError>,
)
    requires
        set_media_outcome(d, id, action, res),
        res is Ok,
    ensures
        media_code_of(action) is Some,
        res->Ok_0.type_id == TYPE_MEDIA,
        res->Ok_0.label@ == action,
        res->Ok_0.data >> 16 == media_code_of(action)->0,
        res->Ok_0.data & 0xff == 0xff,
{
    let i = media_name_index(action)->0;
    let code = MEDIA_ACTIONS@[i].1;
    assert(MEDIA_ACTIONS@[i].0@ == action);
    media_data_layout(code);
    media_data_names_its_action(i);
    assert(d.skip(1)[0] == d[1]);
}

} // verus!
