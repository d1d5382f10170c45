//! DPI presets read/write (cmd 0x06 read, 0x40 write). Every write reads back
//! and confirms (never trust the ACK alone).

use vstd::prelude::*;

use crate::hid::{
    added, extends, lemma_log_one, lemma_log_one_more, lemma_log_same, lemma_log_then, read_of,
    read_step, refused, write_of, write_step, ExchangeLog, Hid, HidError,
};
use crate::proto::rejection;
use crate::proto::block::le16_spec;
use crate::text::{append_hex_list, append_radix, dec, hex_list, string_of};

verus! {

pub const CMD_GET_DPI: u8 = 0x06;
pub const CMD_SET_DPI: u8 = 0x40;

pub const NUM_PRESETS: usize = 5;
pub const DPI_MIN: u16 = 50;
/// Client-side ceiling (8K sensor range). The device read-back is the real
/// guard — an out-of-range value is rejected and surfaced as an error.
pub const DPI_MAX: u16 = 26000;
pub const DPI_STEP: u16 = 50;

/// GET reply (r[0]=0xB4): r[1]=0x06 echo, r[5]=active, presets LE16 @ r[6..16].
pub const ACTIVE_OFF: usize = 5;
pub const PRESET_OFF: usize = 6;

/// Little-endian 16-bit value of two bytes.
pub fn le16(lo: u8, hi: u8) -> (v: u16)
    ensures
        v == le16_spec(lo, hi),
{
    let v = lo as u16 | ((hi as u16) << 8);
    assert(v == lo + 256 * hi) by (bit_vector)
        requires
            v == lo as u16 | ((hi as u16) << 8),
    ;
    v
}

/// Whether `r` echoes the DPI read command.
pub open spec fn is_dpi_echo(r: Seq<u8>) -> bool {
    r.len() >= 2 && r[1] == CMD_GET_DPI
}

/// The five presets a DPI reply carries.
pub open spec fn presets_of(r: Seq<u8>) -> Seq<u16> {
    Seq::new(5, |i: int| le16_spec(r[6 + 2 * i], r[7 + 2 * i]) as u16)
}

/// Decode a DPI read reply into (active byte, presets).
pub fn parse_dpi_reply(r: &[u8]) -> (res: Result<(u8, [u16; 5]), HidError>)
    ensures
        !is_dpi_echo(r@) ==> (res matches Err(HidError::BadReply(m)) && m@
            == "DPI get: unexpected reply "@ + hex_list(r@)),
        is_dpi_echo(r@) && r@.len() < 16 ==> (res matches Err(HidError::BadReply(m)) && m@
            == "DPI get: short reply ("@ + dec(r@.len()) + " bytes)"@),
        is_dpi_echo(r@) && r@.len() >= 16 ==> (res matches Ok((active, presets)) && active
            == r@[5] && presets@ == presets_of(r@)),
{
    if r.len() < 2 || r[1] != CMD_GET_DPI {
        let mut m = string_of("DPI get: unexpected reply ");
        append_hex_list(&mut m, r);
        return Err(HidError::BadReply(m));
    }
    if r.len() < PRESET_OFF + 2 * NUM_PRESETS {
        let mut m = string_of("DPI get: short reply (");
        append_radix(&mut m, r.len() as u64, 10);
        m.append(" bytes)");
        return Err(HidError::BadReply(m));
    }
    let active = r[ACTIVE_OFF];
    let presets = [le16(r[6], r[7]), le16(r[8], r[9]), le16(r[10], r[11]), le16(r[12], r[13]), le16(r[14], r[15])];
    assert(presets@ =~= presets_of(r@));
    Ok((active, presets))
}

/// What a DPI read whose reply was `b` leads to: a reply that does not echo
/// the command, or is too short, ends the operation with that refusal; else
/// `then` goes on with the active byte, the presets and the exchanges after.
pub open spec fn on_dpi<T>(
    b: Seq<u8>,
    rest: ExchangeLog,
    res: Result<T, HidError>,
    then: spec_fn(u8, Seq<u16>, ExchangeLog) -> bool,
) -> bool {
    if !is_dpi_echo(b) {
        rest.len() == 0 && refused(res, "DPI get: unexpected reply "@ + hex_list(b))
    } else if b.len() < 16 {
        rest.len() == 0 && refused(res, "DPI get: short reply ("@ + dec(b.len()) + " bytes)"@)
    } else {
        then(b[5], presets_of(b), rest)
    }
}

/// `d` starts with the DPI read (long cmd 0x06, empty payload), handled as
/// [`on_dpi`] says.
pub open spec fn dpi_step<T>(
    d: ExchangeLog,
    res: Result<T, HidError>,
    then: spec_fn(u8, Seq<u16>, ExchangeLog) -> bool,
) -> bool {
    read_step(d, CMD_GET_DPI, seq![], res, |b: Seq<u8>, rest: ExchangeLog| on_dpi(b, rest, res, then))
}

/// Returns (active byte, 5 presets): one DPI read, whose reply decides the
/// result as [`on_dpi`] says.
pub fn get_dpi<H: Hid>(dev: &mut H) -> (res: Result<(u8, [u16; 5]), HidError>)
    ensures
        extends(old(dev).log(), final(dev).log()),
        final(dev).log().len() == old(dev).log().len() + 1,
        dpi_step(
            added(old(dev).log(), final(dev).log()),
            res,
            |active: u8, presets: Seq<u16>, rest: ExchangeLog|
                rest.len() == 0 && (res matches Ok((a, p)) && a == active && p@ == presets),
        ),
{
    let ghost l0 = dev.log();
    let empty: [u8; 0] = [];
    let got = dev.get(CMD_GET_DPI, &empty);
    proof {
        assert(empty@ =~= Seq::<u8>::empty());
        lemma_log_one(l0, dev.log().last());
        assert(dev.log() =~= l0.push(dev.log().last()));
        assert(added(l0, dev.log()).skip(1) =~= Seq::<crate::hid::Exchange>::empty());
    }
    match got {
        Err(e) => Err(e),
        Ok(r) => parse_dpi_reply(r.as_slice()),
    }
}

/// SET payload (after the cmd byte): `[active, active, active, 5×LE16, count]`.
pub open spec fn set_payload_spec(active: u8, presets: Seq<u16>) -> Seq<u8> {
    seq![active, active, active] + Seq::new(10, |k: int| if k % 2 == 0 {
        (presets[k / 2] & 0xff) as u8
    } else {
        (presets[k / 2] >> 8) as u8
    }) + seq![5u8]
}

/// SET payload (after the cmd byte): `[active, active, active, 5×LE16, count]`.
/// Decoding the LE16 pairs gives the presets back.
pub fn set_payload(active: u8, presets: &[u16; 5]) -> (p: Vec<u8>)
    ensures
        p@ == set_payload_spec(active, presets@),
        p@.len() == 14,
        forall|i: int| 0 <= i < 5 ==> le16_spec(#[trigger] p@[3 + 2 * i], p@[4 + 2 * i]) == presets@[i],
{
    let mut payload: Vec<u8> = Vec::new();
    payload.push(active);
    payload.push(active);
    payload.push(active);
    let mut i: usize = 0;
    while i < 5
        invariant
            i <= 5,
            presets@.len() == 5,
            payload@.len() == 3 + 2 * i,
            payload@ =~= (seq![active, active, active] + Seq::new(10, |k: int| if k % 2 == 0 {
                (presets@[k / 2] & 0xff) as u8
            } else {
                (presets@[k / 2] >> 8) as u8
            })).subrange(0, 3 + 2 * i),
            forall|j: int| 0 <= j < i ==> le16_spec(#[trigger] payload@[3 + 2 * j], payload@[4 + 2 * j]) == presets@[j],
        decreases 5 - i,
    {
        let p = presets[i];
        let lo = (p & 0xff) as u8;
        let hi = (p >> 8) as u8;
        assert(lo + 256 * hi == p) by (bit_vector)
            requires
                lo == (p & 0xff) as u8,
                hi == (p >> 8) as u8,
        ;
        payload.push(lo);
        payload.push(hi);
        i = i + 1;
    }
    payload.push(5);
    assert(payload@ =~= set_payload_spec(active, presets@));
    payload
}

/// Message for a value outside `DPI_MIN..=DPI_MAX`.
pub open spec fn out_of_range_message(value: u16) -> Seq<char> {
    "DPI "@ + dec(value as nat) + " out of range 50..26000"@
}

/// Message for a preset index past the table.
pub open spec fn bad_index_message(index: usize) -> Seq<char> {
    "preset index "@ + dec(index as nat) + " out of range"@
}

/// What the read-back of a preset write leads to: `Ok(after)` when preset
/// `index` reads back as `value`, else `"DPI set unconfirmed: …"`.
pub open spec fn preset_confirmed(
    res: Result<[u16; 5], HidError>,
    index: usize,
    value: u16,
    after: Seq<u16>,
) -> bool {
    if after[index as int] == value {
        res matches Ok(p) && p@ == after
    } else {
        refused(
            res,
            "DPI set unconfirmed: wanted "@ + dec(value as nat) + ", read "@ + dec(
                after[index as int] as nat,
            ),
        )
    }
}

/// The exchanges of an admissible preset write: a DPI read giving (active,
/// presets); the write `(0x40, set_payload(active, presets with [index] =
/// value))`; once acked, a second DPI read whose preset `index` must be
/// `value`.
pub open spec fn set_dpi_exchanges(
    d: ExchangeLog,
    value: u16,
    index: usize,
    res: Result<[u16; 5], HidError>,
) -> bool {
    dpi_step(
        d,
        res,
        |active: u8, presets: Seq<u16>, rest: ExchangeLog|
            write_step(
                rest,
                CMD_SET_DPI,
                set_payload_spec(active, presets.update(index as int, value)),
                "DPI set"@,
                res,
                |rest2: ExchangeLog|
                    dpi_step(
                        rest2,
                        res,
                        |a: u8, after: Seq<u16>, tail: ExchangeLog|
                            tail.len() == 0 && preset_confirmed(res, index, value, after),
                    ),
            ),
    )
}

/// What a preset write does: a value or index out of range is refused with
/// nothing exchanged; else the exchanges of [`set_dpi_exchanges`].
pub open spec fn set_dpi_outcome(
    d: ExchangeLog,
    value: u16,
    index: usize,
    res: Result<[u16; 5], HidError>,
) -> bool {
    if !(DPI_MIN <= value <= DPI_MAX) {
        d.len() == 0 && refused(res, out_of_range_message(value))
    } else if index >= NUM_PRESETS {
        d.len() == 0 && refused(res, bad_index_message(index))
    } else {
        set_dpi_exchanges(d, value, index, res)
    }
}

/// Set preset `index` to `value`, preserving the others. Re-reads to confirm.
/// Frame (Launcher 8k_nordic): `[0x40, active, active, active, 5×LE16, count]`.
/// A value or index out of range is refused before any transfer.
pub fn set_dpi<H: Hid>(dev: &mut H, value: u16, index: usize) -> (res: Result<[u16; 5], HidError>)
    ensures
        !(DPI_MIN <= value <= DPI_MAX) ==> (refused(res, out_of_range_message(value))
            && *final(dev) == *old(dev)),
        DPI_MIN <= value <= DPI_MAX && index >= NUM_PRESETS ==> (refused(
            res,
            bad_index_message(index),
        ) && *final(dev) == *old(dev)),
        extends(old(dev).log(), final(dev).log()),
        set_dpi_outcome(added(old(dev).log(), final(dev).log()), value, index, res),
        res matches Ok(after) ==> index < NUM_PRESETS && after@[index as int] == value,
{
    proof {
        lemma_log_same(dev.log());
    }
    if !(DPI_MIN <= value && value <= DPI_MAX) {
        let mut m = string_of("DPI ");
        append_radix(&mut m, value as u64, 10);
        m.append(" out of range 50..26000");
        return Err(HidError::BadReply(m));
    }
    if index >= NUM_PRESETS {
        let mut m = string_of("preset index ");
        append_radix(&mut m, index as u64, 10);
        m.append(" out of range");
        return Err(HidError::BadReply(m));
    }
    let ghost l0 = dev.log();
    let first = get_dpi(dev);
    let ghost l1 = dev.log();
    proof {
        lemma_log_one_more(l0, l1);
        lemma_log_same(l1);
        lemma_log_then(l0, l1.last(), l1);
    }
    let (active, mut presets) = match first {
        Ok(p) => p,
        Err(e) => return Err(e),
    };
    presets[index] = value;
    let payload = set_payload(active, &presets);
    let sent = dev.set(CMD_SET_DPI, payload.as_slice());
    let ghost l2 = dev.log();
    proof {
        lemma_log_same(l2);
        lemma_log_then(l1, l2.last(), l2);
        lemma_log_then(l0, l1.last(), l2);
    }
    let (ok, resp) = match sent {
        Ok(p) => p,
        Err(e) => return Err(e),
    };
    if !ok {
        return rejection("DPI set", resp.as_slice());
    }
    let second = get_dpi(dev);
    let ghost l3 = dev.log();
    proof {
        lemma_log_then(l1, l2.last(), l3);
        lemma_log_then(l0, l1.last(), l3);
    }
    let (_, after) = match second {
        Ok(p) => p,
        Err(e) => return Err(e),
    };
    if after[index] != value {
        let mut m = string_of("DPI set unconfirmed: wanted ");
        append_radix(&mut m, value as u64, 10);
        m.append(", read ");
        append_radix(&mut m, after[index] as u64, 10);
        return Err(HidError::BadReply(m));
    }
    Ok(after)
}

/// The exchanges of an admissible switch of the active stage: a DPI read
/// giving the presets; the write `(0x40, set_payload(index, presets))`;
/// once acked, a second DPI read whose active byte must be `index`.
pub open spec fn set_active_exchanges(d: ExchangeLog, index: usize, res: Result<u8, HidError>) -> bool {
    dpi_step(
        d,
        res,
        |active: u8, presets: Seq<u16>, rest: ExchangeLog|
            write_step(
                rest,
                CMD_SET_DPI,
                set_payload_spec(index as u8, presets),
                "DPI active set"@,
                res,
                |rest2: ExchangeLog|
                    dpi_step(
                        rest2,
                        res,
                        |a: u8, after: Seq<u16>, tail: ExchangeLog|
                            tail.len() == 0 && (if a as usize == index {
                                res == Ok::<u8, HidError>(a)
                            } else {
                                refused(
                                    res,
                                    "DPI active unconfirmed: wanted "@ + dec(index as nat)
                                        + ", read "@ + dec(a as nat),
                                )
                            }),
                    ),
            ),
    )
}

/// What a switch of the active stage does: an index past the table is
/// refused with nothing exchanged; else the exchanges of
/// [`set_active_exchanges`].
pub open spec fn set_active_outcome(d: ExchangeLog, index: usize, res: Result<u8, HidError>) -> bool {
    if index >= NUM_PRESETS {
        d.len() == 0 && refused(res, bad_index_message(index))
    } else {
        set_active_exchanges(d, index, res)
    }
}

/// Switch the active DPI stage to preset `index` (preserving preset values).
/// The active byte is part of the 0x40 write; re-reads to confirm.
pub fn set_active<H: Hid>(dev: &mut H, index: usize) -> (res: Result<u8, HidError>)
    ensures
        index >= NUM_PRESETS ==> (refused(res, bad_index_message(index)) && *final(dev)
            == *old(dev)),
        extends(old(dev).log(), final(dev).log()),
        set_active_outcome(added(old(dev).log(), final(dev).log()), index, res),
        res matches Ok(active) ==> active as usize == index,
{
    proof {
        lemma_log_same(dev.log());
    }
    if index >= NUM_PRESETS {
        let mut m = string_of("preset index ");
        append_radix(&mut m, index as u64, 10);
        m.append(" out of range");
        return Err(HidError::BadReply(m));
    }
    let ghost l0 = dev.log();
    let first = get_dpi(dev);
    let ghost l1 = dev.log();
    proof {
        lemma_log_one_more(l0, l1);
        lemma_log_same(l1);
        lemma_log_then(l0, l1.last(), l1);
    }
    let (_, presets) = match first {
        Ok(p) => p,
        Err(e) => return Err(e),
    };
    let payload = set_payload(index as u8, &presets);
    let sent = dev.set(CMD_SET_DPI, payload.as_slice());
    let ghost l2 = dev.log();
    proof {
        lemma_log_same(l2);
        lemma_log_then(l1, l2.last(), l2);
        lemma_log_then(l0, l1.last(), l2);
    }
    let (ok, resp) = match sent {
        Ok(p) => p,
        Err(e) => return Err(e),
    };
    if !ok {
        return rejection("DPI active set", resp.as_slice());
    }
    let second = get_dpi(dev);
    let ghost l3 = dev.log();
    proof {
        lemma_log_then(l1, l2.last(), l3);
        lemma_log_then(l0, l1.last(), l3);
    }
    let (active, _) = match second {
        Ok(p) => p,
        Err(e) => return Err(e),
    };
    if active as usize != index {
        let mut m = string_of("DPI active unconfirmed: wanted ");
        append_radix(&mut m, index as u64, 10);
        m.append(", read ");
        append_radix(&mut m, active as u64, 10);
        return Err(HidError::BadReply(m));
    }
    Ok(active)
}

/// A confirmed preset write was read back: it took exactly a DPI read, the
/// write of the presets it read with preset `index` set to `value`, and a
/// second DPI read whose preset `index` is `value`.
pub proof fn confirmed_preset_write_was_read_back(
    d: ExchangeLog,
    value: u16,
    index: usize,
    res: Result<[u16; 5], HidError>,
)
    requires
        set_dpi_outcome(d, value, index, res),
        res is Ok,
    ensures
        d.len() == 3,
        read_of(d[0], CMD_GET_DPI, seq![]),
        d[0]->Read_reply matches Ok(b0) && write_of(
            d[1],
            CMD_SET_DPI,
            set_payload_spec(b0[5], presets_of(b0).update(index as int, value)),
        ),
        read_of(d[2], CMD_GET_DPI, seq![]),
        d[2]->Read_reply matches Ok(b2) && is_dpi_echo(b2) && b2.len() >= 16 && presets_of(
            b2,
        )[index as int] == value && res->Ok_0@
            == presets_of(b2),
{
    assert(d.skip(1).skip(1)[0] == d[2]);
    assert(d.skip(1)[0] == d[1]);
}

} // verus!
