//! The 8k_nordic settings block (long cmd 0x06). `b` is the reply body with
//! the report id stripped, so `b[0] == 0x06`. Offsets verified live on
//! firmware 0.1.6.

use vstd::prelude::*;

use crate::hid::{added, extends, lemma_log_one, read_step, refused, ExchangeLog, Hid, HidError};
use crate::text::{append_hex_list, append_radix, dec, hex_list, string_of};

verus! {

pub const CMD_GET_BLOCK: u8 = 0x06;

/// Smallest body that can be fully decoded (the highest offset read is b[55]).
pub const MIN_BODY: usize = 56;

#[derive(Clone, Debug)]
pub struct Settings {
    pub profile: Profile,
    pub dpi: Dpi,
    pub polling: Polling,
    pub sensor: Sensor,
    pub debounce: Debounce,
    pub scroll: Scroll,
    pub sleep_min: u8,
    pub battery: Battery,
    pub wake: Wake,
    pub support_flags: u8,
}

#[derive(Clone, Debug)]
pub struct Profile {
    pub current: u8,
    pub count: u8,
}

#[derive(Clone, Debug)]
pub struct Dpi {
    pub active_levels: [u8; 3],
    pub presets: [u16; 5],
    pub count: u8,
    pub max: u16,
    pub step: u8,
}

#[derive(Clone, Debug)]
pub struct Polling {
    pub levels: [u8; 3],
    pub rate_codes: Vec<u8>,
    pub count: u8,
}

#[derive(Clone, Debug)]
pub struct Sensor {
    pub lod: u8,
    pub wave: u8,
    pub line: u8,
    pub motion_sync: u8,
    pub scroll_dir: u8,
    pub fps20k: u8,
    pub angle: i16,
}

#[derive(Clone, Debug)]
pub struct Debounce {
    pub value: u8,
    pub values: [u8; 10],
}

#[derive(Clone, Debug)]
pub struct Scroll {
    pub speed: u8,
    pub inertia: u8,
    pub spl: u8,
}

#[derive(Clone, Debug)]
pub struct Battery {
    pub percent: u8,
    pub charging: bool,
}

#[derive(Clone, Debug)]
pub struct Wake {
    pub key: bool,
    pub scroll: bool,
    pub mv: bool,
    pub side_scroll: bool,
}

/// Little-endian 16-bit value of two bytes.
pub open spec fn le16_spec(lo: u8, hi: u8) -> int {
    lo + 256 * hi
}

/// Little-endian 16-bit value at offset `o` of `b`.
pub open spec fn le16_at(b: Seq<u8>, o: int) -> int {
    le16_spec(b[o], b[o + 1])
}

/// Signed angle byte: values above 90 are negative (two's complement).
pub open spec fn angle_of(v: u8) -> int {
    if v > 90 {
        v - 256
    } else {
        v as int
    }
}

/// `s` is exactly what the block body `b` encodes.
pub open spec fn decodes(s: Settings, b: Seq<u8>) -> bool {
    &&& s.profile.current == b[1]
    &&& s.profile.count == b[50]
    &&& s.dpi.active_levels@ == seq![b[2] & 15, b[3] & 15, b[4] & 15]
    &&& s.dpi.presets@.len() == 5
    &&& forall|i: int| 0 <= i < 5 ==> s.dpi.presets@[i] == le16_at(b, 5 + 2 * i)
    &&& s.dpi.count == b[16]
    &&& s.dpi.max == le16_at(b, 40)
    &&& s.dpi.step == (if b[42] == 0 { 50 } else { b[42] })
    &&& s.polling.levels@ == seq![b[2] >> 4, b[3] >> 4, b[4] >> 4]
    &&& s.polling.rate_codes@ == b.subrange(43, 49)
    &&& s.polling.count == (if b[49] == 0 { 6 } else { b[49] })
    &&& s.sensor.lod == b[15] & 3
    &&& s.sensor.wave == (b[15] >> 2) & 1
    &&& s.sensor.line == (b[15] >> 3) & 1
    &&& s.sensor.motion_sync == (b[15] >> 4) & 1
    &&& s.sensor.scroll_dir == (b[15] >> 6) & 1
    &&& s.sensor.fps20k == b[52] & 1
    &&& s.sensor.angle == angle_of(b[55])
    &&& s.debounce.value == b[17]
    &&& s.debounce.values@ == b.subrange(30, 40)
    &&& s.scroll.speed == b[27]
    &&& s.scroll.inertia == b[28]
    &&& s.scroll.spl == b[29]
    &&& s.sleep_min == b[18]
    &&& s.battery.percent == b[19] & 127
    &&& s.battery.charging == (b[19] >> 7 == 1)
    &&& s.wake.key == ((b[51] >> 4) & 1 == 1)
    &&& s.wake.scroll == ((b[51] >> 5) & 1 == 1)
    &&& s.wake.mv == ((b[51] >> 6) & 1 == 1)
    &&& s.wake.side_scroll == ((b[51] >> 7) & 1 == 1)
    &&& s.support_flags == b[26]
}

/// Message for a body shorter than [`MIN_BODY`].
pub open spec fn too_short_message(len: nat) -> Seq<char> {
    "block too short: "@ + dec(len) + " bytes (need 56)"@
}

/// Message for a reply that does not echo the block command.
pub open spec fn unexpected_reply_message(r: Seq<u8>) -> Seq<char> {
    "block read: unexpected reply "@ + hex_list(r)
}

/// Whether `r` is a reply to the block read (report id, then the 0x06 echo).
pub open spec fn is_block_reply(r: Seq<u8>) -> bool {
    r.len() >= 2 && r[1] == CMD_GET_BLOCK
}

fn le16(b: &[u8], o: usize) -> (v: u16)
    requires
        o + 1 < b@.len(),
    ensures
        v == le16_at(b@, o as int),
{
    let lo = b[o];
    let hi = b[o + 1];
    let v = lo as u16 | ((hi as u16) << 8);
    assert(v == lo + 256 * hi) by (bit_vector)
        requires
            v == lo as u16 | ((hi as u16) << 8),
    ;
    v
}

/// Decode a block body. Errors exactly when the body is shorter than
/// [`MIN_BODY`] bytes.
pub fn parse(b: &[u8]) -> (r: Result<Settings, HidError>)
    ensures
        b@.len() < MIN_BODY <==> r is Err,
        r matches Err(e) ==> e matches HidError::BadReply(m) && m@ == too_short_message(
            b@.len(),
        ),
        r matches Ok(s) ==> decodes(s, b@),
{
    if b.len() < MIN_BODY {
        let mut m = string_of("block too short: ");
        append_radix(&mut m, b.len() as u64, 10);
        m.append(" bytes (need 56)");
        return Err(HidError::BadReply(m));
    }
    let angle: i16 = if b[55] > 90 {
        b[55] as i16 - 256
    } else {
        b[55] as i16
    };
    let presets = [le16(b, 5), le16(b, 7), le16(b, 9), le16(b, 11), le16(b, 13)];
    let rate_codes = vec![b[43], b[44], b[45], b[46], b[47], b[48]];
    let values = [b[30], b[31], b[32], b[33], b[34], b[35], b[36], b[37], b[38], b[39]];
    let s = Settings {
        profile: Profile { current: b[1], count: b[50] },
        dpi: Dpi {
            active_levels: [b[2] & 15, b[3] & 15, b[4] & 15],
            presets,
            count: b[16],
            max: le16(b, 40),
            step: if b[42] == 0 {
                50
            } else {
                b[42]
            },
        },
        polling: Polling {
            levels: [b[2] >> 4, b[3] >> 4, b[4] >> 4],
            rate_codes,
            count: if b[49] == 0 {
                6
            } else {
                b[49]
            },
        },
        sensor: Sensor {
            lod: b[15] & 3,
            wave: (b[15] >> 2) & 1,
            line: (b[15] >> 3) & 1,
            motion_sync: (b[15] >> 4) & 1,
            scroll_dir: (b[15] >> 6) & 1,
            fps20k: b[52] & 1,
            angle,
        },
        debounce: Debounce { value: b[17], values },
        scroll: Scroll { speed: b[27], inertia: b[28], spl: b[29] },
        sleep_min: b[18],
        battery: Battery { percent: b[19] & 127, charging: b[19] >> 7 == 1 },
        wake: Wake {
            key: (b[51] >> 4) & 1 == 1,
            scroll: (b[51] >> 5) & 1 == 1,
            mv: (b[51] >> 6) & 1 == 1,
            side_scroll: (b[51] >> 7) & 1 == 1,
        },
        support_flags: b[26],
    };
    assert(s.polling.rate_codes@ =~= b@.subrange(43, 49));
    assert(s.debounce.values@ =~= b@.subrange(30, 40));
    assert(s.dpi.active_levels@ =~= seq![b@[2] & 15, b@[3] & 15, b@[4] & 15]);
    assert(s.polling.levels@ =~= seq![b@[2] >> 4, b@[3] >> 4, b@[4] >> 4]);
    Ok(s)
}

/// Decode a full block reply (`r[0]` is the report id). Errors when the reply
/// does not echo the block command or the body is too short.
pub fn parse_reply(r: &[u8]) -> (res: Result<Settings, HidError>)
    ensures
        !is_block_reply(r@) ==> (res matches Err(HidError::BadReply(m))
            && m@ == unexpected_reply_message(r@)),
        is_block_reply(r@) && r@.len() - 1 < MIN_BODY ==> (res matches Err(HidError::BadReply(m))
            && m@ == too_short_message((r@.len() - 1) as nat)),
        is_block_reply(r@) && r@.len() - 1 >= MIN_BODY ==> (res matches Ok(s) && decodes(
            s,
            r@.skip(1),
        )),
{
    if r.len() < 2 || r[1] != CMD_GET_BLOCK {
        let mut m = string_of("block read: unexpected reply ");
        append_hex_list(&mut m, r);
        return Err(HidError::BadReply(m));
    }
    let body = &r[1..r.len()];
    assert(body@ =~= r@.skip(1));
    parse(body)
}

/// `s` is the decoding of some well-formed block reply.
pub open spec fn block_read(s: Settings) -> bool {
    exists|reply: Seq<u8>|
        is_block_reply(reply) && reply.len() - 1 >= MIN_BODY && decodes(s, #[trigger] reply.skip(1))
}

/// What a block read whose reply was `b` leads to: a reply that is not a
/// block, or is too short, ends the operation with that refusal; a decoded
/// block goes on with `then`, given the settings and the exchanges after it.
pub open spec fn on_block<T>(
    b: Seq<u8>,
    rest: ExchangeLog,
    res: Result<T, HidError>,
    then: spec_fn(Settings, ExchangeLog) -> bool,
) -> bool {
    if !is_block_reply(b) {
        rest.len() == 0 && refused(res, unexpected_reply_message(b))
    } else if b.len() - 1 < MIN_BODY {
        rest.len() == 0 && refused(res, too_short_message((b.len() - 1) as nat))
    } else {
        exists|s: Settings| #[trigger] decodes(s, b.skip(1)) && then(s, rest)
    }
}

/// `d` starts with the block read (long cmd 0x06, empty payload), handled
/// as [`on_block`] says.
pub open spec fn block_step<T>(
    d: ExchangeLog,
    res: Result<T, HidError>,
    then: spec_fn(Settings, ExchangeLog) -> bool,
) -> bool {
    read_step(d, CMD_GET_BLOCK, seq![], res, |b: Seq<u8>, rest: ExchangeLog| on_block(b, rest, res, then))
}

/// The exchanges of a settings read: one block read, whose reply decides
/// the result as [`on_block`] says.
pub open spec fn read_all_outcome(d: ExchangeLog, r: Result<Settings, HidError>) -> bool {
    block_step(d, r, |s: Settings, rest: ExchangeLog| rest.len() == 0 && r == Ok::<Settings, HidError>(s))
}

/// Read and decode the settings block: one block read, whose reply decides
/// the result as [`on_block`] says.
pub fn read_all<H: Hid>(dev: &mut H) -> (r: Result<Settings, HidError>)
    ensures
        extends(old(dev).log(), final(dev).log()),
        final(dev).log().len() == old(dev).log().len() + 1,
        read_all_outcome(added(old(dev).log(), final(dev).log()), r),
        r matches Ok(s) ==> block_read(s),
{
    let ghost l0 = dev.log();
    let empty: [u8; 0] = [];
    let got = dev.get(CMD_GET_BLOCK, &empty);
    proof {
        assert(empty@ =~= Seq::<u8>::empty());
        lemma_log_one(l0, dev.log().last());
        assert(dev.log() =~= l0.push(dev.log().last()));
    }
    match got {
        Err(e) => Err(e),
        Ok(r) => {
            let res = parse_reply(r.as_slice());
            proof {
                let d = added(l0, dev.log());
                assert(d.skip(1) =~= Seq::<crate::hid::Exchange>::empty());
            }
            res
        },
    }
}

} // verus!
