//! Macro upload (cmd 0x54, chunked via 0x71). One 0x54 frame uploads the
//! macro AND binds it to the button (type -> Macro).
//! Event = [flag, code, delay_lo, delay_hi], flag = press(0x80) | class.

use vstd::prelude::*;

use crate::hid::{
    added, extends, lemma_log_chain, lemma_log_push, lemma_log_same, lemma_log_then,
    long_write_step, raw_write_of, refused, Exchange, ExchangeLog, Hid, HidError,
};
use crate::proto::buttons::{button_debug, button_step, get_button, ButtonInfo};
use crate::proto::rejection;
use crate::text::{append_hex_list, append_radix, dec, hex_list, string_of};

verus! {

pub const CMD_SET_MACRO: u8 = 0x54;
pub const CMD_CHUNK: u8 = 0x71;
pub const CHUNK_ACK: u8 = 0x72;
/// One 0xB3 report payload.
pub const MAX_FRAME: usize = 63;
/// Bytes of the 0x54 stream per chunk (3-byte 0x71 header + 59 = 62).
pub const CHUNK_PAYLOAD: usize = 59;

pub const CLASS_KEY: u8 = 1;
pub const CLASS_MOUSE: u8 = 8;
pub const PRESS: u8 = 0x80;
pub const TYPE_MACRO: u8 = 4;
pub const LOOP_STOP_ON_RELEASE: u8 = 1;

/// Mouse buttons for click macros (name, event code).
pub const MOUSE_PALETTE: [(&'static str, u8); 5] = [
    ("left", 1),
    ("right", 2),
    ("middle", 3),
    ("backward", 4),
    ("forward", 5),
];

/// HID keyboard usage of a character the text helper supports.
pub open spec fn keycode_spec(ch: char) -> Option<u8> {
    if 'a' <= ch <= 'z' {
        Some((0x04 + (ch as int - 'a' as int)) as u8)
    } else if '1' <= ch <= '9' {
        Some((0x1e + (ch as int - '1' as int)) as u8)
    } else if ch == '0' {
        Some(0x27u8)
    } else if ch == ' ' {
        Some(0x2cu8)
    } else if ch == '\n' {
        Some(0x28u8)
    } else if ch == '\t' {
        Some(0x2bu8)
    } else if ch == '-' {
        Some(0x2du8)
    } else if ch == '=' {
        Some(0x2eu8)
    } else {
        None
    }
}

/// Minimal HID usage map for the text helper (lowercase letters/digits/space…).
pub fn keycode(ch: char) -> (r: Option<u8>)
    ensures
        r == keycode_spec(ch),
{
    if 'a' <= ch && ch <= 'z' {
        Some((0x04 + (ch as u32 - 'a' as u32)) as u8)
    } else if '1' <= ch && ch <= '9' {
        Some((0x1e + (ch as u32 - '1' as u32)) as u8)
    } else if ch == '0' {
        Some(0x27)
    } else if ch == ' ' {
        Some(0x2c)
    } else if ch == '\n' {
        Some(0x28)
    } else if ch == '\t' {
        Some(0x2b)
    } else if ch == '-' {
        Some(0x2d)
    } else if ch == '=' {
        Some(0x2e)
    } else {
        None
    }
}

/// One 4-byte macro event.
pub open spec fn event_spec(class: u8, code: u8, press: bool, delay: u16) -> Seq<u8> {
    seq![
        if press { (PRESS | class) as u8 } else { class },
        code,
        (delay & 0xff) as u8,
        (delay >> 8) as u8,
    ]
}

/// One 4-byte macro event.
pub fn event(class: u8, code: u8, press: bool, delay: u16) -> (e: [u8; 4])
    ensures
        e@ == event_spec(class, code, press, delay),
{
    let flag = if press {
        PRESS | class
    } else {
        class
    };
    let e = [flag, code, (delay & 0xff) as u8, (delay >> 8) as u8];
    assert(e@ =~= event_spec(class, code, press, delay));
    e
}

/// Press + release events (8 bytes) of `code` in `class`, no delay.
pub open spec fn tap_spec(class: u8, code: u8) -> Seq<u8> {
    seq![(PRESS | class) as u8, code, 0u8, 0u8, class, code, 0u8, 0u8]
}

/// Concatenated taps of each code.
pub open spec fn taps_spec(class: u8, codes: Seq<u8>) -> Seq<u8>
    decreases codes.len(),
{
    if codes.len() == 0 {
        Seq::empty()
    } else {
        taps_spec(class, codes.drop_last()) + tap_spec(class, codes.last())
    }
}

pub proof fn lemma_taps_len(class: u8, codes: Seq<u8>)
    ensures
        taps_spec(class, codes).len() == 8 * codes.len(),
    decreases codes.len(),
{
    if codes.len() > 0 {
        lemma_taps_len(class, codes.drop_last());
    }
}

fn push_tap(out: &mut Vec<u8>, class: u8, code: u8)
    ensures
        final(out)@ == old(out)@ + tap_spec(class, code),
{
    let down = event(class, code, true, 0);
    let up = event(class, code, false, 0);
    assert(0u16 & 0xff == 0 && 0u16 >> 8 == 0) by (bit_vector);
    let ghost start = out@;
    out.push(down[0]);
    out.push(down[1]);
    out.push(down[2]);
    out.push(down[3]);
    out.push(up[0]);
    out.push(up[1]);
    out.push(up[2]);
    out.push(up[3]);
    assert(out@ =~= start + tap_spec(class, code));
}

/// Click events (press + release) for each mouse button code.
pub fn click_events(codes: &[u8]) -> (out: Vec<u8>)
    ensures
        out@ == taps_spec(CLASS_MOUSE, codes@),
        out@.len() == 8 * codes@.len(),
{
    let mut out: Vec<u8> = Vec::new();
    let mut i: usize = 0;
    while i < codes.len()
        invariant
            i <= codes@.len(),
            out@ == taps_spec(CLASS_MOUSE, codes@.subrange(0, i as int)),
        decreases codes@.len() - i,
    {
        push_tap(&mut out, CLASS_MOUSE, codes[i]);
        assert(codes@.subrange(0, i + 1).drop_last() =~= codes@.subrange(0, i as int));
        i = i + 1;
    }
    assert(codes@.subrange(0, codes@.len() as int) =~= codes@);
    proof {
        lemma_taps_len(CLASS_MOUSE, codes@);
    }
    out
}

/// Keycodes of `chars` when every one is supported.
pub open spec fn all_keycodes(chars: Seq<char>) -> bool {
    forall|i: int| 0 <= i < chars.len() ==> keycode_spec(#[trigger] chars[i]) is Some
}

/// The keycodes of `chars` (each supported).
pub open spec fn keycodes_of(chars: Seq<char>) -> Seq<u8> {
    Seq::new(chars.len(), |i: int| keycode_spec(chars[i])->0)
}

/// Index of the first unsupported character.
pub open spec fn first_unsupported(chars: Seq<char>) -> int {
    choose|i: int|
        0 <= i < chars.len() && keycode_spec(#[trigger] chars[i]) is None && forall|k: int|
            0 <= k < i ==> keycode_spec(chars[k]) is Some
}

/// `text` lower-cased by `str::to_lowercase` (Unicode case mapping).
pub uninterp spec fn lowercase_text(text: Seq<char>) -> Seq<char>;

/// `ch` as `{:?}` prints a `char` (quoted, with escapes).
pub uninterp spec fn char_debug_text(ch: char) -> Seq<char>;

/// `c` with an ASCII capital letter made small.
pub open spec fn ascii_lower(c: char) -> char {
    if 'A' <= c <= 'Z' {
        ((c as u32) + 32) as char
    } else {
        c
    }
}

/// Every character of `t` is ASCII.
pub open spec fn is_ascii_text(t: Seq<char>) -> bool {
    forall|i: int| 0 <= i < t.len() ==> (t[i] as u32) < 128
}

/// Lower-cases `text` with `str::to_lowercase`.
/// Trusted: the result is the Unicode lowercase mapping of `text`, named
/// `lowercase_text`, and on ASCII text it makes each capital letter small
/// and keeps every other character (the Unicode lowercase mapping of an
/// ASCII character is its ASCII lowercase). The mapping of other characters
/// is not stated.
#[verifier::external_body]
fn lowercase(text: &str) -> (r: String)
    ensures
        r@ == lowercase_text(text@),
        is_ascii_text(text@) ==> r@ == text@.map_values(|c: char| ascii_lower(c)),
{
    text.to_lowercase()
}

/// Renders `ch` with `char`'s `Debug` (`{:?}`).
/// Trusted: the result is `char_debug_text(ch)`; the escaping rules are not
/// stated.
#[verifier::external_body]
fn char_debug(ch: char) -> (r: String)
    ensures
        r@ == char_debug_text(ch),
{
    format!("{ch:?}")
}

/// Tap events for already lower-cased text. Errors on the first unsupported
/// character.
pub fn text_events_lower(lower: &str) -> (res: Result<Vec<u8>, HidError>)
    ensures
        all_keycodes(lower@) ==> (res matches Ok(v) && v@ == taps_spec(CLASS_KEY, keycodes_of(lower@))),
        !all_keycodes(lower@) ==> (res matches Err(HidError::BadReply(m)) && m@ == "no keycode for "@
            + char_debug_text(lower@[first_unsupported(lower@)])),
{
    let n = lower.unicode_len();
    let mut out: Vec<u8> = Vec::new();
    let mut i: usize = 0;
    while i < n
        invariant
            n == lower@.len(),
            i <= n,
            forall|k: int| 0 <= k < i ==> keycode_spec(#[trigger] lower@[k]) is Some,
            out@ == taps_spec(CLASS_KEY, keycodes_of(lower@.subrange(0, i as int))),
        decreases n - i,
    {
        let ch = lower.get_char(i);
        match keycode(ch) {
            Some(kc) => {
                push_tap(&mut out, CLASS_KEY, kc);
                let ghost pre = keycodes_of(lower@.subrange(0, i as int));
                let ghost post = keycodes_of(lower@.subrange(0, i + 1));
                assert(post.drop_last() =~= pre);
                i = i + 1;
            },
            None => {
                proof {
                    let c = first_unsupported(lower@);
                    assert(keycode_spec(lower@[i as int]) is None);
                    assert(c == i);
                }
                let mut m = string_of("no keycode for ");
                let d = char_debug(ch);
                m.append(d.as_str());
                return Err(HidError::BadReply(m));
            },
        }
    }
    assert(lower@.subrange(0, n as int) =~= lower@);
    Ok(out)
}

/// Tap events for a typed string (lower-cased first). Errors on an
/// unsupported character.
pub fn text_events(text: &str) -> (res: Result<Vec<u8>, HidError>)
    ensures
        is_ascii_text(text@) ==> lowercase_text(text@) == text@.map_values(|c: char| ascii_lower(c)),
        all_keycodes(lowercase_text(text@)) ==> (res matches Ok(v) && v@ == taps_spec(
            CLASS_KEY,
            keycodes_of(lowercase_text(text@)),
        )),
        !all_keycodes(lowercase_text(text@)) ==> (res matches Err(HidError::BadReply(m)) && m@
            == "no keycode for "@ + char_debug_text(
            lowercase_text(text@)[first_unsupported(lowercase_text(text@))],
        )),
{
    let lower = lowercase(text);
    text_events_lower(lower.as_str())
}

/// Whether an event list fits one macro frame's length byte.
pub open spec fn frame_fits(events_len: nat) -> bool {
    ((events_len / 4) as u8) <= 62
}

/// The 0x54 frame: `[0x54, id, 0, len, 0, loopCount, loopType, 0x20, 0, 0,
/// n_events, 0, <events>]`, `len = 6 + 4*n_events`.
pub open spec fn frame_spec(id: u8, events: Seq<u8>, loop_count: u8, loop_type: u8) -> Seq<u8> {
    let n = (events.len() / 4) as u8;
    seq![CMD_SET_MACRO, id, 0u8, (6 + 4 * n) as u8, 0u8, loop_count, loop_type, 0x20u8, 0u8, 0u8, n, 0u8]
        + events
}

/// The 0x54 frame for `events`.
pub fn build_frame(id: u8, events: &[u8], loop_count: u8, loop_type: u8) -> (f: Vec<u8>)
    requires
        frame_fits(events@.len()),
    ensures
        f@ == frame_spec(id, events@, loop_count, loop_type),
        f@.len() == 12 + events@.len(),
{
    let n = (events.len() / 4) as u8;
    let length = 6 + 4 * n;
    let mut f = vec![
        CMD_SET_MACRO,
        id,
        0x00,
        length,
        0x00,
        loop_count,
        loop_type,
        0x20,
        0x00,
        0x00,
        n,
        0x00,
    ];
    let ghost head = f@;
    let mut i: usize = 0;
    while i < events.len()
        invariant
            i <= events@.len(),
            f@ == head + events@.subrange(0, i as int),
        decreases events@.len() - i,
    {
        f.push(events[i]);
        i = i + 1;
        assert(f@ =~= head + events@.subrange(0, i as int));
    }
    assert(events@.subrange(0, events@.len() as int) =~= events@);
    assert(f@ =~= frame_spec(id, events@, loop_count, loop_type));
    f
}

/// Number of 0x71 chunks a frame of `len` bytes is split into.
pub open spec fn chunk_count(len: nat) -> nat {
    ((len + 58) / 59) as nat
}

/// End offset of chunk `k` of a frame of `len` bytes.
pub open spec fn chunk_end(len: nat, k: nat) -> nat {
    if 59 * k + 59 <= len {
        59 * k + 59
    } else {
        len
    }
}

/// The 0x71 payload of chunk `k`: `[0x71, seq, n] + frame[59k .. end]`,
/// `seq = 1 + offset/16`.
pub open spec fn chunk_spec(frame: Seq<u8>, k: nat) -> Seq<u8> {
    let off = 59 * k;
    let end = chunk_end(frame.len(), k);
    seq![CMD_CHUNK, (1 + off / 16) as u8, (end - off) as u8] + frame.subrange(off as int, end as int)
}

/// Concatenated bodies (headers dropped) of the first `k` chunks.
pub open spec fn chunk_bodies(chunks: Seq<Seq<u8>>, k: nat) -> Seq<u8>
    decreases k,
{
    if k == 0 {
        Seq::empty()
    } else {
        chunk_bodies(chunks, (k - 1) as nat) + chunks[k - 1].skip(3)
    }
}

/// Split a frame into its 0x71 chunk payloads. The chunk bodies, in order,
/// are exactly the frame.
pub fn chunk_payloads(frame: &[u8]) -> (chunks: Vec<Vec<u8>>)
    requires
        frame@.len() + 118 <= usize::MAX,
    ensures
        chunks@.len() == chunk_count(frame@.len()),
        forall|k: int| 0 <= k < chunks@.len() ==> (#[trigger] chunks@[k])@ == chunk_spec(frame@, k as nat),
        chunk_bodies(chunks@.map_values(|c: Vec<u8>| c@), chunks@.len()) == frame@,
{
    let len = frame.len();
    let mut chunks: Vec<Vec<u8>> = Vec::new();
    let mut off: usize = 0;
    let mut k: usize = 0;
    while off < len
        invariant
            len == frame@.len(),
            len + 118 <= usize::MAX,
            off == 59 * k,
            off <= len + 58,
            k <= chunk_count(len as nat),
            off < len ==> k < chunk_count(len as nat),
            off >= len ==> k == chunk_count(len as nat),
            chunks@.len() == k,
            forall|j: int| 0 <= j < k ==> (#[trigger] chunks@[j])@ == chunk_spec(frame@, j as nat),
            chunk_bodies(chunks@.map_values(|c: Vec<u8>| c@), k as nat) == frame@.subrange(
                0,
                if off <= len { off as int } else { len as int },
            ),
        decreases len + 59 - off,
    {
        let end = if off + CHUNK_PAYLOAD <= len {
            off + CHUNK_PAYLOAD
        } else {
            len
        };
        let size = (end - off) as u8;
        let seq_no = (1 + off / 16) as u8;
        let mut payload: Vec<u8> = vec![CMD_CHUNK, seq_no, size];
        let ghost head = payload@;
        let mut j = off;
        while j < end
            invariant
                off <= j <= end,
                end <= frame@.len(),
                payload@ == head + frame@.subrange(off as int, j as int),
            decreases end - j,
        {
            payload.push(frame[j]);
            j = j + 1;
            assert(payload@ =~= head + frame@.subrange(off as int, j as int));
        }
        assert(payload@ =~= chunk_spec(frame@, k as nat));
        let ghost before = chunks@;
        chunks.push(payload);
        proof {
            let mapped = chunks@.map_values(|c: Vec<u8>| c@);
            let mapped_before = before.map_values(|c: Vec<u8>| c@);
            assert forall|t: nat| t <= k implies chunk_bodies(mapped, t) == chunk_bodies(
                mapped_before,
                t,
            ) by {
                lemma_bodies_prefix(mapped, mapped_before, t);
            }
            assert(mapped[k as int] == chunk_spec(frame@, k as nat));
            assert(chunk_spec(frame@, k as nat).skip(3) =~= frame@.subrange(off as int, end as int));
            assert(frame@.subrange(0, off as int) + frame@.subrange(off as int, end as int)
                =~= frame@.subrange(0, end as int));
        }
        off = off + CHUNK_PAYLOAD;
        k = k + 1;
        assert(off < len ==> k < chunk_count(len as nat)) by (nonlinear_arith)
            requires
                off == 59 * k,
        ;
        assert(off >= len ==> k == chunk_count(len as nat)) by (nonlinear_arith)
            requires
                off == 59 * k,
                off < len + 59,
        ;
    }
    assert(frame@.subrange(0, len as int) =~= frame@);
    chunks
}

proof fn lemma_bodies_prefix(a: Seq<Seq<u8>>, b: Seq<Seq<u8>>, t: nat)
    requires
        t <= b.len(),
        b.len() <= a.len(),
        forall|i: int| 0 <= i < b.len() ==> a[i] == b[i],
    ensures
        chunk_bodies(a, t) == chunk_bodies(b, t),
    decreases t,
{
    if t > 0 {
        lemma_bodies_prefix(a, b, (t - 1) as nat);
    }
}

/// The read-back check of a macro upload: the slot must now be a macro of
/// the uploaded `length`.
pub open spec fn macro_confirmed(res: Result<ButtonInfo, HidError>, length: u8, after: ButtonInfo) -> bool {
    if after.type_id == TYPE_MACRO && after.data == length as u32 {
        res == Ok::<ButtonInfo, HidError>(after)
    } else {
        refused(
            res,
            "macro set unconfirmed (want len "@ + dec(length as nat) + "): "@ + button_debug(after),
        )
    }
}

/// `d` is the read-back of slot `id` after an upload of a frame of `length`.
pub open spec fn macro_readback(d: ExchangeLog, id: u8, length: u8, res: Result<ButtonInfo, HidError>) -> bool {
    button_step(
        d,
        id,
        res,
        |after: ButtonInfo, tail: ExchangeLog| tail.len() == 0 && macro_confirmed(res, length, after),
    )
}

/// `d` holds the raw writes of the chunks of `frame` from chunk `k` on,
/// in order, each of which must be acked; the first failure ends the
/// upload; after the last chunk comes the read-back of slot `id`.
pub open spec fn chunks_from(
    d: ExchangeLog,
    frame: Seq<u8>,
    k: nat,
    id: u8,
    res: Result<ButtonInfo, HidError>,
) -> bool
    decreases chunk_count(frame.len()) - k,
{
    if k >= chunk_count(frame.len()) {
        macro_readback(d, id, frame[3], res)
    } else {
        d.len() >= 1 && raw_write_of(d[0], chunk_spec(frame, k)) && match d[0]->RawWrite_reply {
            Err(e) => d.len() == 1 && res == Err::<ButtonInfo, HidError>(e),
            Ok(resp) => if chunk_acked(resp) {
                chunks_from(d.skip(1), frame, k + 1, id, res)
            } else {
                d.len() == 1 && refused(
                    res,
                    "macro chunk @"@ + dec(59 * k) + " rejected: "@ + hex_list(resp),
                )
            },
        }
    }
}

/// `x` is the raw write of chunk `k` of `frame`, and was acked.
pub open spec fn acked_chunk(x: Exchange, frame: Seq<u8>, k: nat) -> bool {
    raw_write_of(x, chunk_spec(frame, k)) && (x->RawWrite_reply matches Ok(resp) && chunk_acked(
        resp,
    ))
}

/// `p` is the acked raw writes of chunks `j..j + p.len()` of `frame`.
pub open spec fn acked_chunks(p: ExchangeLog, frame: Seq<u8>, j: nat) -> bool {
    forall|i: int| 0 <= i < p.len() ==> acked_chunk(#[trigger] p[i], frame, (j + i) as nat)
}

/// Acked chunks before what follows them: the whole is the upload from
/// chunk `j`.
proof fn lemma_chunks_prefix(
    p: ExchangeLog,
    q: ExchangeLog,
    frame: Seq<u8>,
    j: nat,
    id: u8,
    res: Result<ButtonInfo, HidError>,
)
    requires
        acked_chunks(p, frame, j),
        j + p.len() <= chunk_count(frame.len()),
        chunks_from(q, frame, j + p.len(), id, res),
    ensures
        chunks_from(p + q, frame, j, id, res),
    decreases p.len(),
{
    if p.len() == 0 {
        assert(p + q =~= q);
    } else {
        let tail = p.skip(1);
        assert forall|i: int| 0 <= i < tail.len() implies acked_chunk(
            #[trigger] tail[i],
            frame,
            (j + 1 + i) as nat,
        ) by {
            assert(tail[i] == p[i + 1]);
        }
        lemma_chunks_prefix(tail, q, frame, j + 1, id, res);
        assert((p + q)[0] == p[0]);
        assert((p + q).skip(1) =~= tail + q);
    }
}

/// The exchanges of a macro upload of `frame` to slot `id`: a frame that
/// fits one report goes as one long-channel write `(0x54, frame[1..])`,
/// which must be acked; a longer one as its 0x71 chunks ([`chunks_from`]).
/// Then the read-back of slot `id`.
pub open spec fn set_macro_exchanges(
    d: ExchangeLog,
    frame: Seq<u8>,
    id: u8,
    res: Result<ButtonInfo, HidError>,
) -> bool {
    if frame.len() <= MAX_FRAME {
        long_write_step(
            d,
            CMD_SET_MACRO,
            frame.skip(1),
            "macro"@,
            res,
            |rest: ExchangeLog| macro_readback(rest, id, frame[3], res),
        )
    } else {
        chunks_from(d, frame, 0, id, res)
    }
}

/// Upload `events` to `button_id` (binds the button to the macro). Re-reads
/// to confirm the button became a macro of the uploaded length. Frames over
/// one report are sent as 0x71 chunks.
pub fn set_macro<H: Hid>(dev: &mut H, button_id: u8, events: &[u8]) -> (res: Result<
    ButtonInfo,
    HidError,
>)
    requires
        frame_fits(events@.len()),
        events@.len() + 130 <= usize::MAX,
    ensures
        extends(old(dev).log(), final(dev).log()),
        set_macro_exchanges(
            added(old(dev).log(), final(dev).log()),
            frame_spec(button_id, events@, 1, LOOP_STOP_ON_RELEASE),
            button_id,
            res,
        ),
        res matches Ok(b) ==> b.id == button_id && b.type_id == TYPE_MACRO && b.data == frame_spec(
            button_id,
            events@,
            1,
            LOOP_STOP_ON_RELEASE,
        )[3],
{
    let ghost l0 = dev.log();
    let frame = build_frame(button_id, events, 1, LOOP_STOP_ON_RELEASE);
    let length = frame[3];
    if frame.len() <= MAX_FRAME {
        let rest = &frame.as_slice()[1..frame.len()];
        let sent = dev.long_set(frame[0], rest);
        let ghost l1 = dev.log();
        proof {
            assert(rest@ =~= frame@.skip(1));
            lemma_log_same(l1);
            lemma_log_then(l0, l1.last(), l1);
        }
        let (ok, resp) = match sent {
            Ok(p) => p,
            Err(e) => return Err(e),
        };
        if !ok {
            return rejection("macro", resp.as_slice());
        }
        let got = get_button(dev, button_id);
        proof {
            lemma_log_then(l0, l1.last(), dev.log());
        }
        let after = match got {
            Ok(b) => b,
            Err(e) => return Err(e),
        };
        macro_confirm(length, after)
    } else {
        let chunks = chunk_payloads(frame.as_slice());
        let mut k: usize = 0;
        proof {
            lemma_log_same(l0);
        }
        while k < chunks.len()
            invariant
                k <= chunks@.len(),
                chunks@.len() == chunk_count(frame@.len()),
                forall|j: int| 0 <= j < chunks@.len() ==> (#[trigger] chunks@[j])@ == chunk_spec(frame@, j as nat),
                frame@.len() + 118 <= usize::MAX,
                frame@.len() > MAX_FRAME,
                frame@ == frame_spec(button_id, events@, 1, LOOP_STOP_ON_RELEASE),
                l0 == old(dev).log(),
                extends(l0, dev.log()),
                added(l0, dev.log()).len() == k,
                acked_chunks(added(l0, dev.log()), frame@, 0),
            decreases chunks@.len() - k,
        {
            let ghost lk = dev.log();
            let sent = dev.long_raw(chunks[k].as_slice());
            let ghost x: Exchange = dev.log().last();
            proof {
                lemma_log_push(l0, lk, x);
                assert(dev.log() == lk.push(x));
                assert(added(l0, lk).push(x) =~= added(l0, lk) + seq![x]);
            }
            assert(k * 59 <= frame@.len() + 59) by (nonlinear_arith)
                requires
                    k < chunk_count(frame@.len()),
                    chunk_count(frame@.len()) == (frame@.len() + 58) / 59,
            ;
            let resp = match sent {
                Ok(r) => r,
                Err(e) => {
                    proof {
                        lemma_chunks_prefix(added(l0, lk), seq![x], frame@, 0, button_id, Err(e));
                    }
                    return Err(e);
                },
            };
            match chunk_ack(k * CHUNK_PAYLOAD, resp.as_slice()) {
                Ok(_) => {},
                Err(e) => {
                    proof {
                        lemma_chunks_prefix(added(l0, lk), seq![x], frame@, 0, button_id, Err(e));
                    }
                    return Err(e);
                },
            }
            proof {
                let p = added(l0, dev.log());
                assert forall|i: int| 0 <= i < p.len() implies acked_chunk(
                    #[trigger] p[i],
                    frame@,
                    (0 + i) as nat,
                ) by {
                    if i < k {
                        assert(p[i] == added(l0, lk)[i]);
                    }
                }
            }
            k = k + 1;
        }
        let ghost ln = dev.log();
        let got = get_button(dev, button_id);
        let after = match got {
            Ok(b) => b,
            Err(e) => {
                proof {
                    lemma_log_chain(l0, ln, dev.log());
                    lemma_chunks_prefix(added(l0, ln), added(ln, dev.log()), frame@, 0, button_id, Err(e));
                }
                return Err(e);
            },
        };
        let res = macro_confirm(length, after);
        proof {
            lemma_log_chain(l0, ln, dev.log());
            lemma_chunks_prefix(added(l0, ln), added(ln, dev.log()), frame@, 0, button_id, res);
        }
        res
    }
}

/// A chunk reply acknowledges the chunk: `[_, 0x72, 0, …]`.
pub open spec fn chunk_acked(resp: Seq<u8>) -> bool {
    resp.len() >= 3 && resp[1] == CHUNK_ACK && resp[2] == 0
}

/// The outcome of the reply to the chunk at byte offset `off`: `Ok` when it
/// acknowledges, else `"macro chunk @{off} rejected: {reply}"`.
pub fn chunk_ack(off: usize, resp: &[u8]) -> (r: Result<(), HidError>)
    ensures
        chunk_acked(resp@) ==> r is Ok,
        !chunk_acked(resp@) ==> (r matches Err(HidError::BadReply(m)) && m@ == "macro chunk @"@
            + dec(off as nat) + " rejected: "@ + hex_list(resp@)),
{
    if resp.len() < 3 || resp[1] != CHUNK_ACK || resp[2] != 0 {
        let mut m = string_of("macro chunk @");
        append_radix(&mut m, off as u64, 10);
        m.append(" rejected: ");
        append_hex_list(&mut m, resp);
        return Err(HidError::BadReply(m));
    }
    Ok(())
}

/// The outcome of a macro upload's read-back `after`: the button must now
/// be a macro of the uploaded `length`; else
/// `"macro set unconfirmed (want len {length}): {after:?}"`.
pub fn macro_confirm(length: u8, after: ButtonInfo) -> (r: Result<ButtonInfo, HidError>)
    ensures
        after.type_id == TYPE_MACRO && after.data == length as u32 ==> r == Ok::<
            ButtonInfo,
            HidError,
        >(after),
        !(after.type_id == TYPE_MACRO && after.data == length as u32) ==> (r matches Err(
            HidError::BadReply(m),
        ) && m@ == "macro set unconfirmed (want len "@ + dec(length as nat) + "): "@
            + crate::proto::buttons::button_debug(after)),
{
    if after.type_id != TYPE_MACRO || after.data != length as u32 {
        let mut m = string_of("macro set unconfirmed (want len ");
        append_radix(&mut m, length as u64, 10);
        m.append("): ");
        crate::proto::buttons::append_button_debug(&mut m, &after);
        return Err(HidError::BadReply(m));
    }
    Ok(after)
}

/// The HID keyboard usages a typed-text macro sends: 'a'..'z' are
/// 0x04..0x1D in alphabet order; '1'..'9' are 0x1E..0x26 in order and '0'
/// comes after '9' at 0x27; Enter is 0x28, Tab 0x2B, space 0x2C, '-' 0x2D
/// and '=' 0x2E. No other character has a usage.
pub proof fn hid_keyboard_usages()
    ensures
        forall|n: u32| n < 26 ==> #[trigger] keycode_spec((97 + n) as char) == Some((4 + n) as u8),
        forall|n: u32|
            1 <= n <= 9 ==> #[trigger] keycode_spec((48 + n) as char) == Some((0x1d + n) as u8),
        keycode_spec('0') == Some(0x27u8),
        keycode_spec('\n') == Some(0x28u8),
        keycode_spec('\t') == Some(0x2bu8),
        keycode_spec(' ') == Some(0x2cu8),
        keycode_spec('-') == Some(0x2du8),
        keycode_spec('=') == Some(0x2eu8),
        forall|c: char|
            !('a' <= c <= 'z' || '0' <= c <= '9' || c == '\n' || c == '\t' || c == ' ' || c == '-'
                || c == '=') ==> #[trigger] keycode_spec(c) is None,
{
}

/// The taps of `codes` in order: for each code `k`, a press
/// `[0x80 | class, code, 0, 0]` then a release `[class, code, 0, 0]`.
pub proof fn taps_press_then_release(class: u8, codes: Seq<u8>, k: int)
    requires
        0 <= k < codes.len(),
    ensures
        taps_spec(class, codes).len() == 8 * codes.len(),
        taps_spec(class, codes).subrange(8 * k, 8 * k + 8) == seq![
            (0x80u8 | class) as u8,
            codes[k],
            0u8,
            0u8,
            class,
            codes[k],
            0u8,
            0u8,
        ],
    decreases codes.len(),
{
    lemma_taps_len(class, codes);
    lemma_taps_len(class, codes.drop_last());
    let t = taps_spec(class, codes);
    if k == codes.len() - 1 {
        assert(t.subrange(8 * k, 8 * k + 8) =~= tap_spec(class, codes.last()));
    } else {
        taps_press_then_release(class, codes.drop_last(), k);
        assert(t.subrange(8 * k, 8 * k + 8) =~= taps_spec(class, codes.drop_last()).subrange(
            8 * k,
            8 * k + 8,
        ));
    }
}

/// Typing `text` sends, for its `k`-th character, a key press and a key
/// release of that character's HID usage (see [`hid_keyboard_usages`]).
pub proof fn typed_text_taps(text: Seq<char>, k: int)
    requires
        all_keycodes(text),
        0 <= k < text.len(),
    ensures
        taps_spec(CLASS_KEY, keycodes_of(text)).len() == 8 * text.len(),
        taps_spec(CLASS_KEY, keycodes_of(text)).subrange(8 * k, 8 * k + 8) == seq![
            0x81u8,
            keycode_spec(text[k])->0,
            0u8,
            0u8,
            0x01u8,
            keycode_spec(text[k])->0,
            0u8,
            0u8,
        ],
{
    taps_press_then_release(CLASS_KEY, keycodes_of(text), k);
    assert((0x80u8 | 1u8) == 0x81u8) by (bit_vector);
}

} // verus!
