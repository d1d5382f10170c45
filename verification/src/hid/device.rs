//! Frame layout of the two Keychron command channels:
//!   long  0xB3 -> 0xB4 (63B)  READ/GET
//!   short 0xB5 -> 0xB6 (20B)  WRITE/SET; ack = [E4, status, cmd, …]
//! and the read deadline's poll slicing. The hidraw file itself is opened and
//! driven by the application.

use std::time::Duration;

use vstd::prelude::*;

verus! {

/// Keychron's USB vendor id.
pub const VID: u16 = 0x3434;

pub const LONG_OUT: u8 = 0xB3;
pub const LONG_IN: u8 = 0xB4;
pub const LONG_LEN: usize = 63;
pub const SHORT_OUT: u8 = 0xB5;
pub const SHORT_IN: u8 = 0xB6;
pub const SHORT_LEN: usize = 20;

pub const SHORT_REPLY_MARK: u8 = 0xE4;
pub const STATUS_OK: u8 = 0x00;

/// Deadline for one reply, in milliseconds.
pub const TIMEOUT_MS: u64 = 1000;
/// Longest single wait inside the deadline, in milliseconds.
pub const POLL_SLICE_MAX_MS: i32 = 200;

/// `[report_id, payload…]` zero-padded (or cut) to `1 + payload_len` bytes.
pub open spec fn frame_spec(report_id: u8, payload_len: nat, payload: Seq<u8>) -> Seq<u8> {
    let raw = seq![report_id] + payload;
    Seq::new(1 + payload_len, |i: int| if i < raw.len() { raw[i] } else { 0u8 })
}

/// `[report_id, payload…]` zero-padded to `1 + payload_len` (cut if longer).
pub fn frame(report_id: u8, payload_len: usize, payload: &[u8]) -> (buf: Vec<u8>)
    requires
        payload_len < usize::MAX,
    ensures
        buf@ == frame_spec(report_id, payload_len as nat, payload@),
{
    let mut buf: Vec<u8> = Vec::new();
    buf.push(report_id);
    let mut i: usize = 0;
    while i < payload_len
        invariant
            i <= payload_len < usize::MAX,
            buf@ == Seq::new(1 + i as nat, |k: int| if k < (seq![report_id] + payload@).len() {
                (seq![report_id] + payload@)[k]
            } else {
                0u8
            }),
        decreases payload_len - i,
    {
        if i < payload.len() {
            buf.push(payload[i]);
        } else {
            buf.push(0);
        }
        i = i + 1;
        assert(buf@ =~= Seq::new(1 + i as nat, |k: int| if k < (seq![report_id] + payload@).len() {
            (seq![report_id] + payload@)[k]
        } else {
            0u8
        }));
    }
    buf
}

/// `[cmd, payload…]`.
pub fn command(cmd: u8, payload: &[u8]) -> (p: Vec<u8>)
    ensures
        p@ == seq![cmd] + payload@,
{
    let mut p: Vec<u8> = Vec::new();
    p.push(cmd);
    let mut i: usize = 0;
    while i < payload.len()
        invariant
            i <= payload@.len(),
            p@ == seq![cmd] + payload@.subrange(0, i as int),
        decreases payload@.len() - i,
    {
        p.push(payload[i]);
        i = i + 1;
        assert(p@ =~= seq![cmd] + payload@.subrange(0, i as int));
    }
    assert(payload@.subrange(0, payload@.len() as int) =~= payload@);
    p
}

/// Whether a short-channel reply acknowledges a write: `[0xB6, E4, 00, …]`.
pub open spec fn set_ack_spec(resp: Seq<u8>) -> bool {
    resp.len() >= 4 && resp[1] == SHORT_REPLY_MARK && resp[2] == STATUS_OK
}

/// Whether a short-channel reply acknowledges a write.
pub fn set_ack_ok(resp: &[u8]) -> (ok: bool)
    ensures
        ok == set_ack_spec(resp@),
{
    resp.len() >= 4 && resp[1] == SHORT_REPLY_MARK && resp[2] == STATUS_OK
}

/// Whether a short-channel reply acknowledges a long-channel write of `cmd`
/// (the ack also echoes the command).
pub fn long_set_ack_ok(resp: &[u8], cmd: u8) -> (ok: bool)
    ensures
        ok == (set_ack_spec(resp@) && resp@[3] == cmd),
{
    resp.len() >= 4 && resp[1] == SHORT_REPLY_MARK && resp[2] == STATUS_OK && resp[3] == cmd
}

/// Poll slice for `elapsed_us` microseconds into the reply deadline: the
/// remaining time rounded up to whole milliseconds, at most 200, and `None`
/// once the deadline has passed. Never zero, so the loop cannot spin.
pub open spec fn poll_slice_spec(elapsed_us: nat) -> Option<i32> {
    if elapsed_us >= TIMEOUT_MS * 1000 {
        None
    } else {
        let remaining_ms = ((TIMEOUT_MS * 1000 - elapsed_us) + 999) / 1000;
        Some(if remaining_ms > 200 { 200i32 } else { remaining_ms as i32 })
    }
}

/// Poll slice for `elapsed_us` microseconds into the reply deadline.
pub fn poll_slice_us(elapsed_us: u128) -> (r: Option<i32>)
    ensures
        r == poll_slice_spec(elapsed_us as nat),
        r matches Some(ms) ==> 1 <= ms <= POLL_SLICE_MAX_MS,
{
    let deadline_us: u128 = (TIMEOUT_MS as u128) * 1000;
    if elapsed_us >= deadline_us {
        return None;
    }
    let remaining_ms = ((deadline_us - elapsed_us) + 999) / 1000;
    if remaining_ms > 200 {
        Some(200)
    } else {
        Some(remaining_ms as i32)
    }
}

/// Whole microseconds of the duration `d`: what `Duration::as_micros`
/// returns for it.
pub uninterp spec fn micros_of(d: Duration) -> nat;

/// Whole microseconds of a `Duration`, by `Duration::as_micros`.
/// Trusted: the count is `micros_of(d)`; how it is computed from the
/// seconds and nanoseconds is not stated.
#[verifier::external_body]
fn duration_micros(d: Duration) -> (r: u128)
    ensures
        r as nat == micros_of(d),
{
    d.as_micros()
}

/// Poll slice for `elapsed` time into the reply deadline: the slice
/// [`poll_slice_spec`] gives for its whole microseconds.
pub fn poll_slice_ms(elapsed: Duration) -> (r: Option<i32>)
    ensures
        r == poll_slice_spec(micros_of(elapsed)),
        r matches Some(ms) ==> 1 <= ms <= POLL_SLICE_MAX_MS,
{
    poll_slice_us(duration_micros(elapsed))
}

} // verus!
