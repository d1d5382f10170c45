//! Dongle/firmware info. `[0xB3, 0x04]` -> `0xB4` reply carrying the firmware
//! version string (e.g. "0.1.6").

use vstd::prelude::*;

use crate::hid::{added, extends, lemma_log_one, read_step, ExchangeLog, Hid, HidError};
use crate::text::{push_char, string_of};

verus! {

pub const CMD_VERSION: u8 = 0x04;

/// ASCII digit byte.
pub open spec fn is_digit_byte(b: u8) -> bool {
    48 <= b <= 57
}

/// Byte that may continue a version string: a digit or '.'.
pub open spec fn is_version_byte(b: u8) -> bool {
    is_digit_byte(b) || b == 46
}

/// Index of the first digit byte of `r`.
pub open spec fn first_digit(r: Seq<u8>) -> Option<int> {
    if exists|i: int| 0 <= i < r.len() && is_digit_byte(#[trigger] r[i]) {
        Some(
            choose|i: int|
                0 <= i < r.len() && is_digit_byte(#[trigger] r[i]) && forall|k: int|
                    0 <= k < i ==> !is_digit_byte(r[k]),
        )
    } else {
        None
    }
}

/// Length of the run of version bytes that starts `s`.
pub open spec fn version_run(s: Seq<u8>) -> nat
    decreases s.len(),
{
    if s.len() > 0 && is_version_byte(s[0]) {
        1 + version_run(s.drop_first())
    } else {
        0
    }
}

/// The version text a reply carries: the run of digits and dots that starts
/// at its first digit, or "?" when it holds no digit.
pub open spec fn version_text(r: Seq<u8>) -> Seq<char> {
    match first_digit(r) {
        Some(i) => {
            let run = r.subrange(i, i + version_run(r.skip(i)));
            Seq::new(run.len(), |k: int| run[k] as char)
        },
        None => "?"@,
    }
}

proof fn lemma_version_run(s: Seq<u8>, k: int)
    requires
        0 <= k <= s.len(),
        forall|j: int| 0 <= j < k ==> is_version_byte(s[j]),
        k == s.len() || !is_version_byte(s[k]),
    ensures
        version_run(s) == k,
    decreases s.len(),
{
    if s.len() > 0 && is_version_byte(s[0]) {
        lemma_version_run(s.drop_first(), k - 1);
    }
}

/// The firmware version in a reply ("?" if it can't be found).
pub fn version_from_reply(r: &[u8]) -> (v: String)
    ensures
        v@ == version_text(r@),
{
    let mut i: usize = 0;
    while i < r.len() && !(r[i] >= 48 && r[i] <= 57)
        invariant
            i <= r@.len(),
            forall|k: int| 0 <= k < i ==> !is_digit_byte(r@[k]),
        decreases r@.len() - i,
    {
        i = i + 1;
    }
    if i == r.len() {
        assert(first_digit(r@) is None);
        return string_of("?");
    }
    proof {
        let c = choose|j: int|
            0 <= j < r@.len() && is_digit_byte(#[trigger] r@[j]) && forall|k: int|
                0 <= k < j ==> !is_digit_byte(r@[k]);
        assert(is_digit_byte(r@[i as int]));
        assert(c == i);
    }
    let mut out = String::new();
    let mut j = i;
    while j < r.len() && ((r[j] >= 48 && r[j] <= 57) || r[j] == 46)
        invariant
            i <= j <= r@.len(),
            forall|k: int| i <= k < j ==> is_version_byte(r@[k]),
            out@ == Seq::new((j - i) as nat, |k: int| r@[i + k] as char),
        decreases r@.len() - j,
    {
        push_char(&mut out, r[j] as char);
        j = j + 1;
        assert(out@ =~= Seq::new((j - i) as nat, |k: int| r@[i + k] as char));
    }
    proof {
        let s = r@.skip(i as int);
        lemma_version_run(s, (j - i) as int);
        let run = r@.subrange(i as int, j as int);
        assert(out@ =~= Seq::new(run.len(), |k: int| run[k] as char));
    }
    out
}

/// The exchanges of a version read: one read of long cmd 0x04 with an empty
/// payload; a transport error is the result, else the version text of the
/// reply.
pub open spec fn read_version_outcome(d: ExchangeLog, res: Result<String, HidError>) -> bool {
    read_step(
        d,
        CMD_VERSION,
        seq![],
        res,
        |b: Seq<u8>, rest: ExchangeLog| rest.len() == 0 && (res matches Ok(v) && v@ == version_text(b)),
    )
}

/// Best-effort firmware version string ("?" if it can't be parsed).
pub fn read_version<H: Hid>(dev: &mut H) -> (res: Result<String, HidError>)
    ensures
        extends(old(dev).log(), final(dev).log()),
        read_version_outcome(added(old(dev).log(), final(dev).log()), res),
        res matches Ok(v) ==> exists|r: Seq<u8>| v@ == #[trigger] version_text(r),
{
    let ghost l0 = dev.log();
    let empty: [u8; 0] = [];
    let got = dev.get(CMD_VERSION, &empty);
    proof {
        assert(empty@ =~= Seq::<u8>::empty());
        lemma_log_one(l0, dev.log().last());
        assert(dev.log() =~= l0.push(dev.log().last()));
        assert(added(l0, dev.log()).skip(1) =~= Seq::<crate::hid::Exchange>::empty());
    }
    match got {
        Err(e) => Err(e),
        Ok(r) => Ok(version_from_reply(r.as_slice())),
    }
}

/// The version text of a reply is the run that starts at its first digit
/// and goes on over every digit and '.' byte: a reply that holds `s` (a
/// digit, then digits and dots) after bytes that hold no digit, and is
/// followed by a byte that is neither, or by nothing, reads as `s`.
pub proof fn version_text_is_the_dotted_run(pre: Seq<u8>, s: Seq<u8>, post: Seq<u8>)
    requires
        forall|i: int| 0 <= i < pre.len() ==> !(48 <= #[trigger] pre[i] <= 57),
        s.len() > 0,
        48 <= s[0] <= 57,
        forall|i: int| 0 <= i < s.len() ==> (48 <= #[trigger] s[i] <= 57 || s[i] == 46),
        post.len() == 0 || !(48 <= post[0] <= 57 || post[0] == 46),
    ensures
        version_text(pre + s + post) == s.map_values(|b: u8| b as char),
{
    let r = pre + s + post;
    let i = pre.len() as int;
    assert(r[i] == s[0]);
    assert forall|k: int| 0 <= k < i implies !is_digit_byte(#[trigger] r[k]) by {
        assert(r[k] == pre[k]);
    }
    let c = choose|j: int|
        0 <= j < r.len() && is_digit_byte(#[trigger] r[j]) && forall|k: int|
            0 <= k < j ==> !is_digit_byte(r[k]);
    assert(is_digit_byte(r[i]));
    assert(c == i);
    let t = r.skip(i);
    assert forall|k: int| 0 <= k < s.len() implies is_version_byte(#[trigger] t[k]) by {
        assert(t[k] == s[k]);
    }
    if post.len() > 0 {
        assert(t[s.len() as int] == post[0]);
    }
    lemma_version_run(t, s.len() as int);
    assert(r.subrange(i, i + s.len()) =~= s);
    assert(Seq::new(s.len(), |k: int| r.subrange(i, i + s.len())[k] as char) =~= s.map_values(
        |b: u8| b as char,
    ));
}

} // verus!
