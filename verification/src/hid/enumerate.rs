//! Finding the Keychron config collection among the sysfs hidraw nodes: the
//! parsers for a node's `uevent` text and report descriptor, and the
//! selection among the nodes found.

use vstd::prelude::*;

use crate::hid::device::VID;
use crate::text::{push_char, string_of};

verus! {

/// Usage page of the vendor config collection.
pub const USAGE_PAGE_CONFIG: u16 = 0xFFC1;

/// `bustype` from `HID_ID` (linux/input.h `BUS_*`). The cable and a Bluetooth
/// link report the same PID, so the bus is the only thing that separates them.
pub const BUS_USB: u16 = 0x03;
pub const BUS_BLUETOOTH: u16 = 0x05;

/// PID of the Ultra-Link 2.4 GHz dongle.
pub const PID_DONGLE: u16 = 0xD028;

#[derive(Clone, Debug)]
pub struct DeviceInfo {
    pub node: String,
    pub bus: u16,
    pub vid: u16,
    pub pid: u16,
    pub name: String,
    pub usage_page: u16,
}

/// How a node with this bus and PID is attached.
pub open spec fn transport_spec(bus: u16, pid: u16) -> Seq<char> {
    if bus == BUS_BLUETOOTH {
        "Bluetooth"@
    } else if pid == PID_DONGLE {
        "2.4 GHz"@
    } else {
        "wired"@
    }
}

/// Whether the node carries the vendor config collection.
pub open spec fn is_config_spec(d: DeviceInfo) -> bool {
    d.usage_page == USAGE_PAGE_CONFIG
}

impl DeviceInfo {
    /// Human label for how the mouse is attached. The Ultra-Link dongle is its
    /// own product (0xD028 = wireless); the M6 enumerating directly is the cable.
    pub fn transport(&self) -> (s: &'static str)
        ensures
            s@ == transport_spec(self.bus, self.pid),
    {
        if self.bus == BUS_BLUETOOTH {
            "Bluetooth"
        } else if self.pid == PID_DONGLE {
            "2.4 GHz"
        } else {
            "wired"
        }
    }

    /// Whether this node carries the vendor config collection.
    pub fn is_config(&self) -> (r: bool)
        ensures
            r == is_config_spec(*self),
    {
        self.usage_page == USAGE_PAGE_CONFIG
    }
}

/// The config endpoint: the first node on usage page 0xFFC1.
pub fn find_config(devices: Vec<DeviceInfo>) -> (r: Option<DeviceInfo>)
    ensures
        r is None <==> forall|i: int| 0 <= i < devices@.len() ==> !is_config_spec(#[trigger] devices@[i]),
        r matches Some(d) ==> exists|i: int|
            0 <= i < devices@.len() && devices@[i] == d && is_config_spec(d) && forall|k: int|
                0 <= k < i ==> !is_config_spec(#[trigger] devices@[k]),
{
    let mut work = devices;
    let ghost all = work@;
    let mut i: usize = 0;
    while i < work.len()
        invariant
            work@ == all,
            all == devices@,
            i <= all.len(),
            forall|k: int| 0 <= k < i ==> !is_config_spec(#[trigger] all[k]),
        decreases all.len() - i,
    {
        if work[i].is_config() {
            let d = work.remove(i);
            assert(all[i as int] == d);
            assert(is_config_spec(d));
            return Some(d);
        }
        i = i + 1;
    }
    None
}

/// Moves the nodes that do (`keep_config`) or do not carry the config
/// collection, in order.
fn select(devices: Vec<DeviceInfo>, keep_config: bool) -> (out: Vec<DeviceInfo>)
    ensures
        out@ == devices@.filter(|d: DeviceInfo| is_config_spec(d) == keep_config),
{
    let mut rest = devices;
    let ghost all = rest@;
    let mut out: Vec<DeviceInfo> = Vec::new();
    let ghost mut taken: int = 0;
    while rest.len() > 0
        invariant
            0 <= taken <= all.len(),
            rest@ == all.skip(taken),
            out@ == all.take(taken).filter(|d: DeviceInfo| is_config_spec(d) == keep_config),
        decreases rest@.len(),
    {
        let d = rest.remove(0);
        proof {
            let f = |d: DeviceInfo| is_config_spec(d) == keep_config;
            assert(all.take(taken + 1).drop_last() =~= all.take(taken));
            assert(all.take(taken + 1).last() == d);
            reveal(Seq::filter);
            assert(all.take(taken + 1) =~= all.take(taken).push(d));
        }
        if d.is_config() == keep_config {
            out.push(d);
        }
        proof {
            taken = taken + 1;
            assert(rest@ =~= all.skip(taken));
        }
    }
    assert(all.take(taken) =~= all);
    out
}

/// All config-collection candidates (e.g. dongle + wired both present), in
/// order. The caller probes each, since an idle transport's node won't answer.
pub fn find_all_config(devices: Vec<DeviceInfo>) -> (out: Vec<DeviceInfo>)
    ensures
        out@ == devices@.filter(|d: DeviceInfo| is_config_spec(d) == true),
{
    select(devices, true)
}

/// Nodes that are present but expose no config collection — the Bluetooth
/// link is the case that matters.
pub fn find_non_config(devices: Vec<DeviceInfo>) -> (out: Vec<DeviceInfo>)
    ensures
        out@ == devices@.filter(|d: DeviceInfo| is_config_spec(d) == false),
{
    select(devices, false)
}

/// Index of the first `06 LO HI` (Usage Page, 2-byte) item of a descriptor.
pub open spec fn usage_page_index(desc: Seq<u8>) -> Option<int> {
    if exists|i: int| 0 <= i && i + 2 < desc.len() && #[trigger] desc[i] == 0x06 {
        Some(
            choose|i: int|
                0 <= i && i + 2 < desc.len() && #[trigger] desc[i] == 0x06 && forall|k: int|
                    0 <= k < i ==> desc[k] != 0x06,
        )
    } else {
        None
    }
}

/// First `06 LO HI` (Usage Page, 2-byte) item in a HID report descriptor.
pub fn first_usage_page(desc: &[u8]) -> (r: Option<u16>)
    ensures
        usage_page_index(desc@) is None ==> r is None,
        usage_page_index(desc@) matches Some(i) ==> r == Some((desc@[i + 1] + 256 * desc@[i + 2]) as u16),
{
    let mut i: usize = 0;
    while i < desc.len() && desc.len() - i > 2
        invariant
            i <= desc@.len(),
            forall|k: int| 0 <= k < i ==> desc@[k] != 0x06,
        decreases desc@.len() - i,
    {
        if desc[i] == 0x06 {
            let lo = desc[i + 1];
            let hi = desc[i + 2];
            let v = lo as u16 | ((hi as u16) << 8);
            assert(v == lo + 256 * hi) by (bit_vector)
                requires
                    v == lo as u16 | ((hi as u16) << 8),
            ;
            proof {
                let c = choose|j: int|
                    0 <= j && j + 2 < desc@.len() && #[trigger] desc@[j] == 0x06 && forall|k: int|
                        0 <= k < j ==> desc@[k] != 0x06;
                assert(desc@[i as int] == 0x06);
                assert(c == i);
            }
            return Some(v);
        }
        i = i + 1;
    }
    None
}

/// The characters of `s`.
pub fn chars_of(s: &str) -> (v: Vec<char>)
    ensures
        v@ == s@,
{
    let n = s.unicode_len();
    let mut v: Vec<char> = Vec::new();
    let mut i: usize = 0;
    while i < n
        invariant
            n == s@.len(),
            i <= n,
            v@ == s@.subrange(0, i as int),
        decreases n - i,
    {
        v.push(s.get_char(i));
        i = i + 1;
        assert(v@ =~= s@.subrange(0, i as int));
    }
    assert(s@.subrange(0, n as int) =~= s@);
    v
}

/// Index of the first '\n' at or after `i`, or the length.
pub open spec fn line_end(s: Seq<char>, i: int) -> int
    decreases s.len() - i,
{
    if i >= s.len() {
        s.len() as int
    } else if s[i] == '\n' {
        i
    } else {
        line_end(s, i + 1)
    }
}

pub proof fn lemma_line_end(s: Seq<char>, i: int)
    requires
        0 <= i <= s.len(),
    ensures
        i <= line_end(s, i) <= s.len(),
        line_end(s, i) < s.len() ==> s[line_end(s, i)] == '\n',
        forall|k: int| i <= k < line_end(s, i) ==> s[k] != '\n',
    decreases s.len() - i,
{
    if i < s.len() && s[i] != '\n' {
        lemma_line_end(s, i + 1);
    }
}

/// The line starting at `i`, as `str::lines` yields it: a '\r' before the
/// '\n' is dropped.
pub open spec fn line_at(s: Seq<char>, i: int) -> Seq<char> {
    let e = line_end(s, i);
    if e < s.len() && e > i && s[e - 1] == '\r' {
        s.subrange(i, e - 1)
    } else {
        s.subrange(i, e)
    }
}

/// The first line at or after offset `i` that starts with `prefix`.
pub open spec fn first_line_from(s: Seq<char>, prefix: Seq<char>, i: int) -> Option<Seq<char>>
    decreases s.len() - i,
{
    if i < 0 || i >= s.len() {
        None
    } else if prefix.is_prefix_of(line_at(s, i)) {
        Some(line_at(s, i))
    } else if line_end(s, i) >= s.len() {
        None
    } else {
        proof {
            lemma_line_end(s, i);
        }
        first_line_from(s, prefix, line_end(s, i) + 1)
    }
}

/// The first line of `s` that starts with `prefix`.
pub open spec fn first_line_with(s: Seq<char>, prefix: Seq<char>) -> Option<Seq<char>> {
    first_line_from(s, prefix, 0)
}

/// `v` with every leading repetition of `p` removed (`trim_start_matches`).
pub open spec fn strip_all(v: Seq<char>, p: Seq<char>) -> Seq<char>
    decreases v.len(),
{
    if p.len() > 0 && p.is_prefix_of(v) {
        strip_all(v.skip(p.len() as int), p)
    } else {
        v
    }
}

fn starts_with_at(s: &Vec<char>, i: usize, end: usize, p: &Vec<char>) -> (r: bool)
    requires
        i <= end <= s@.len(),
    ensures
        r == p@.is_prefix_of(s@.subrange(i as int, end as int)),
{
    if p.len() > end - i {
        return false;
    }
    let mut k: usize = 0;
    while k < p.len()
        invariant
            i + p@.len() <= end <= s@.len(),
            k <= p@.len(),
            forall|j: int| 0 <= j < k ==> p@[j] == s@[i + j],
        decreases p@.len() - k,
    {
        if p[k] != s[i + k] {
            assert(s@.subrange(i as int, end as int)[k as int] == s@[i + k]);
            return false;
        }
        k = k + 1;
    }
    assert(p@ =~= s@.subrange(i as int, end as int).subrange(0, p@.len() as int));
    true
}

/// Offset range `[start, stop)` of the first line of `s` starting with `p`.
fn find_line(s: &Vec<char>, p: &Vec<char>) -> (r: Option<(usize, usize)>)
    ensures
        first_line_with(s@, p@) is None ==> r is None,
        first_line_with(s@, p@) matches Some(line) ==> (r matches Some((a, b)) && a <= b
            <= s@.len() && line == s@.subrange(a as int, b as int)),
{
    let n = s.len();
    let mut i: usize = 0;
    while i < n
        invariant
            n == s@.len(),
            i <= n,
            first_line_with(s@, p@) == first_line_from(s@, p@, i as int),
        decreases n - i,
    {
        let mut e = i;
        while e < n && s[e] != '\n'
            invariant
                i <= e <= n,
                n == s@.len(),
                line_end(s@, i as int) == line_end(s@, e as int),
            decreases n - e,
        {
            e = e + 1;
        }
        assert(line_end(s@, e as int) == e);
        let stop = if e < n && e > i && s[e - 1] == '\r' {
            e - 1
        } else {
            e
        };
        assert(line_at(s@, i as int) == s@.subrange(i as int, stop as int));
        if starts_with_at(s, i, stop, p) {
            return Some((i, stop));
        }
        proof {
            lemma_line_end(s@, i as int);
        }
        if e == n {
            return None;
        }
        i = e + 1;
    }
    None
}

/// Strip every leading repetition of `p` from `s[a..b]`; returns the new start.
fn strip_all_at(s: &Vec<char>, a: usize, b: usize, p: &Vec<char>) -> (r: usize)
    requires
        a <= b <= s@.len(),
    ensures
        a <= r <= b,
        s@.subrange(r as int, b as int) == strip_all(s@.subrange(a as int, b as int), p@),
{
    let mut i = a;
    while p.len() > 0 && starts_with_at(s, i, b, p)
        invariant
            a <= i <= b <= s@.len(),
            strip_all(s@.subrange(a as int, b as int), p@) == strip_all(
                s@.subrange(i as int, b as int),
                p@,
            ),
        decreases b - i,
    {
        assert(s@.subrange(i as int, b as int).skip(p@.len() as int) =~= s@.subrange(
            i + p@.len(),
            b as int,
        ));
        i = i + p.len();
    }
    i
}

/// Unicode `White_Space` (what `char::is_whitespace` tests).
pub open spec fn is_space(c: char) -> bool {
    ||| '\t' <= c <= '\r'
    ||| c == ' '
    ||| c == '\u{85}'
    ||| c == '\u{a0}'
    ||| c == '\u{1680}'
    ||| '\u{2000}' <= c <= '\u{200a}'
    ||| c == '\u{2028}'
    ||| c == '\u{2029}'
    ||| c == '\u{202f}'
    ||| c == '\u{205f}'
    ||| c == '\u{3000}'
}

fn is_space_exec(c: char) -> (r: bool)
    ensures
        r == is_space(c),
{
    ('\t' <= c && c <= '\r') || c == ' ' || c == '\u{85}' || c == '\u{a0}' || c == '\u{1680}' || (
    '\u{2000}' <= c && c <= '\u{200a}') || c == '\u{2028}' || c == '\u{2029}' || c == '\u{202f}'
        || c == '\u{205f}' || c == '\u{3000}'
}

/// Value of a hex digit character.
pub open spec fn hex_digit_value(c: char) -> Option<nat> {
    if '0' <= c <= '9' {
        Some((c as int - '0' as int) as nat)
    } else if 'a' <= c <= 'f' {
        Some((c as int - 'a' as int + 10) as nat)
    } else if 'A' <= c <= 'F' {
        Some((c as int - 'A' as int + 10) as nat)
    } else {
        None
    }
}

/// Value of a run of hex digits (most significant first), if all are digits.
pub open spec fn hex_digits_value(v: Seq<char>) -> Option<nat>
    decreases v.len(),
{
    if v.len() == 0 {
        Some(0)
    } else {
        match (hex_digits_value(v.drop_last()), hex_digit_value(v.last())) {
            (Some(h), Some(d)) => Some(h * 16 + d),
            _ => None,
        }
    }
}

/// `u32::from_str_radix(v, 16)`: an optional leading '+', then at least one
/// hex digit, and the value must fit in 32 bits.
pub open spec fn parse_hex_u32(v: Seq<char>) -> Option<u32> {
    let digits = if v.len() > 0 && v[0] == '+' {
        v.drop_first()
    } else {
        v
    };
    if digits.len() == 0 {
        None
    } else {
        match hex_digits_value(digits) {
            Some(n) => if n <= u32::MAX {
                Some(n as u32)
            } else {
                None
            },
            None => None,
        }
    }
}

proof fn lemma_hex_digits_prefix(v: Seq<char>, k: int)
    requires
        0 <= k < v.len(),
        hex_digits_value(v.subrange(0, k)) is Some,
        hex_digit_value(v[k]) is Some,
    ensures
        hex_digits_value(v.subrange(0, k + 1)) == Some(
            hex_digits_value(v.subrange(0, k))->0 * 16 + hex_digit_value(v[k])->0,
        ),
{
    assert(v.subrange(0, k + 1).drop_last() =~= v.subrange(0, k));
}

proof fn lemma_hex_digits_monotone(v: Seq<char>, k: int)
    requires
        0 <= k <= v.len(),
        hex_digits_value(v) is Some,
    ensures
        hex_digits_value(v.subrange(0, k)) is Some,
        hex_digits_value(v.subrange(0, k))->0 <= hex_digits_value(v)->0,
    decreases v.len() - k,
{
    if k < v.len() {
        let w = v.drop_last();
        assert(v.subrange(0, k) =~= w.subrange(0, k)) by {
            assert forall|j: int| 0 <= j < k implies v.subrange(0, k)[j] == w.subrange(0, k)[j] by {}
        }
        assert(w.subrange(0, w.len() as int) =~= w);
        lemma_hex_digits_monotone(w, k);
    } else {
        assert(v.subrange(0, k) =~= v);
    }
}

/// `u32::from_str_radix(s[a..b], 16)`.
fn parse_hex_at(s: &Vec<char>, a: usize, b: usize) -> (r: Option<u32>)
    requires
        a <= b <= s@.len(),
    ensures
        r == parse_hex_u32(s@.subrange(a as int, b as int)),
{
    let ghost v = s@.subrange(a as int, b as int);
    let mut i = a;
    if i < b && s[i] == '+' {
        i = i + 1;
    }
    let ghost digits = s@.subrange(i as int, b as int);
    assert(digits =~= if v.len() > 0 && v[0] == '+' {
        v.drop_first()
    } else {
        v
    });
    assert(parse_hex_u32(v) == (if digits.len() == 0 {
        None
    } else {
        match hex_digits_value(digits) {
            Some(n) => if n <= u32::MAX {
                Some(n as u32)
            } else {
                None
            },
            None => None,
        }
    }));
    if i == b {
        return None;
    }
    let mut acc: u64 = 0;
    let mut j = i;
    assert(digits.subrange(0, 0) =~= Seq::<char>::empty());
    while j < b
        invariant
            i <= j <= b <= s@.len(),
            i < b,
            digits == s@.subrange(i as int, b as int),
            parse_hex_u32(s@.subrange(a as int, b as int)) == (match hex_digits_value(digits) {
                Some(n) => if n <= u32::MAX {
                    Some(n as u32)
                } else {
                    None
                },
                None => None,
            }),
            hex_digits_value(digits.subrange(0, j - i)) == Some(acc as nat),
            acc <= u32::MAX,
        decreases b - j,
    {
        let c = s[j];
        assert(digits[j - i] == c);
        let ghost pre = digits.subrange(0, j - i);
        let ghost post = digits.subrange(0, j - i + 1);
        assert(post.drop_last() =~= pre);
        assert(post.last() == c);
        let d: u64 = if '0' <= c && c <= '9' {
            (c as u32 - '0' as u32) as u64
        } else if 'a' <= c && c <= 'f' {
            (c as u32 - 'a' as u32 + 10) as u64
        } else if 'A' <= c && c <= 'F' {
            (c as u32 - 'A' as u32 + 10) as u64
        } else {
            proof {
                assert(hex_digit_value(c) is None);
                assert(hex_digits_value(post) is None);
                if hex_digits_value(digits) is Some {
                    lemma_hex_digits_monotone(digits, j - i + 1);
                }
                assert(hex_digits_value(digits) is None);
            }
            return None;
        };
        assert(hex_digit_value(c) == Some(d as nat));
        assert(hex_digits_value(post) == Some((acc * 16 + d) as nat));
        let next = acc * 16 + d;
        if next > u32::MAX as u64 {
            proof {
                if hex_digits_value(digits) is Some {
                    lemma_hex_digits_monotone(digits, j - i + 1);
                    assert(hex_digits_value(digits)->0 > u32::MAX);
                }
            }
            return None;
        }
        acc = next;
        j = j + 1;
    }
    assert(digits.subrange(0, (b - i) as int) =~= digits);
    Some(acc as u32)
}

/// The `HID_ID` fields of a `uevent` text: the value after the first line
/// starting `HID_ID=`, split at ':' into bus (whitespace-trimmed), vendor and
/// product, each parsed as hex `u32` and truncated to 16 bits.
pub open spec fn hid_id_spec(uevent: Seq<char>) -> Option<(u16, u16, u16)> {
    match first_line_with(uevent, "HID_ID="@) {
        None => None,
        Some(line) => {
            let value = strip_all(line, "HID_ID="@);
            hid_id_fields(value)
        },
    }
}

/// Index of the first ':' at or after `i`, or the length.
pub open spec fn colon_at(v: Seq<char>, i: int) -> int
    decreases v.len() - i,
{
    if i >= v.len() {
        v.len() as int
    } else if v[i] == ':' {
        i
    } else {
        colon_at(v, i + 1)
    }
}

/// `v` without leading and trailing whitespace (`str::trim`).
pub open spec fn trim_spec(v: Seq<char>) -> Seq<char>
    decreases v.len(),
{
    if v.len() > 0 && is_space(v[0]) {
        trim_spec(v.drop_first())
    } else if v.len() > 0 && is_space(v.last()) {
        trim_spec(v.drop_last())
    } else {
        v
    }
}

/// Bus, vendor and product from the `HID_ID` value.
pub open spec fn hid_id_fields(v: Seq<char>) -> Option<(u16, u16, u16)> {
    let c1 = colon_at(v, 0);
    let c2 = colon_at(v, c1 + 1);
    let c3 = colon_at(v, c2 + 1);
    if c1 >= v.len() || c2 >= v.len() {
        None
    } else {
        match (
            parse_hex_u32(trim_spec(v.subrange(0, c1))),
            parse_hex_u32(v.subrange(c1 + 1, c2)),
            parse_hex_u32(v.subrange(c2 + 1, c3)),
        ) {
            (Some(bus), Some(vid), Some(pid)) => Some((bus as u16, vid as u16, pid as u16)),
            _ => None,
        }
    }
}

proof fn lemma_colon_at(v: Seq<char>, i: int)
    requires
        0 <= i <= v.len(),
    ensures
        i <= colon_at(v, i) <= v.len(),
        colon_at(v, i) < v.len() ==> v[colon_at(v, i)] == ':',
        forall|k: int| i <= k < colon_at(v, i) ==> v[k] != ':',
    decreases v.len() - i,
{
    if i < v.len() && v[i] != ':' {
        lemma_colon_at(v, i + 1);
    }
}

fn find_colon(s: &Vec<char>, a: usize, b: usize) -> (c: usize)
    requires
        a <= b <= s@.len(),
    ensures
        a <= c <= b,
        c - a == colon_at(s@.subrange(a as int, b as int), 0),
{
    let ghost v = s@.subrange(a as int, b as int);
    let mut i = a;
    while i < b && s[i] != ':'
        invariant
            a <= i <= b <= s@.len(),
            v == s@.subrange(a as int, b as int),
            colon_at(v, 0) == colon_at(v, i - a),
        decreases b - i,
    {
        assert(v[i - a] == s@[i as int]);
        i = i + 1;
    }
    assert(i < b ==> v[i - a] == s@[i as int]);
    i
}

/// Trimmed bounds of `s[a..b]`.
fn trim_at(s: &Vec<char>, a: usize, b: usize) -> (r: (usize, usize))
    requires
        a <= b <= s@.len(),
    ensures
        a <= r.0 <= r.1 <= b,
        s@.subrange(r.0 as int, r.1 as int) == trim_spec(s@.subrange(a as int, b as int)),
{
    let mut i = a;
    while i < b && is_space_exec(s[i])
        invariant
            a <= i <= b <= s@.len(),
            trim_spec(s@.subrange(a as int, b as int)) == trim_spec(s@.subrange(i as int, b as int)),
        decreases b - i,
    {
        assert(s@.subrange(i as int, b as int).drop_first() =~= s@.subrange(i + 1, b as int));
        i = i + 1;
    }
    let mut j = b;
    while j > i && is_space_exec(s[j - 1])
        invariant
            a <= i <= j <= b <= s@.len(),
            i == b || !is_space(s@[i as int]),
            trim_spec(s@.subrange(a as int, b as int)) == trim_spec(s@.subrange(i as int, j as int)),
        decreases j - i,
    {
        assert(s@.subrange(i as int, j as int).drop_last() =~= s@.subrange(i as int, j - 1));
        j = j - 1;
    }
    (i, j)
}

/// `HID_ID=0003:00003434:0000D028` -> (bus, vid, pid).
pub fn parse_hid_id(uevent: &str) -> (r: Option<(u16, u16, u16)>)
    ensures
        r == hid_id_spec(uevent@),
{
    let s = chars_of(uevent);
    let p = chars_of("HID_ID=");
    let (a, b) = match find_line(&s, &p) {
        Some(range) => range,
        None => return None,
    };
    let v0 = strip_all_at(&s, a, b, &p);
    let ghost v = s@.subrange(v0 as int, b as int);
    assert(v == strip_all(s@.subrange(a as int, b as int), "HID_ID="@));
    assert(hid_id_spec(uevent@) == hid_id_fields(v));
    let c1 = find_colon(&s, v0, b);
    if c1 == b {
        return None;
    }
    let c2 = find_colon(&s, c1 + 1, b);
    proof {
        lemma_colon_shift(s@, v0 as int, b as int, c1 as int);
    }
    if c2 == b {
        return None;
    }
    let c3 = find_colon(&s, c2 + 1, b);
    proof {
        lemma_colon_shift(s@, v0 as int, b as int, c2 as int);
    }
    let (t0, t1) = trim_at(&s, v0, c1);
    assert(s@.subrange(v0 as int, c1 as int) =~= v.subrange(0, c1 - v0));
    assert(s@.subrange(c1 + 1, c2 as int) =~= v.subrange(c1 + 1 - v0, c2 - v0));
    assert(s@.subrange(c2 + 1, c3 as int) =~= v.subrange(c2 + 1 - v0, c3 - v0));
    let bus = parse_hex_at(&s, t0, t1);
    let vid = parse_hex_at(&s, c1 + 1, c2);
    let pid = parse_hex_at(&s, c2 + 1, c3);
    match (bus, vid, pid) {
        (Some(bus), Some(vid), Some(pid)) => Some((bus as u16, vid as u16, pid as u16)),
        _ => None,
    }
}

proof fn lemma_colon_skip(w: Seq<char>, off: int, j: int)
    requires
        0 <= off <= w.len(),
        0 <= j <= w.len() - off,
    ensures
        colon_at(w, off + j) == colon_at(w.skip(off), j) + off,
    decreases w.len() - off - j,
{
    if off + j < w.len() && w[off + j] != ':' {
        lemma_colon_skip(w, off, j + 1);
    }
}

proof fn lemma_colon_shift(s: Seq<char>, a: int, b: int, c: int)
    requires
        0 <= a <= c < b <= s.len(),
    ensures
        colon_at(s.subrange(c + 1, b), 0) + c + 1 - a == colon_at(s.subrange(a, b), c + 1 - a),
{
    let w = s.subrange(a, b);
    lemma_colon_skip(w, c + 1 - a, 0);
    assert(w.skip(c + 1 - a) =~= s.subrange(c + 1, b));
}

/// `HID_NAME=Keychron Ultra-Link 8K` -> the name (empty if absent).
pub open spec fn hid_name_spec(uevent: Seq<char>) -> Seq<char> {
    match first_line_with(uevent, "HID_NAME="@) {
        None => Seq::empty(),
        Some(line) => strip_all(line, "HID_NAME="@),
    }
}

/// `HID_NAME=Keychron Ultra-Link 8K` -> the name (empty if absent).
pub fn parse_hid_name(uevent: &str) -> (name: String)
    ensures
        name@ == hid_name_spec(uevent@),
{
    let s = chars_of(uevent);
    let p = chars_of("HID_NAME=");
    let (a, b) = match find_line(&s, &p) {
        Some(range) => range,
        None => return String::new(),
    };
    let start = strip_all_at(&s, a, b, &p);
    let mut out = String::new();
    let mut i = start;
    while i < b
        invariant
            start <= i <= b <= s@.len(),
            out@ == s@.subrange(start as int, i as int),
        decreases b - i,
    {
        push_char(&mut out, s[i]);
        i = i + 1;
        assert(out@ =~= s@.subrange(start as int, i as int));
    }
    out
}

/// The usage page a report descriptor declares first, 0 when it declares
/// none.
pub open spec fn usage_page_or_zero(desc: Seq<u8>) -> u16 {
    match usage_page_index(desc) {
        Some(i) => (desc[i + 1] + 256 * desc[i + 2]) as u16,
        None => 0,
    }
}

/// What the sysfs hidraw node `node_name` with this `uevent` text and
/// report descriptor is: nothing when its `HID_ID` cannot be read or its
/// vendor is not Keychron; else the device at `/dev/{node_name}` with the
/// ids and name of its `uevent` and the usage page of its descriptor.
pub open spec fn node_info_spec(
    r: Option<DeviceInfo>,
    node_name: Seq<char>,
    uevent: Seq<char>,
    desc: Seq<u8>,
) -> bool {
    match hid_id_spec(uevent) {
        None => r is None,
        Some((bus, vid, pid)) => if vid != VID {
            r is None
        } else {
            r matches Some(d) && d.node@ == "/dev/"@ + node_name && d.bus == bus && d.vid == vid
                && d.pid == pid && d.name@ == hid_name_spec(uevent) && d.usage_page
                == usage_page_or_zero(desc)
        },
    }
}

/// The device a sysfs hidraw node describes (see [`node_info_spec`]).
pub fn node_info(node_name: &str, uevent: &str, desc: &[u8]) -> (r: Option<DeviceInfo>)
    ensures
        node_info_spec(r, node_name@, uevent@, desc@),
{
    let (bus, vid, pid) = match parse_hid_id(uevent) {
        Some(ids) => ids,
        None => return None,
    };
    if vid != VID {
        return None;
    }
    let usage_page = match first_usage_page(desc) {
        Some(u) => u,
        None => 0,
    };
    let mut node = string_of("/dev/");
    node.append(node_name);
    Some(DeviceInfo { node, bus, vid, pid, name: parse_hid_name(uevent), usage_page })
}

} // verus!
