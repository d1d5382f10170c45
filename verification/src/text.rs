//! Text building for status lines and error messages: decimal and hex
//! rendering of integers, byte dumps in the `{:02x?}` style, and the two
//! `String` edits (`push`, `pop`) that vstd does not specify.

use vstd::prelude::*;

verus! {

/// The sixteen digit characters (lower-case hex letters).
pub open spec fn digit_chars() -> Seq<char> {
    seq!['0', '1', '2', '3', '4', '5', '6', '7', '8', '9', 'a', 'b', 'c', 'd', 'e', 'f']
}

/// Digit character for `d` in 0..16.
pub open spec fn digit_char(d: nat) -> char {
    digit_chars()[d as int]
}

/// Digits of `n` in base `b` (no leading zeros; "0" for zero).
pub open spec fn radix(n: nat, b: nat) -> Seq<char>
    recommends
        2 <= b <= 16,
    decreases n,
{
    if b < 2 || n < b {
        seq![digit_char(n)]
    } else {
        proof {
            assert(n / b < n) by (nonlinear_arith)
                requires
                    b >= 2,
                    n >= b,
            ;
        }
        radix(n / b, b).push(digit_char(n % b))
    }
}

/// Decimal rendering, as `{}` prints an unsigned integer.
pub open spec fn dec(n: nat) -> Seq<char> {
    radix(n, 10)
}

/// `k` zero characters.
pub open spec fn zeros(k: nat) -> Seq<char> {
    Seq::new(k, |i: int| '0')
}

/// Lower-case hex zero-padded to at least `width` digits, as `{:0width$x}`.
pub open spec fn hex_pad(n: nat, width: nat) -> Seq<char> {
    let h = radix(n, 16);
    if h.len() < width {
        zeros((width - h.len()) as nat) + h
    } else {
        h
    }
}

/// Comma-separated two-digit hex items of a byte sequence.
pub open spec fn hex_items(s: Seq<u8>) -> Seq<char>
    decreases s.len(),
{
    if s.len() == 0 {
        Seq::empty()
    } else if s.len() == 1 {
        hex_pad(s[0] as nat, 2)
    } else {
        hex_items(s.drop_last()) + seq![',', ' '] + hex_pad(s.last() as nat, 2)
    }
}

/// A byte list as `{:02x?}` prints it: `[b4, 06, 00]`.
pub open spec fn hex_list(s: Seq<u8>) -> Seq<char> {
    seq!['['] + hex_items(s) + seq![']']
}

/// Appends one character to a `String` (`String::push`).
/// Trusted: the new contents are the old ones followed by `c`.
#[verifier::external_body]
pub fn push_char(s: &mut String, c: char)
    ensures
        final(s)@ == old(s)@.push(c),
{
    s.push(c)
}

/// Removes the last character of a `String` (`String::pop`).
/// Trusted: `None` on an empty string; otherwise the last character, which
/// leaves the string.
#[verifier::external_body]
pub fn pop_char(s: &mut String) -> (r: Option<char>)
    ensures
        old(s)@.len() == 0 ==> r is None && final(s)@ == old(s)@,
        old(s)@.len() > 0 ==> r == Some(old(s)@.last()) && final(s)@ == old(s)@.drop_last(),
{
    s.pop()
}

/// A `String` holding the characters of `s` (`str::to_string`).
pub fn string_of(s: &str) -> (r: String)
    ensures
        r@ == s@,
{
    String::from_str(s)
}

fn digit(d: u64) -> (c: char)
    requires
        d < 16,
    ensures
        c == digit_char(d as nat),
{
    let table: [char; 16] = [
        '0', '1', '2', '3', '4', '5', '6', '7', '8', '9', 'a', 'b', 'c', 'd', 'e', 'f',
    ];
    assert(table@ =~= seq![
        '0', '1', '2', '3', '4', '5', '6', '7', '8', '9', 'a', 'b', 'c', 'd', 'e', 'f',
    ]);
    table[d as usize]
}

proof fn lemma_radix_len(n: nat, b: nat)
    requires
        2 <= b <= 16,
    ensures
        radix(n, b).len() >= 1,
    decreases n,
{
    if n >= b {
        assert(n / b < n) by (nonlinear_arith)
            requires
                b >= 2,
                n >= b,
        ;
        lemma_radix_len(n / b, b);
    }
}

/// Appends the base-`base` digits of `n` to `out`.
pub fn append_radix(out: &mut String, n: u64, base: u64)
    requires
        base == 10 || base == 16,
    ensures
        final(out)@ == old(out)@ + radix(n as nat, base as nat),
{
    let mut rev: Vec<char> = Vec::new();
    let mut m = n;
    loop
        invariant_except_break
            base == 10 || base == 16,
            radix(n as nat, base as nat) == radix(m as nat, base as nat) + Seq::new(
                rev@.len(),
                |k: int| rev@[rev@.len() - 1 - k],
            ),
        ensures
            radix(n as nat, base as nat) == Seq::new(rev@.len(), |k: int| rev@[rev@.len() - 1 - k]),
        decreases m,
    {
        let d = m % base;
        let ghost before = rev@;
        rev.push(digit(d));
        proof {
            let r1 = Seq::new(before.len(), |k: int| before[before.len() - 1 - k]);
            let r2 = Seq::new(rev@.len(), |k: int| rev@[rev@.len() - 1 - k]);
            assert(r2 =~= seq![digit_char(d as nat)] + r1);
        }
        if m < base {
            proof {
                assert(radix(m as nat, base as nat) == seq![digit_char(m as nat)]);
                assert(d == m);
                let r2 = Seq::new(rev@.len(), |k: int| rev@[rev@.len() - 1 - k]);
                let before_r = Seq::new(before.len(), |k: int| before[before.len() - 1 - k]);
                assert(radix(n as nat, base as nat) =~= r2);
            }
            break ;
        }
        proof {
            assert(radix(m as nat, base as nat) == radix((m / base) as nat, base as nat).push(
                digit_char((m % base) as nat),
            ));
            let r2 = Seq::new(rev@.len(), |k: int| rev@[rev@.len() - 1 - k]);
            let before_r = Seq::new(before.len(), |k: int| before[before.len() - 1 - k]);
            assert(radix(m as nat, base as nat) + before_r =~= radix(
                (m / base) as nat,
                base as nat,
            ) + r2);
        }
        assert(m / base < m) by (nonlinear_arith)
            requires
                base >= 2,
                m >= base,
        ;
        m = m / base;
    }
    let ghost start = out@;
    let mut i = rev.len();
    while i > 0
        invariant
            i <= rev@.len(),
            out@ == start + Seq::new(
                (rev@.len() - i) as nat,
                |k: int| rev@[rev@.len() - 1 - k],
            ),
        decreases i,
    {
        i = i - 1;
        push_char(out, rev[i]);
        assert(out@ =~= start + Seq::new(
            (rev@.len() - i) as nat,
            |k: int| rev@[rev@.len() - 1 - k],
        ));
    }
    assert(Seq::new((rev@.len() - i) as nat, |k: int| rev@[rev@.len() - 1 - k]) =~= Seq::new(
        rev@.len(),
        |k: int| rev@[rev@.len() - 1 - k],
    ));
}

/// Appends `n` in lower-case hex, zero-padded to at least `width` digits.
pub fn append_hex_pad(out: &mut String, n: u64, width: usize)
    requires
        width <= 16,
    ensures
        final(out)@ == old(out)@ + hex_pad(n as nat, width as nat),
{
    let ghost start = out@;
    let ghost h = radix(n as nat, 16);
    let digits = radix_len(n, 16);
    if digits < width {
        let mut k = width - digits;
        while k > 0
            invariant
                k <= width - digits,
                out@ == start + zeros((width - digits - k) as nat),
            decreases k,
        {
            push_char(out, '0');
            k = k - 1;
            assert(out@ =~= start + zeros((width - digits - k) as nat));
        }
        let ghost mid = out@;
        append_radix(out, n, 16);
        assert(out@ =~= start + hex_pad(n as nat, width as nat));
    } else {
        append_radix(out, n, 16);
    }
}

/// Number of base-`base` digits of `n`.
pub fn radix_len(n: u64, base: u64) -> (len: usize)
    requires
        base == 10 || base == 16,
    ensures
        len == radix(n as nat, base as nat).len(),
        len <= 64,
    decreases n,
{
    if n < base {
        1
    } else {
        assert(n / base < n) by (nonlinear_arith)
            requires
                base >= 2,
                n >= base,
        ;
        proof {
            lemma_radix_len_bound(n as nat, base as nat);
        }
        radix_len(n / base, base) + 1
    }
}

proof fn lemma_radix_len_bound(n: nat, b: nat)
    requires
        2 <= b <= 16,
        n < 0x1_0000_0000_0000_0000,
    ensures
        radix(n, b).len() <= 64,
    decreases n,
{
    vstd::arithmetic::power2::lemma2_to64();
    assert(vstd::arithmetic::power2::pow2(64) == 0x10000000000000000);
    vstd::arithmetic::power::lemma_pow_positive(2, 64);
    assert(vstd::arithmetic::power::pow(2, 64) == 0x10000000000000000);
    lemma_radix_len_log(n, b, 64);
}

pub proof fn lemma_radix_len_log(n: nat, b: nat, k: nat)
    requires
        2 <= b <= 16,
        k >= 1,
        n < vstd::arithmetic::power::pow(2, k),
    ensures
        radix(n, b).len() <= k,
    decreases n,
{
    vstd::arithmetic::power::lemma_pow_positive(2, k);
    if n >= b {
        let k1 = (k - 1) as nat;
        assert(n / b < n) by (nonlinear_arith)
            requires
                b >= 2,
                n >= b,
        ;
        vstd::arithmetic::power::lemma_pow_adds(2, 1, k1);
        vstd::arithmetic::power::lemma_pow1(2);
        assert(k1 >= 1) by {
            if k1 == 0 {
                vstd::arithmetic::power::lemma_pow0(2);
            }
        }
        assert(n / b < vstd::arithmetic::power::pow(2, k1)) by (nonlinear_arith)
            requires
                b >= 2,
                n < vstd::arithmetic::power::pow(2, k),
                vstd::arithmetic::power::pow(2, k) == 2 * vstd::arithmetic::power::pow(2, k1),
        ;
        lemma_radix_len_log(n / b, b, k1);
    }
}

/// Appends `bytes` as `{:02x?}` renders a byte list: `[b4, 06, 00]`.
pub fn append_hex_list(out: &mut String, bytes: &[u8])
    ensures
        final(out)@ == old(out)@ + hex_list(bytes@),
{
    let ghost start = out@;
    push_char(out, '[');
    let mut i: usize = 0;
    while i < bytes.len()
        invariant
            i <= bytes@.len(),
            out@ == start + seq!['['] + hex_items(bytes@.subrange(0, i as int)),
        decreases bytes@.len() - i,
    {
        let ghost before = out@;
        if i > 0 {
            push_char(out, ',');
            push_char(out, ' ');
        }
        append_hex_pad(out, bytes[i] as u64, 2);
        let ghost pre = bytes@.subrange(0, i as int);
        let ghost post = bytes@.subrange(0, i + 1);
        assert(post.drop_last() =~= pre);
        i = i + 1;
        if i == 1 {
            assert(hex_items(post) == hex_pad(post[0] as nat, 2));
            assert(out@ =~= start + seq!['['] + hex_items(post));
        } else {
            assert(out@ =~= start + seq!['['] + hex_items(post));
        }
    }
    assert(bytes@.subrange(0, bytes@.len() as int) =~= bytes@);
    push_char(out, ']');
    assert(out@ =~= start + hex_list(bytes@));
}

/// Decimal rendering of `n` as a new `String`.
pub fn dec_string(n: u64) -> (s: String)
    ensures
        s@ == dec(n as nat),
{
    let mut s = String::new();
    append_radix(&mut s, n, 10);
    assert(s@ =~= dec(n as nat));
    s
}

/// Whether two string slices hold the same characters.
pub fn str_eq(a: &str, b: &str) -> (r: bool)
    ensures
        r == (a@ == b@),
{
    let n = a.unicode_len();
    if n != b.unicode_len() {
        return false;
    }
    let mut i: usize = 0;
    while i < n
        invariant
            n == a@.len(),
            n == b@.len(),
            i <= n,
            forall|k: int| 0 <= k < i ==> a@[k] == b@[k],
        decreases n - i,
    {
        if a.get_char(i) != b.get_char(i) {
            return false;
        }
        i = i + 1;
    }
    assert(a@ =~= b@);
    true
}

/// Decimal rendering of a signed integer, as `{}` prints it.
pub open spec fn signed_dec(v: int) -> Seq<char> {
    if v < 0 {
        seq!['-'] + dec((-v) as nat)
    } else {
        dec(v as nat)
    }
}

/// Appends `v` in decimal with a leading '-' when negative.
pub fn append_signed(out: &mut String, v: i64)
    ensures
        final(out)@ == old(out)@ + signed_dec(v as int),
{
    let ghost start = out@;
    if v < 0 {
        push_char(out, '-');
        let mag: u64 = if v == i64::MIN {
            0x8000_0000_0000_0000u64
        } else {
            (-v) as u64
        };
        append_radix(out, mag, 10);
        assert(out@ =~= start + signed_dec(v as int));
    } else {
        append_radix(out, v as u64, 10);
        assert(out@ =~= start + signed_dec(v as int));
    }
}

} // verus!
