//! Building display strings: decimal numbers, hex bytes, dotted versions.

use vstd::prelude::*;

verus! {

/// std's `String::push` appends one character to the end of the string.
pub assume_specification[ String::push ](s: &mut String, ch: char)
    ensures
        final(s)@ == old(s)@.push(ch),
;

/// The ASCII character of a decimal digit `d < 10`.
pub open spec fn digit_char(d: int) -> char {
    if d == 0 { '0' }
    else if d == 1 { '1' }
    else if d == 2 { '2' }
    else if d == 3 { '3' }
    else if d == 4 { '4' }
    else if d == 5 { '5' }
    else if d == 6 { '6' }
    else if d == 7 { '7' }
    else if d == 8 { '8' }
    else { '9' }
}

/// Whether `c` is one of the ASCII characters `'0'..='9'`.
pub open spec fn is_digit_char(c: char) -> bool {
    '0' <= c && c <= '9'
}

/// The numeric value of an ASCII digit character.
pub open spec fn digit_value(c: char) -> int {
    c as int - '0' as int
}

/// The shortest decimal representation of `n` (no leading zeros, "0" for 0).
pub open spec fn dec(n: nat) -> Seq<char>
    decreases n,
{
    if n < 10 {
        seq![digit_char(n as int)]
    } else {
        dec(n / 10).push(digit_char((n % 10) as int))
    }
}

/// The decimal representation of a signed integer: a `'-'` before the
/// magnitude when negative.
pub open spec fn dec_signed(n: int) -> Seq<char> {
    if n < 0 { seq!['-'] + dec((-n) as nat) } else { dec(n as nat) }
}

/// `n` written with exactly `width` decimal digits (leading zeros kept),
/// for `n < 10^width`.
pub open spec fn dec_fixed(n: nat, width: nat) -> Seq<char>
    decreases width,
{
    if width == 0 {
        Seq::empty()
    } else {
        dec_fixed(n / 10, (width - 1) as nat).push(digit_char((n % 10) as int))
    }
}

/// The character for a decimal digit.
pub fn digit_to_char(d: u64) -> (c: char)
    requires
        d < 10,
    ensures
        c == digit_char(d as int),
        is_digit_char(c),
        digit_value(c) == d,
{
    if d == 0 { '0' }
    else if d == 1 { '1' }
    else if d == 2 { '2' }
    else if d == 3 { '3' }
    else if d == 4 { '4' }
    else if d == 5 { '5' }
    else if d == 6 { '6' }
    else if d == 7 { '7' }
    else if d == 8 { '8' }
    else { '9' }
}

/// Append the decimal representation of `n` to `s`.
pub fn push_dec(s: &mut String, n: u128)
    ensures
        final(s)@ == old(s)@ + dec(n as nat),
    decreases n,
{
    if n >= 10 {
        push_dec(s, n / 10);
    }
    let c = digit_to_char((n % 10) as u64);
    s.push(c);
    assert(final(s)@ =~= old(s)@ + dec(n as nat));
}

/// The decimal representation of `n`.
pub fn u64_to_string(n: u64) -> (s: String)
    ensures
        s@ == dec(n as nat),
{
    let mut s = String::new();
    push_dec(&mut s, n as u128);
    assert(s@ =~= dec(n as nat));
    s
}

/// The decimal representation of a signed value.
pub fn i64_to_string(n: i64) -> (s: String)
    ensures
        s@ == dec_signed(n as int),
{
    let mut s = String::new();
    if n < 0 {
        s.push('-');
        let m: u64 = if n == i64::MIN { 9223372036854775808u64 } else { (-n) as u64 };
        push_dec(&mut s, m as u128);
    } else {
        push_dec(&mut s, n as u128);
    }
    assert(s@ =~= dec_signed(n as int));
    s
}

/// Append `n` with exactly `width` digits (zero-padded) to `s`.
pub fn push_dec_fixed(s: &mut String, n: u64, width: u64)
    ensures
        final(s)@ == old(s)@ + dec_fixed(n as nat, width as nat),
    decreases width,
{
    if width > 0 {
        push_dec_fixed(s, n / 10, width - 1);
        let c = digit_to_char(n % 10);
        s.push(c);
    }
    assert(final(s)@ =~= old(s)@ + dec_fixed(n as nat, width as nat));
}

/// The upper-case hexadecimal digit for a nibble.
pub open spec fn hex_upper_char(d: int) -> char {
    if d < 10 { digit_char(d) }
    else if d == 10 { 'A' }
    else if d == 11 { 'B' }
    else if d == 12 { 'C' }
    else if d == 13 { 'D' }
    else if d == 14 { 'E' }
    else { 'F' }
}

/// The lower-case hexadecimal digit for a nibble.
pub open spec fn hex_lower_char(d: int) -> char {
    if d < 10 { digit_char(d) }
    else if d == 10 { 'a' }
    else if d == 11 { 'b' }
    else if d == 12 { 'c' }
    else if d == 13 { 'd' }
    else if d == 14 { 'e' }
    else { 'f' }
}

/// Each byte as two upper-case hex digits (`{:02X}`), concatenated.
pub open spec fn hex_upper(bytes: Seq<u8>) -> Seq<char>
    decreases bytes.len(),
{
    if bytes.len() == 0 {
        Seq::empty()
    } else {
        let b = bytes.last();
        hex_upper(bytes.drop_last()).push(hex_upper_char((b / 16) as int)).push(hex_upper_char((b % 16) as int))
    }
}

/// Each byte as two lower-case hex digits (`{:02x}`), concatenated.
pub open spec fn hex_lower(bytes: Seq<u8>) -> Seq<char>
    decreases bytes.len(),
{
    if bytes.len() == 0 {
        Seq::empty()
    } else {
        let b = bytes.last();
        hex_lower(bytes.drop_last()).push(hex_lower_char((b / 16) as int)).push(hex_lower_char((b % 16) as int))
    }
}

/// Whether `c` is one of `0`–`9`, `A`–`F`.
pub open spec fn is_upper_hex_char(c: char) -> bool {
    ('0' <= c && c <= '9') || ('A' <= c && c <= 'F')
}

/// Upper-case hex has two characters per byte, each `0`–`9` or `A`–`F`.
pub proof fn lemma_hex_upper_shape(bytes: Seq<u8>)
    ensures
        hex_upper(bytes).len() == 2 * bytes.len(),
        forall|i: int| 0 <= i < hex_upper(bytes).len() ==> #[trigger] is_upper_hex_char(
            hex_upper(bytes)[i],
        ),
    decreases bytes.len(),
{
    if bytes.len() > 0 {
        let p = bytes.drop_last();
        lemma_hex_upper_shape(p);
        let b = bytes.last();
        let hi = hex_upper_char((b / 16) as int);
        let lo = hex_upper_char((b % 16) as int);
        assert(is_upper_hex_char(hi));
        assert(is_upper_hex_char(lo));
        let h = hex_upper(bytes);
        assert forall|i: int| 0 <= i < h.len() implies #[trigger] is_upper_hex_char(h[i]) by {
            if i < hex_upper(p).len() {
                assert(h[i] == hex_upper(p)[i]);
            }
        }
    }
}

fn nibble_char(d: u8, upper: bool) -> (c: char)
    requires
        d < 16,
    ensures
        upper ==> c == hex_upper_char(d as int),
        !upper ==> c == hex_lower_char(d as int),
{
    if d < 10 {
        digit_to_char(d as u64)
    } else if d == 10 {
        if upper { 'A' } else { 'a' }
    } else if d == 11 {
        if upper { 'B' } else { 'b' }
    } else if d == 12 {
        if upper { 'C' } else { 'c' }
    } else if d == 13 {
        if upper { 'D' } else { 'd' }
    } else if d == 14 {
        if upper { 'E' } else { 'e' }
    } else {
        if upper { 'F' } else { 'f' }
    }
}

/// Append the two-digit hex form of every byte of `bytes` to `s`.
pub fn push_hex(s: &mut String, bytes: &[u8], upper: bool)
    ensures
        upper ==> final(s)@ == old(s)@ + hex_upper(bytes@),
        !upper ==> final(s)@ == old(s)@ + hex_lower(bytes@),
{
    let ghost start = s@;
    let mut i: usize = 0;
    while i < bytes.len()
        invariant
            i <= bytes@.len(),
            upper ==> s@ == start + hex_upper(bytes@.subrange(0, i as int)),
            !upper ==> s@ == start + hex_lower(bytes@.subrange(0, i as int)),
        decreases bytes@.len() - i,
    {
        let b = bytes[i];
        let hi = nibble_char(b / 16, upper);
        let lo = nibble_char(b % 16, upper);
        s.push(hi);
        s.push(lo);
        proof {
            let pre = bytes@.subrange(0, i as int);
            let post = bytes@.subrange(0, i + 1);
            assert(post.drop_last() =~= pre);
            assert(post.last() == b);
        }
        i = i + 1;
        proof {
            if upper {
                assert(s@ =~= start + hex_upper(bytes@.subrange(0, i as int)));
            } else {
                assert(s@ =~= start + hex_lower(bytes@.subrange(0, i as int)));
            }
        }
    }
    assert(bytes@.subrange(0, bytes@.len() as int) =~= bytes@);
}

/// A firmware version `a.b.c` stored as three bytes `[c, b, a]` at `off`.
pub open spec fn version_text(data: Seq<u8>, off: int) -> Seq<char> {
    dec(data[off + 2] as nat) + seq!['.'] + dec(data[off + 1] as nat) + seq!['.']
        + dec(data[off] as nat)
}

/// Format the version stored at `data[offset..offset + 3]` as
/// `"{data[offset+2]}.{data[offset+1]}.{data[offset]}"`.
pub fn read_version(data: &[u8], offset: usize) -> (s: String)
    requires
        offset + 3 <= data@.len(),
    ensures
        s@ == version_text(data@, offset as int),
{
    let n = data.len();
    assert(offset + 3 <= n);
    let mut s = String::new();
    push_dec(&mut s, data[offset + 2] as u128);
    s.push('.');
    push_dec(&mut s, data[offset + 1] as u128);
    s.push('.');
    push_dec(&mut s, data[offset] as u128);
    assert(s@ =~= version_text(data@, offset as int));
    s
}

/// The 4-byte slot of a firmware version `major.minor.patch`: patch, minor,
/// major, then a spare byte.
pub open spec fn version_bytes(v: (u8, u8, u8)) -> Seq<u8> {
    seq![v.2, v.1, v.0, 0u8]
}

/// A firmware version `major.minor.patch` as text.
pub open spec fn version_string(v: (u8, u8, u8)) -> Seq<char> {
    dec(v.0 as nat) + seq!['.'] + dec(v.1 as nat) + seq!['.'] + dec(v.2 as nat)
}

/// A version slot written at `off` reads back as its text.
pub proof fn lemma_version_at(d: Seq<u8>, off: int, v: (u8, u8, u8))
    requires
        0 <= off,
        off + 4 <= d.len(),
        d.subrange(off, off + 4) == version_bytes(v),
    ensures
        version_text(d, off) == version_string(v),
{
    let s = d.subrange(off, off + 4);
    assert(d[off] == s[0] && d[off + 1] == s[1] && d[off + 2] == s[2]);
}

/// `10^w`.
pub open spec fn pow10(w: nat) -> nat
    decreases w,
{
    if w == 0 { 1 } else { 10 * pow10((w - 1) as nat) }
}

/// Whether every character of `s` is an ASCII digit.
pub open spec fn all_digits(s: Seq<char>) -> bool {
    forall|i: int| 0 <= i < s.len() ==> #[trigger] is_digit_char(s[i])
}

/// The number that a string of decimal digits spells (0 for the empty string).
pub open spec fn dec_value(s: Seq<char>) -> int
    decreases s.len(),
{
    if s.len() == 0 { 0 } else { dec_value(s.drop_last()) * 10 + digit_value(s.last()) }
}

proof fn lemma_digit_char(d: int)
    requires
        0 <= d < 10,
    ensures
        is_digit_char(digit_char(d)),
        digit_value(digit_char(d)) == d,
{
}

/// A digit string spells a non-negative number.
pub proof fn lemma_dec_value_nonneg(s: Seq<char>)
    requires
        all_digits(s),
    ensures
        dec_value(s) >= 0,
    decreases s.len(),
{
    if s.len() > 0 {
        assert(all_digits(s.drop_last())) by {
            assert forall|i: int| 0 <= i < s.drop_last().len() implies #[trigger] is_digit_char(
                s.drop_last()[i],
            ) by {
                assert(s.drop_last()[i] == s[i]);
            }
        }
        lemma_dec_value_nonneg(s.drop_last());
        assert(is_digit_char(s[s.len() - 1]));
    }
}

/// `dec_fixed(n, w)` is `w` ASCII digits, and when `n < 10^w` they spell `n`.
pub proof fn lemma_dec_fixed(n: nat, w: nat)
    ensures
        dec_fixed(n, w).len() == w,
        all_digits(dec_fixed(n, w)),
        n < pow10(w) ==> dec_value(dec_fixed(n, w)) == n,
    decreases w,
{
    if w > 0 {
        lemma_dec_fixed(n / 10, (w - 1) as nat);
        let prev = dec_fixed(n / 10, (w - 1) as nat);
        let s = dec_fixed(n, w);
        lemma_digit_char((n % 10) as int);
        assert(s == prev.push(digit_char((n % 10) as int)));
        assert(s.drop_last() =~= prev);
        assert forall|i: int| 0 <= i < s.len() implies #[trigger] is_digit_char(s[i]) by {
            if i < prev.len() {
                assert(s[i] == prev[i]);
            }
        }
        if n < pow10(w) {
            assert(n / 10 < pow10((w - 1) as nat));
            assert(dec_value(s) == dec_value(prev) * 10 + (n % 10) as int);
        }
    }
}

/// Hex-encoding a concatenation encodes each part in turn, two characters
/// per byte.
pub proof fn lemma_hex_upper_append(a: Seq<u8>, b: Seq<u8>)
    ensures
        hex_upper(a + b) == hex_upper(a) + hex_upper(b),
        hex_upper(a).len() == 2 * a.len(),
    decreases a.len() + b.len(),
{
    if b.len() == 0 {
        assert(a + b =~= a);
        assert(hex_upper(b) =~= Seq::<char>::empty());
        assert(hex_upper(a) + hex_upper(b) =~= hex_upper(a));
        if a.len() > 0 {
            lemma_hex_upper_append(a.drop_last(), b);
        }
    } else {
        lemma_hex_upper_append(a, b.drop_last());
        assert((a + b).drop_last() =~= a + b.drop_last());
        assert((a + b).last() == b.last());
        let x = b.last();
        assert(hex_upper(a + b) == hex_upper(a + b.drop_last()).push(
            hex_upper_char((x / 16) as int),
        ).push(hex_upper_char((x % 16) as int)));
        assert(hex_upper(a) + hex_upper(b) =~= (hex_upper(a) + hex_upper(b.drop_last())).push(
            hex_upper_char((x / 16) as int),
        ).push(hex_upper_char((x % 16) as int)));
    }
}

} // verus!
