//! PIN derivation and V2 authentication payload construction.
//!
//! Everything here starts from `hash = SHA-256("VIN-SOLDDATE")`.

use vstd::prelude::*;
use vstd::string::StrSliceExecFns;
use vstd::utf8::encode_utf8;

use crate::protocol::SOLD_DATE_DEFAULT;
use crate::text::{
    all_digits, dec_fixed, dec_value, digit_value, hex_upper, is_digit_char, is_upper_hex_char,
    lemma_dec_fixed, lemma_hex_upper_shape,
    lemma_dec_value_nonneg, lemma_hex_upper_append, pow10, push_dec_fixed, push_hex,
};

verus! {

/// Variant-2 hash index table for the intermediate key derivation.
pub const HASH_IDX_V2: [u8; 16] = [
    0x19, 0x05, 0x07, 0x16, 0x13, 0x0c, 0x16, 0x0b, 0x0c, 0x05, 0x18, 0x0d, 0x17, 0x17, 0x12, 0x30,
];

/// Variant-2 mixing table for the intermediate key derivation.
pub const MIX_V2: [u16; 16] = [
    0xc356, 0x9b94, 0x0dbd, 0xc561, 0x3139, 0x300f, 0xee5a, 0xe883, 0x4638, 0x89ca, 0x8b30, 0x593d,
    0xe47d, 0x2ea2, 0x89bc, 0xaafe,
];

// ---------------------------------------------------------------------------
// SHA-256
// ---------------------------------------------------------------------------

/// The SHA-256 digest of a byte string.
pub uninterp spec fn sha256(data: Seq<u8>) -> Seq<u8>;

/// Hashes `data` with `sha2::Sha256::digest`. The contract names the digest
/// (`sha256`); its length of 32 bytes is the result type's.
#[verifier::external_body]
fn sha256_digest(data: &[u8]) -> (h: [u8; 32])
    ensures
        h@ == sha256(data@),
{
    <sha2::Sha256 as sha2::Digest>::digest(data).into()
}

/// The hashed message: the UTF-8 bytes of the VIN, `'-'`, then those of the
/// sold-on date.
pub open spec fn vin_date_message(vin: Seq<char>, sold_on: Seq<char>) -> Seq<u8> {
    encode_utf8(vin) + seq![0x2du8] + encode_utf8(sold_on)
}

/// `SHA-256("VIN-SOLDDATE")`.
pub open spec fn vin_date_hash(vin: Seq<char>, sold_on: Seq<char>) -> Seq<u8> {
    sha256(vin_date_message(vin, sold_on))
}

/// `SHA-256("VIN-SOLDDATE")`, the root of every derived secret.
pub fn sha256_vin_date(vin: &str, sold_on: &str) -> (h: [u8; 32])
    ensures
        h@ == vin_date_hash(vin@, sold_on@),
{
    let v = vin.as_bytes();
    let d = sold_on.as_bytes();
    let mut msg: Vec<u8> = Vec::new();
    msg.extend_from_slice(v);
    msg.push(0x2d);
    msg.extend_from_slice(d);
    assert(msg@ =~= vin_date_message(vin@, sold_on@));
    sha256_digest(msg.as_slice())
}

// ---------------------------------------------------------------------------
// Sold-on date
// ---------------------------------------------------------------------------

/// The digits of `raw`, in order, everything else dropped.
pub open spec fn digits_of(raw: Seq<char>) -> Seq<char>
    decreases raw.len(),
{
    if raw.len() == 0 {
        Seq::empty()
    } else if is_digit_char(raw.last()) {
        digits_of(raw.drop_last()).push(raw.last())
    } else {
        digits_of(raw.drop_last())
    }
}

/// The normalized sold-on date: the first 8 digits of `raw`, or the default
/// date when it holds fewer than 8.
pub open spec fn normalized_sold_on(raw: Seq<char>) -> Seq<char> {
    if digits_of(raw).len() < 8 {
        SOLD_DATE_DEFAULT@
    } else {
        digits_of(raw).subrange(0, 8)
    }
}

/// Normalize a raw sold-on date string.
///
/// Strips all non-digit characters, takes the first 8 digits, and falls
/// back to [`SOLD_DATE_DEFAULT`] if fewer than 8 digits remain.
pub fn normalize_sold_on(raw: &str) -> (date: String)
    ensures
        date@ == normalized_sold_on(raw@),
{
    let n = raw.unicode_len();
    let mut digits = String::new();
    let mut count: usize = 0;
    let mut i: usize = 0;
    while i < n
        invariant
            n == raw@.len(),
            i <= n,
            digits@ == digits_of(raw@.subrange(0, i as int)),
            count == digits@.len(),
            count <= i,
        decreases n - i,
    {
        let c = raw.get_char(i);
        assert(raw@.subrange(0, i + 1).drop_last() =~= raw@.subrange(0, i as int));
        assert(raw@.subrange(0, i + 1).last() == c);
        if '0' <= c && c <= '9' {
            digits.push(c);
            count = count + 1;
        }
        i = i + 1;
    }
    assert(raw@.subrange(0, n as int) =~= raw@);
    if count < 8 {
        String::from_str(SOLD_DATE_DEFAULT)
    } else {
        String::from_str(digits.as_str().substring_char(0, 8))
    }
}

/// Every character kept by [`digits_of`] is a digit.
proof fn lemma_digits_of_all_digits(raw: Seq<char>)
    ensures
        all_digits(digits_of(raw)),
    decreases raw.len(),
{
    if raw.len() > 0 {
        lemma_digits_of_all_digits(raw.drop_last());
    }
}

/// A string of digits keeps all its characters.
proof fn lemma_digits_of_digit_string(s: Seq<char>)
    requires
        all_digits(s),
    ensures
        digits_of(s) == s,
    decreases s.len(),
{
    if s.len() > 0 {
        let p = s.drop_last();
        assert(all_digits(p)) by {
            assert forall|i: int| 0 <= i < p.len() implies #[trigger] is_digit_char(p[i]) by {
                assert(p[i] == s[i]);
            }
        }
        lemma_digits_of_digit_string(p);
        assert(is_digit_char(s[s.len() - 1]));
        assert(p.push(s.last()) =~= s);
    }
}

/// Normalizing a sold-on date that is already normalized changes nothing.
pub proof fn lemma_normalize_sold_on_idempotent(raw: Seq<char>)
    ensures
        normalized_sold_on(normalized_sold_on(raw)) == normalized_sold_on(raw),
        normalized_sold_on(raw).len() == 8,
        all_digits(normalized_sold_on(raw)),
{
    reveal_strlit("19700101");
    let n = normalized_sold_on(raw);
    if digits_of(raw).len() >= 8 {
        lemma_digits_of_all_digits(raw);
        let d = digits_of(raw);
        assert forall|i: int| 0 <= i < n.len() implies #[trigger] is_digit_char(n[i]) by {
            assert(n[i] == d[i]);
        }
    } else {
        assert(n == SOLD_DATE_DEFAULT@);
        assert forall|i: int| 0 <= i < n.len() implies #[trigger] is_digit_char(n[i]) by {}
    }
    lemma_digits_of_digit_string(n);
    assert(n.subrange(0, 8) =~= n);
}

// ---------------------------------------------------------------------------
// Pairing PIN
// ---------------------------------------------------------------------------

/// The numeric pairing passkey of a hash (0–9999):
/// `d = ((hash[k] ^ mask) + add) % 10` in 32-bit arithmetic, for
/// (k, mask, add) = (15, 0xB3, 0xEF), (9, 0x9E, 0x64), (14, 0xEC, 0xD1),
/// (3, 0xC5, 0xE4), read as a four-digit number.
pub open spec fn pin_code(h: Seq<u8>) -> nat {
    let d1 = ((h[15] ^ 0xB3u8) as nat + 0xEF) % 10;
    let d2 = ((h[9] ^ 0x9Eu8) as nat + 0x64) % 10;
    let d3 = ((h[14] ^ 0xECu8) as nat + 0xD1) % 10;
    let d4 = ((h[3] ^ 0xC5u8) as nat + 0xE4) % 10;
    d1 * 1000 + d2 * 100 + d3 * 10 + d4
}

/// The PIN text for a hash: its passkey zero-padded to six digits.
pub open spec fn pin_text(h: Seq<u8>) -> Seq<char> {
    dec_fixed(pin_code(h), 6)
}

/// The six-character PIN for an already computed `SHA-256("VIN-SOLDDATE")`.
pub fn pin_from_hash(h: &[u8; 32]) -> (pin: String)
    ensures
        pin@ == pin_text(h@),
        pin_code(h@) < 10000,
{
    let d1: u32 = ((h[15] ^ 0xB3) as u32 + 0xEF) % 10;
    let d2: u32 = ((h[9] ^ 0x9E) as u32 + 0x64) % 10;
    let d3: u32 = ((h[14] ^ 0xEC) as u32 + 0xD1) % 10;
    let d4: u32 = ((h[3] ^ 0xC5) as u32 + 0xE4) % 10;
    let pin = d1 * 1000 + d2 * 100 + d3 * 10 + d4;
    let mut s = String::new();
    push_dec_fixed(&mut s, pin as u64, 6);
    assert(s@ =~= pin_text(h@));
    s
}

/// Compute the BLE pairing PIN for a given (VIN, sold_on).
///
/// Returns a 6-character zero-padded decimal string (e.g. `"001379"`).
/// The underlying numeric range is 0000–9999. The BLE SMP passkey is
/// the numeric value (e.g. `1379`).
pub fn generate_pin(vin: &str, sold_on: &str) -> (pin: String)
    ensures
        pin@ == pin_text(vin_date_hash(vin@, sold_on@)),
        pin@.len() == 6,
        all_digits(pin@),
        pin_code(vin_date_hash(vin@, sold_on@)) < 10000,
{
    let h = sha256_vin_date(vin, sold_on);
    let pin = pin_from_hash(&h);
    proof {
        lemma_dec_fixed(pin_code(h@), 6);
    }
    pin
}

/// The digits of an unsigned decimal literal: `s` without one leading `'+'`.
pub open spec fn unsigned_digits(s: Seq<char>) -> Seq<char> {
    if s.len() > 0 && s[0] == '+' { s.drop_first() } else { s }
}

/// What std's `str::parse::<u32>` makes of `s`: an optional `'+'` followed
/// by one or more ASCII digits whose value fits in 32 bits; anything else
/// is an error (`None`).
pub open spec fn parse_u32_text(s: Seq<char>) -> Option<u32> {
    let d = unsigned_digits(s);
    if d.len() > 0 && all_digits(d) && dec_value(d) <= u32::MAX {
        Some(dec_value(d) as u32)
    } else {
        None
    }
}

/// The passkey a PIN string denotes: its `u32` value, or 0 when it does not parse.
pub open spec fn passkey_of(pin: Seq<char>) -> u32 {
    match parse_u32_text(pin) {
        Some(v) => v,
        None => 0,
    }
}

fn char_digit(c: char) -> (d: u64)
    requires
        is_digit_char(c),
    ensures
        d == digit_value(c),
{
    if c == '0' { 0 }
    else if c == '1' { 1 }
    else if c == '2' { 2 }
    else if c == '3' { 3 }
    else if c == '4' { 4 }
    else if c == '5' { 5 }
    else if c == '6' { 6 }
    else if c == '7' { 7 }
    else if c == '8' { 8 }
    else { 9 }
}

/// Parse a PIN string (as returned by [`generate_pin`]) into the numeric
/// passkey value expected by BLE SMP.
pub fn pin_to_passkey(pin: &str) -> (key: u32)
    ensures
        key == passkey_of(pin@),
{
    let n = pin.unicode_len();
    if n == 0 {
        return 0;
    }
    let start: usize = if pin.get_char(0) == '+' { 1 } else { 0 };
    let ghost digits = unsigned_digits(pin@);
    assert(digits =~= pin@.subrange(start as int, n as int));
    if start == n {
        return 0;
    }
    let mut v: u64 = 0;
    let mut overflow = false;
    let mut i: usize = start;
    assert(pin@.subrange(start as int, start as int) =~= Seq::<char>::empty());
    while i < n
        invariant
            n == pin@.len(),
            start <= i <= n,
            digits == pin@.subrange(start as int, n as int),
            digits == unsigned_digits(pin@),
            all_digits(pin@.subrange(start as int, i as int)),
            !overflow ==> v == dec_value(pin@.subrange(start as int, i as int)) && v <= u32::MAX,
            overflow ==> dec_value(pin@.subrange(start as int, i as int)) > u32::MAX,
        decreases n - i,
    {
        let c = pin.get_char(i);
        let ghost pre = pin@.subrange(start as int, i as int);
        let ghost post = pin@.subrange(start as int, i + 1);
        assert(post.drop_last() =~= pre);
        assert(post.last() == c);
        if !('0' <= c && c <= '9') {
            assert(digits[i - start] == c);
            assert(!is_digit_char(digits[i - start]));
            assert(!all_digits(digits));
            return 0;
        }
        let d = char_digit(c);
        proof {
            lemma_dec_value_nonneg(pre);
            assert forall|k: int| 0 <= k < post.len() implies #[trigger] is_digit_char(post[k]) by {
                if k < pre.len() {
                    assert(post[k] == pre[k]);
                }
            }
        }
        if !overflow {
            let nv = v * 10 + d;
            if nv > 0xFFFF_FFFF {
                overflow = true;
            } else {
                v = nv;
            }
        }
        i = i + 1;
    }
    assert(pin@.subrange(start as int, n as int) == digits);
    if overflow {
        0
    } else {
        v as u32
    }
}

/// A generated PIN always parses back to its passkey: reading the PIN text
/// of a hash as a number gives exactly the 0–9999 code it was made from.
pub proof fn lemma_pin_passkey_roundtrip(h: Seq<u8>)
    requires
        h.len() == 32,
    ensures
        pin_code(h) < 10000,
        passkey_of(pin_text(h)) == pin_code(h),
{
    let n = pin_code(h);
    assert(n < 10000);
    assert(pow10(6) == 1000000) by {
        reveal_with_fuel(pow10, 7);
    }
    lemma_dec_fixed(n, 6);
    let s = pin_text(h);
    assert(s.len() == 6);
    if s[0] == '+' {
        assert(is_digit_char(s[0]));
    }
    assert(unsigned_digits(s) == s);
}

// ---------------------------------------------------------------------------
// Wi-Fi credentials
// ---------------------------------------------------------------------------

/// The Wi-Fi password for a hash: the first 16 characters of its upper-case hex.
pub fn wifi_password_from_hash(h: &[u8; 32]) -> (password: String)
    ensures
        password@ == hex_upper(h@).subrange(0, 16),
        password@.len() == 16,
        forall|i: int| 0 <= i < 16 ==> #[trigger] is_upper_hex_char(password@[i]),
{
    proof {
        lemma_hex_upper_shape(h@);
    }
    let mut s = String::new();
    let first = &h.as_slice()[0..8];
    push_hex(&mut s, first, true);
    proof {
        let a = h@.subrange(0, 8);
        let b = h@.subrange(8, 32);
        assert(h@ =~= a + b);
        lemma_hex_upper_append(a, b);
        assert(first@ == a);
        assert(s@ =~= hex_upper(h@).subrange(0, 16));
    }
    s
}

/// Derive the Wi-Fi password for the bike's firmware update AP.
///
/// The SSID is `VARG-<VIN>`. The password is the first 16 characters of
/// the uppercase hex SHA-256 of `"VIN-SOLDDATE"`.
pub fn wifi_password(vin: &str, sold_on: &str) -> (password: String)
    ensures
        password@ == hex_upper(vin_date_hash(vin@, sold_on@)).subrange(0, 16),
        password@.len() == 16,
        forall|i: int| 0 <= i < 16 ==> #[trigger] is_upper_hex_char(password@[i]),
{
    let h = sha256_vin_date(vin, sold_on);
    wifi_password_from_hash(&h)
}

/// The Wi-Fi SSID the bike broadcasts during firmware updates.
pub fn wifi_ssid(vin: &str) -> (ssid: String)
    ensures
        ssid@ == "VARG-"@ + vin@,
{
    let mut s = String::from_str("VARG-");
    s.append(vin);
    s
}

// ---------------------------------------------------------------------------
// V2 authentication
// ---------------------------------------------------------------------------

/// Byte `i` of the intermediate key `K` for a hash:
/// `idx = HASH_IDX_V2[i] ^ (i + 0x11)`,
/// `mix = (i * 0x1111) ^ MIX_V2[i] ^ 0xFFFFA5A5`,
/// `K[i] = (hash[idx] ^ mix_hi) wrapping_add mix_lo`.
pub open spec fn key_byte_v2(h: Seq<u8>, i: int) -> u8 {
    let idx = HASH_IDX_V2@[i] ^ ((i + 0x11) as u8);
    let mix = ((i * 0x1111) as u32) ^ (MIX_V2@[i] as u32) ^ 0xFFFF_A5A5u32;
    let mix_hi = ((mix >> 8u32) & 0xffu32) as u8;
    let mix_lo = (mix & 0xffu32) as u8;
    (((h[idx as int] ^ mix_hi) as int + mix_lo as int) % 256) as u8
}

/// The 16-byte intermediate key `K` for a hash.
pub open spec fn key_v2(h: Seq<u8>) -> Seq<u8> {
    Seq::new(16, |i: int| key_byte_v2(h, i))
}

/// The table index used for byte `i` of `K` always falls inside the 32-byte hash.
pub proof fn lemma_key_indices_in_range(i: int)
    requires
        0 <= i < 16,
    ensures
        (HASH_IDX_V2@[i] ^ ((i + 0x11) as u8)) < 32,
{
    let t = HASH_IDX_V2@;
    let x = t[i];
    let m = (i + 0x11) as u8;
    if i == 0 { assert(0x19u8 ^ 0x11u8 < 32u8) by (bit_vector); }
    else if i == 1 { assert(0x05u8 ^ 0x12u8 < 32u8) by (bit_vector); }
    else if i == 2 { assert(0x07u8 ^ 0x13u8 < 32u8) by (bit_vector); }
    else if i == 3 { assert(0x16u8 ^ 0x14u8 < 32u8) by (bit_vector); }
    else if i == 4 { assert(0x13u8 ^ 0x15u8 < 32u8) by (bit_vector); }
    else if i == 5 { assert(0x0cu8 ^ 0x16u8 < 32u8) by (bit_vector); }
    else if i == 6 { assert(0x16u8 ^ 0x17u8 < 32u8) by (bit_vector); }
    else if i == 7 { assert(0x0bu8 ^ 0x18u8 < 32u8) by (bit_vector); }
    else if i == 8 { assert(0x0cu8 ^ 0x19u8 < 32u8) by (bit_vector); }
    else if i == 9 { assert(0x05u8 ^ 0x1au8 < 32u8) by (bit_vector); }
    else if i == 10 { assert(0x18u8 ^ 0x1bu8 < 32u8) by (bit_vector); }
    else if i == 11 { assert(0x0du8 ^ 0x1cu8 < 32u8) by (bit_vector); }
    else if i == 12 { assert(0x17u8 ^ 0x1du8 < 32u8) by (bit_vector); }
    else if i == 13 { assert(0x17u8 ^ 0x1eu8 < 32u8) by (bit_vector); }
    else if i == 14 { assert(0x12u8 ^ 0x1fu8 < 32u8) by (bit_vector); }
    else { assert(0x30u8 ^ 0x20u8 < 32u8) by (bit_vector); }
}

/// The hash byte that byte `i` of `K` is made from (the lookup table's
/// entry XOR `i + 0x11`).
pub open spec fn key_source(i: int) -> int {
    if i == 0 { 8 }
    else if i == 1 { 23 }
    else if i == 2 { 20 }
    else if i == 3 { 2 }
    else if i == 4 { 6 }
    else if i == 5 { 26 }
    else if i == 6 { 1 }
    else if i == 7 { 19 }
    else if i == 8 { 21 }
    else if i == 9 { 31 }
    else if i == 10 { 3 }
    else if i == 11 { 17 }
    else if i == 12 { 10 }
    else if i == 13 { 9 }
    else if i == 14 { 13 }
    else { 16 }
}

/// The mask XOR-ed into byte `i` of `K`: the high byte of its mix word.
pub open spec fn key_xor(i: int) -> u8 {
    if i == 0 { 0x66u8 }
    else if i == 1 { 0x2fu8 }
    else if i == 2 { 0x8au8 }
    else if i == 3 { 0x53u8 }
    else if i == 4 { 0xd0u8 }
    else if i == 5 { 0xc0u8 }
    else if i == 6 { 0x2du8 }
    else if i == 7 { 0x3au8 }
    else if i == 8 { 0x6bu8 }
    else if i == 9 { 0xb5u8 }
    else if i == 10 { 0x84u8 }
    else if i == 11 { 0x47u8 }
    else if i == 12 { 0x8du8 }
    else if i == 13 { 0x56u8 }
    else if i == 14 { 0xc2u8 }
    else { 0xf0u8 }
}

/// The value added (modulo 256) to byte `i` of `K`: the low byte of its mix word.
pub open spec fn key_add(i: int) -> u8 {
    if i == 0 { 0xf3u8 }
    else if i == 1 { 0x20u8 }
    else if i == 2 { 0x3au8 }
    else if i == 3 { 0xf7u8 }
    else if i == 4 { 0xd8u8 }
    else if i == 5 { 0xffu8 }
    else if i == 6 { 0x99u8 }
    else if i == 7 { 0x51u8 }
    else if i == 8 { 0x15u8 }
    else if i == 9 { 0xf6u8 }
    else if i == 10 { 0x3fu8 }
    else if i == 11 { 0x23u8 }
    else if i == 12 { 0x14u8 }
    else if i == 13 { 0xdau8 }
    else if i == 14 { 0xf7u8 }
    else { 0xa4u8 }
}

proof fn lemma_key_byte_constants(h: Seq<u8>, i: int)
    requires
        0 <= i < 16,
    ensures
        key_byte_v2(h, i) == (((h[key_source(i)] ^ key_xor(i)) as int
            + key_add(i) as int) % 256) as u8,
{
    if i == 0 {
        assert((0x0u32 ^ 0xc356u32 ^ 0xFFFF_A5A5u32) == 0xffff66f3u32
            && ((0xffff66f3u32 >> 8u32) & 0xffu32) == 0x66u32 && (0xffff66f3u32 & 0xffu32) == 0xf3u32
            && (0x19u8 ^ 0x11u8) == 8u8) by (bit_vector);
    }
    else if i == 1 {
        assert((0x1111u32 ^ 0x9b94u32 ^ 0xFFFF_A5A5u32) == 0xffff2f20u32
            && ((0xffff2f20u32 >> 8u32) & 0xffu32) == 0x2fu32 && (0xffff2f20u32 & 0xffu32) == 0x20u32
            && (0x05u8 ^ 0x12u8) == 23u8) by (bit_vector);
    }
    else if i == 2 {
        assert((0x2222u32 ^ 0x0dbdu32 ^ 0xFFFF_A5A5u32) == 0xffff8a3au32
            && ((0xffff8a3au32 >> 8u32) & 0xffu32) == 0x8au32 && (0xffff8a3au32 & 0xffu32) == 0x3au32
            && (0x07u8 ^ 0x13u8) == 20u8) by (bit_vector);
    }
    else if i == 3 {
        assert((0x3333u32 ^ 0xc561u32 ^ 0xFFFF_A5A5u32) == 0xffff53f7u32
            && ((0xffff53f7u32 >> 8u32) & 0xffu32) == 0x53u32 && (0xffff53f7u32 & 0xffu32) == 0xf7u32
            && (0x16u8 ^ 0x14u8) == 2u8) by (bit_vector);
    }
    else if i == 4 {
        assert((0x4444u32 ^ 0x3139u32 ^ 0xFFFF_A5A5u32) == 0xffffd0d8u32
            && ((0xffffd0d8u32 >> 8u32) & 0xffu32) == 0xd0u32 && (0xffffd0d8u32 & 0xffu32) == 0xd8u32
            && (0x13u8 ^ 0x15u8) == 6u8) by (bit_vector);
    }
    else if i == 5 {
        assert((0x5555u32 ^ 0x300fu32 ^ 0xFFFF_A5A5u32) == 0xffffc0ffu32
            && ((0xffffc0ffu32 >> 8u32) & 0xffu32) == 0xc0u32 && (0xffffc0ffu32 & 0xffu32) == 0xffu32
            && (0x0cu8 ^ 0x16u8) == 26u8) by (bit_vector);
    }
    else if i == 6 {
        assert((0x6666u32 ^ 0xee5au32 ^ 0xFFFF_A5A5u32) == 0xffff2d99u32
            && ((0xffff2d99u32 >> 8u32) & 0xffu32) == 0x2du32 && (0xffff2d99u32 & 0xffu32) == 0x99u32
            && (0x16u8 ^ 0x17u8) == 1u8) by (bit_vector);
    }
    else if i == 7 {
        assert((0x7777u32 ^ 0xe883u32 ^ 0xFFFF_A5A5u32) == 0xffff3a51u32
            && ((0xffff3a51u32 >> 8u32) & 0xffu32) == 0x3au32 && (0xffff3a51u32 & 0xffu32) == 0x51u32
            && (0x0bu8 ^ 0x18u8) == 19u8) by (bit_vector);
    }
    else if i == 8 {
        assert((0x8888u32 ^ 0x4638u32 ^ 0xFFFF_A5A5u32) == 0xffff6b15u32
            && ((0xffff6b15u32 >> 8u32) & 0xffu32) == 0x6bu32 && (0xffff6b15u32 & 0xffu32) == 0x15u32
            && (0x0cu8 ^ 0x19u8) == 21u8) by (bit_vector);
    }
    else if i == 9 {
        assert((0x9999u32 ^ 0x89cau32 ^ 0xFFFF_A5A5u32) == 0xffffb5f6u32
            && ((0xffffb5f6u32 >> 8u32) & 0xffu32) == 0xb5u32 && (0xffffb5f6u32 & 0xffu32) == 0xf6u32
            && (0x05u8 ^ 0x1au8) == 31u8) by (bit_vector);
    }
    else if i == 10 {
        assert((0xaaaau32 ^ 0x8b30u32 ^ 0xFFFF_A5A5u32) == 0xffff843fu32
            && ((0xffff843fu32 >> 8u32) & 0xffu32) == 0x84u32 && (0xffff843fu32 & 0xffu32) == 0x3fu32
            && (0x18u8 ^ 0x1bu8) == 3u8) by (bit_vector);
    }
    else if i == 11 {
        assert((0xbbbbu32 ^ 0x593du32 ^ 0xFFFF_A5A5u32) == 0xffff4723u32
            && ((0xffff4723u32 >> 8u32) & 0xffu32) == 0x47u32 && (0xffff4723u32 & 0xffu32) == 0x23u32
            && (0x0du8 ^ 0x1cu8) == 17u8) by (bit_vector);
    }
    else if i == 12 {
        assert((0xccccu32 ^ 0xe47du32 ^ 0xFFFF_A5A5u32) == 0xffff8d14u32
            && ((0xffff8d14u32 >> 8u32) & 0xffu32) == 0x8du32 && (0xffff8d14u32 & 0xffu32) == 0x14u32
            && (0x17u8 ^ 0x1du8) == 10u8) by (bit_vector);
    }
    else if i == 13 {
        assert((0xddddu32 ^ 0x2ea2u32 ^ 0xFFFF_A5A5u32) == 0xffff56dau32
            && ((0xffff56dau32 >> 8u32) & 0xffu32) == 0x56u32 && (0xffff56dau32 & 0xffu32) == 0xdau32
            && (0x17u8 ^ 0x1eu8) == 9u8) by (bit_vector);
    }
    else if i == 14 {
        assert((0xeeeeu32 ^ 0x89bcu32 ^ 0xFFFF_A5A5u32) == 0xffffc2f7u32
            && ((0xffffc2f7u32 >> 8u32) & 0xffu32) == 0xc2u32 && (0xffffc2f7u32 & 0xffu32) == 0xf7u32
            && (0x12u8 ^ 0x1fu8) == 13u8) by (bit_vector);
    }
    else if i == 15 {
        assert((0xffffu32 ^ 0xaafeu32 ^ 0xFFFF_A5A5u32) == 0xfffff0a4u32
            && ((0xfffff0a4u32 >> 8u32) & 0xffu32) == 0xf0u32 && (0xfffff0a4u32 & 0xffu32) == 0xa4u32
            && (0x30u8 ^ 0x20u8) == 16u8) by (bit_vector);
    }
}

/// What `K` is, byte by byte, for any hash: byte `i` is hash byte
/// `key_source(i)` XOR-ed with the mask `key_xor(i)`, then `key_add(i)` added
/// with wrap-around. The three tables are the V2 lookup tables worked out.
pub proof fn lemma_key_v2_bytes(h: Seq<u8>)
    requires
        h.len() == 32,
    ensures
        key_v2(h).len() == 16,
        forall|i: int|
            0 <= i < 16 ==> #[trigger] key_v2(h)[i] == (((h[key_source(i)] ^ key_xor(i)) as int
                + key_add(i) as int) % 256) as u8,
        forall|i: int| 0 <= i < 16 ==> 0 <= #[trigger] key_source(i) < 32,
{
    assert forall|i: int| 0 <= i < 16 implies #[trigger] key_v2(h)[i] == (((h[key_source(i)]
        ^ key_xor(i)) as int + key_add(i) as int) % 256) as u8 by {
        lemma_key_byte_constants(h, i);
    }
}

/// The intermediate key `K` for an already computed `SHA-256("VIN-SOLDDATE")`.
pub fn key_from_hash_v2(h: &[u8; 32]) -> (k: [u8; 16])
    ensures
        k@ == key_v2(h@),
{
    let mut k = [0u8; 16];
    let mut i: usize = 0;
    while i < 16
        invariant
            i <= 16,
            k@.len() == 16,
            forall|j: int| 0 <= j < i ==> #[trigger] k@[j] == key_byte_v2(h@, j),
        decreases 16 - i,
    {
        proof {
            lemma_key_indices_in_range(i as int);
        }
        let idx = (HASH_IDX_V2[i] ^ (i as u8 + 0x11)) as usize;
        let mix: u32 = (i as u32 * 0x1111) ^ (MIX_V2[i] as u32) ^ 0xFFFF_A5A5;
        let mix_hi = ((mix >> 8) & 0xff) as u8;
        let mix_lo = (mix & 0xff) as u8;
        let b = (h[idx] ^ mix_hi).wrapping_add(mix_lo);
        k[i] = b;
        i = i + 1;
    }
    assert(k@ =~= key_v2(h@));
    k
}

/// Derive the 16-byte intermediate key `K` from (VIN, sold_on) using the
/// V2 lookup tables.
///
/// Byte-level wrapping is correct here (only the low byte is stored).
pub fn derive_k_v2(vin: &str, sold_on: &str) -> (k: [u8; 16])
    ensures
        k@ == key_v2(vin_date_hash(vin@, sold_on@)),
{
    let h = sha256_vin_date(vin, sold_on);
    key_from_hash_v2(&h)
}

/// The V2 message header: type 2, version 1.
pub open spec fn auth_header_v2() -> Seq<u8> {
    seq![0x02u8, 0x01u8]
}

/// Frame a challenge digest into the 34-byte V2 payload: the header, then
/// the digest.
pub fn auth_payload_from_digest(digest: &[u8; 32]) -> (out: [u8; 34])
    ensures
        out@ == auth_header_v2() + digest@,
{
    let mut out = [0u8; 34];
    out[0] = 0x02;
    out[1] = 0x01;
    let mut i: usize = 0;
    while i < 32
        invariant
            i <= 32,
            out@.len() == 34,
            out@[0] == 0x02,
            out@[1] == 0x01,
            forall|j: int| 0 <= j < i ==> #[trigger] out@[j + 2] == digest@[j],
        decreases 32 - i,
    {
        out[i + 2] = digest[i];
        i = i + 1;
    }
    assert(out@ =~= auth_header_v2() + digest@) by {
        assert forall|j: int| 2 <= j < 34 implies out@[j] == (auth_header_v2() + digest@)[j] by {
            assert(out@[(j - 2) + 2] == digest@[j - 2]);
        }
    }
    out
}

/// The V2 payload for a hash and challenge nonce:
/// `header || SHA-256(K || header || nonce)`.
pub open spec fn auth_payload_v2(h: Seq<u8>, nonce: Seq<u8>) -> Seq<u8> {
    auth_header_v2() + sha256(key_v2(h) + auth_header_v2() + nonce)
}

/// Build the 34-byte V2 challenge-response payload.
///
/// Wire layout: `[0x02, 0x01] || SHA-256(K || [0x02, 0x01] || nonce)`.
pub fn build_auth_payload_v2(vin: &str, sold_on: &str, nonce: &[u8; 32]) -> (out: [u8; 34])
    ensures
        out@ == auth_payload_v2(vin_date_hash(vin@, sold_on@), nonce@),
{
    let k = derive_k_v2(vin, sold_on);
    let mut msg: Vec<u8> = Vec::new();
    msg.extend_from_slice(k.as_slice());
    msg.push(0x02);
    msg.push(0x01);
    msg.extend_from_slice(nonce.as_slice());
    assert(msg@ =~= k@ + auth_header_v2() + nonce@);
    let digest = sha256_digest(msg.as_slice());
    auth_payload_from_digest(&digest)
}

} // verus!
