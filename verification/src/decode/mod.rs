//! Byte-level decoders for all Stark Varg GATT characteristics.
//!
//! Each submodule handles one GATT service. All multi-byte values are
//! little-endian. Sentinel values (0xFFFF for u16, 0x7FFF for i16,
//! 0xFFFFFFFF for u32) are treated as "no data" and decoded as `None`.

pub mod battery;
pub mod charger;
pub mod docking;
pub mod inverter;
pub mod vcu;

use vstd::prelude::*;

verus! {

/// The view of an optional decoded value: `Some` of the value's view, or `None`.
pub open spec fn view_opt<T: View>(o: Option<T>) -> Option<T::V> {
    match o {
        Some(t) => Some(t@),
        None => None,
    }
}

/// The little-endian `u16` stored at `data[off..off + 2]`.
pub open spec fn le_u16(data: Seq<u8>, off: int) -> u16 {
    (data[off] as int + 256 * data[off + 1] as int) as u16
}

/// The little-endian `i16` stored at `data[off..off + 2]` (two's complement).
pub open spec fn le_i16(data: Seq<u8>, off: int) -> i16 {
    let u = le_u16(data, off) as int;
    (if u < 0x8000 { u } else { u - 0x10000 }) as i16
}

/// The little-endian `u32` stored at `data[off..off + 4]`.
pub open spec fn le_u32(data: Seq<u8>, off: int) -> u32 {
    (data[off] as int + 256 * data[off + 1] as int + 65536 * data[off + 2] as int
        + 16777216 * data[off + 3] as int) as u32
}

/// A `u16` field with the "no data" sentinel `0xFFFF` mapped to `None`.
pub open spec fn opt_u16_at(data: Seq<u8>, off: int) -> Option<u16> {
    let v = le_u16(data, off);
    if v == 0xFFFF { None } else { Some(v) }
}

/// An `i16` field with the "no data" sentinel `0x7FFF` mapped to `None`.
pub open spec fn opt_i16_at(data: Seq<u8>, off: int) -> Option<i16> {
    let v = le_i16(data, off);
    if v == 0x7FFF { None } else { Some(v) }
}

/// A `u32` field with the "no data" sentinel `0xFFFF_FFFF` mapped to `None`.
pub open spec fn opt_u32_at(data: Seq<u8>, off: int) -> Option<u32> {
    let v = le_u32(data, off);
    if v == 0xFFFF_FFFF { None } else { Some(v) }
}

/// Read the little-endian `u16` at `offset`.
pub fn read_u16(data: &[u8], offset: usize) -> (v: u16)
    requires
        offset + 2 <= data@.len(),
    ensures
        v == le_u16(data@, offset as int),
{
    data[offset] as u16 + (data[offset + 1] as u16) * 256
}

/// Read the little-endian (two's complement) `i16` at `offset`.
pub fn read_i16(data: &[u8], offset: usize) -> (v: i16)
    requires
        offset + 2 <= data@.len(),
    ensures
        v == le_i16(data@, offset as int),
{
    let u = read_u16(data, offset);
    if u < 0x8000 {
        u as i16
    } else {
        (u as i32 - 0x10000) as i16
    }
}

/// Read the little-endian `u32` at `offset`.
pub fn read_u32(data: &[u8], offset: usize) -> (v: u32)
    requires
        offset + 4 <= data@.len(),
    ensures
        v == le_u32(data@, offset as int),
{
    data[offset] as u32 + (data[offset + 1] as u32) * 256 + (data[offset + 2] as u32) * 65536
        + (data[offset + 3] as u32) * 16777216
}

/// The `u16` at `offset`, or `None` for the sentinel `0xFFFF`.
pub fn opt_u16(data: &[u8], offset: usize) -> (v: Option<u16>)
    requires
        offset + 2 <= data@.len(),
    ensures
        v == opt_u16_at(data@, offset as int),
{
    let v = read_u16(data, offset);
    if v == 0xFFFF { None } else { Some(v) }
}

/// The `i16` at `offset`, or `None` for the sentinel `0x7FFF` (`i16::MAX`).
pub fn opt_i16(data: &[u8], offset: usize) -> (v: Option<i16>)
    requires
        offset + 2 <= data@.len(),
    ensures
        v == opt_i16_at(data@, offset as int),
{
    let v = read_i16(data, offset);
    if v == i16::MAX { None } else { Some(v) }
}

/// The `u32` at `offset`, or `None` for the sentinel `0xFFFF_FFFF`.
pub fn opt_u32(data: &[u8], offset: usize) -> (v: Option<u32>)
    requires
        offset + 4 <= data@.len(),
    ensures
        v == opt_u32_at(data@, offset as int),
{
    let v = read_u32(data, offset);
    if v == 0xFFFF_FFFF { None } else { Some(v) }
}

// ---------------------------------------------------------------------------
// Wire forms of fields
// ---------------------------------------------------------------------------

/// The two little-endian bytes of a `u16`.
pub open spec fn u16_bytes(v: u16) -> Seq<u8> {
    seq![(v % 256) as u8, (v / 256) as u8]
}

/// The two little-endian two's-complement bytes of an `i16`.
pub open spec fn i16_bytes(v: i16) -> Seq<u8> {
    u16_bytes((if v < 0 { v + 0x1_0000 } else { v as int }) as u16)
}

/// The four little-endian bytes of a `u32`.
pub open spec fn u32_bytes(v: u32) -> Seq<u8> {
    seq![(v % 256) as u8, ((v / 256) % 256) as u8, ((v / 0x1_0000) % 256) as u8, (v / 0x100_0000) as u8]
}

/// The bytes of an optional `u16` reading: `0xFFFF` for no data.
pub open spec fn opt_u16_bytes(o: Option<u16>) -> Seq<u8> {
    u16_bytes(match o { Some(v) => v, None => 0xFFFFu16 })
}

/// The bytes of an optional `i16` reading: `0x7FFF` for no data.
pub open spec fn opt_i16_bytes(o: Option<i16>) -> Seq<u8> {
    i16_bytes(match o { Some(v) => v, None => 0x7FFFi16 })
}

/// The bytes of an optional `u32` reading: `0xFFFF_FFFF` for no data.
pub open spec fn opt_u32_bytes(o: Option<u32>) -> Seq<u8> {
    u32_bytes(match o { Some(v) => v, None => 0xFFFF_FFFFu32 })
}

/// The byte of a flag: 1 when set, 0 when not.
pub open spec fn flag_byte(b: bool) -> Seq<u8> {
    seq![if b { 1u8 } else { 0u8 }]
}

/// An optional `u16` reading that can be sent: not the sentinel itself.
pub open spec fn sendable_u16(o: Option<u16>) -> bool {
    o != Some(0xFFFFu16)
}

/// An optional `i16` reading that can be sent: not the sentinel itself.
pub open spec fn sendable_i16(o: Option<i16>) -> bool {
    o != Some(0x7FFFi16)
}

/// An optional `u32` reading that can be sent: not the sentinel itself.
pub open spec fn sendable_u32(o: Option<u32>) -> bool {
    o != Some(0xFFFF_FFFFu32)
}

/// A `u16` written at `off` reads back.
pub proof fn lemma_u16_at(d: Seq<u8>, off: int, v: u16)
    requires
        0 <= off,
        off + 2 <= d.len(),
        d.subrange(off, off + 2) == u16_bytes(v),
    ensures
        le_u16(d, off) == v,
{
    assert(d[off] == d.subrange(off, off + 2)[0]);
    assert(d[off + 1] == d.subrange(off, off + 2)[1]);
}

/// An `i16` written at `off` reads back.
pub proof fn lemma_i16_at(d: Seq<u8>, off: int, v: i16)
    requires
        0 <= off,
        off + 2 <= d.len(),
        d.subrange(off, off + 2) == i16_bytes(v),
    ensures
        le_i16(d, off) == v,
{
    lemma_u16_at(d, off, (if v < 0 { v + 0x1_0000 } else { v as int }) as u16);
}

/// A `u32` written at `off` reads back.
pub proof fn lemma_u32_at(d: Seq<u8>, off: int, v: u32)
    requires
        0 <= off,
        off + 4 <= d.len(),
        d.subrange(off, off + 4) == u32_bytes(v),
    ensures
        le_u32(d, off) == v,
{
    let s = d.subrange(off, off + 4);
    assert(d[off] == s[0] && d[off + 1] == s[1] && d[off + 2] == s[2] && d[off + 3] == s[3]);
}

/// An optional `u16` reading written at `off` reads back.
pub proof fn lemma_opt_u16_at(d: Seq<u8>, off: int, o: Option<u16>)
    requires
        0 <= off,
        off + 2 <= d.len(),
        d.subrange(off, off + 2) == opt_u16_bytes(o),
        sendable_u16(o),
    ensures
        opt_u16_at(d, off) == o,
{
    lemma_u16_at(d, off, match o { Some(v) => v, None => 0xFFFFu16 });
}

/// An optional `i16` reading written at `off` reads back.
pub proof fn lemma_opt_i16_at(d: Seq<u8>, off: int, o: Option<i16>)
    requires
        0 <= off,
        off + 2 <= d.len(),
        d.subrange(off, off + 2) == opt_i16_bytes(o),
        sendable_i16(o),
    ensures
        opt_i16_at(d, off) == o,
{
    lemma_i16_at(d, off, match o { Some(v) => v, None => 0x7FFFi16 });
}

/// An optional `u32` reading written at `off` reads back.
pub proof fn lemma_opt_u32_at(d: Seq<u8>, off: int, o: Option<u32>)
    requires
        0 <= off,
        off + 4 <= d.len(),
        d.subrange(off, off + 4) == opt_u32_bytes(o),
        sendable_u32(o),
    ensures
        opt_u32_at(d, off) == o,
{
    lemma_u32_at(d, off, match o { Some(v) => v, None => 0xFFFF_FFFFu32 });
}

/// The bytes of a run of optional `u16` readings, one after another.
pub open spec fn opt_u16_words(vs: Seq<Option<u16>>) -> Seq<u8>
    decreases vs.len(),
{
    if vs.len() == 0 {
        Seq::empty()
    } else {
        opt_u16_words(vs.drop_last()) + opt_u16_bytes(vs.last())
    }
}

/// Every reading of a run can be sent: none is the sentinel itself.
pub open spec fn sendable_run(vs: Seq<Option<u16>>) -> bool {
    forall|i: int| 0 <= i < vs.len() ==> sendable_u16(#[trigger] vs[i])
}

/// A run of readings written from the start of `d` reads back, reading by
/// reading, as the optional `u16` at offset `2i` for the `i`-th.
pub proof fn lemma_opt_u16_words_at(d: Seq<u8>, vs: Seq<Option<u16>>)
    requires
        opt_u16_words(vs).len() <= d.len(),
        d.subrange(0, opt_u16_words(vs).len() as int) == opt_u16_words(vs),
        sendable_run(vs),
    ensures
        opt_u16_words(vs).len() == 2 * vs.len(),
        forall|i: int| 0 <= i < vs.len() ==> #[trigger] opt_u16_at(d, 2 * i) == vs[i],
    decreases vs.len(),
{
    if vs.len() > 0 {
        let p = vs.drop_last();
        let w = opt_u16_words(vs);
        let wp = opt_u16_words(p);
        assert(sendable_run(p)) by {
            assert forall|i: int| 0 <= i < p.len() implies sendable_u16(#[trigger] p[i]) by {
                assert(p[i] == vs[i]);
            }
        }
        assert(w == wp + opt_u16_bytes(vs.last()));
        assert(d.subrange(0, wp.len() as int) =~= w.subrange(0, wp.len() as int));
        assert(w.subrange(0, wp.len() as int) =~= wp);
        lemma_opt_u16_words_at(d, p);
        let n: int = 2 * p.len() as int;
        assert(d.subrange(n, n + 2) =~= opt_u16_bytes(vs.last())) by {
            assert forall|k: int| 0 <= k < 2 implies d.subrange(n, n + 2)[k] == opt_u16_bytes(
                vs.last(),
            )[k] by {
                assert(d[n + k] == d.subrange(0, w.len() as int)[n + k]);
                assert(w[n + k] == opt_u16_bytes(vs.last())[k]);
            }
        }
        assert(sendable_u16(vs[vs.len() - 1]));
        lemma_opt_u16_at(d, n, vs.last());
        assert forall|i: int| 0 <= i < vs.len() implies #[trigger] opt_u16_at(d, 2 * i) == vs[i] by {
            if i < p.len() {
                assert(opt_u16_at(d, 2 * i) == p[i]);
            }
        }
    }
}

/// A run of readings takes two bytes per reading.
pub proof fn lemma_opt_u16_words_len(vs: Seq<Option<u16>>)
    ensures
        opt_u16_words(vs).len() == 2 * vs.len(),
    decreases vs.len(),
{
    if vs.len() > 0 {
        lemma_opt_u16_words_len(vs.drop_last());
    }
}

} // verus!
