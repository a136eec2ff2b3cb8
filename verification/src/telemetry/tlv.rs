//! TLV (type-length-value) demultiplexing of the extended-data characteristics.
//!
//! ```text
//! While data remains:
//!     type   = data[offset]
//!     length = data[offset + 1]
//!     value  = data[offset + 2 .. offset + 2 + length]
//!     offset += 2 + length
//! ```
//! A trailing entry whose value would run past the end is dropped.

use vstd::prelude::*;

verus! {

/// A single TLV (Type-Length-Value) entry from extended data characteristics.
#[derive(Debug, Clone)]
pub struct TlvEntry {
    pub entry_type: u8,
    pub data: Vec<u8>,
}

/// The abstract value of a [`TlvEntry`].
pub ghost struct TlvEntryView {
    pub entry_type: u8,
    pub data: Seq<u8>,
}

impl View for TlvEntry {
    type V = TlvEntryView;

    open spec fn view(&self) -> TlvEntryView {
        TlvEntryView { entry_type: self.entry_type, data: self.data@ }
    }
}

/// The views of a sequence of entries.
pub open spec fn entries_view(entries: Seq<TlvEntry>) -> Seq<TlvEntryView> {
    entries.map_values(|e: TlvEntry| e@)
}

/// The entries that a TLV stream decodes to: one entry per complete
/// `[type, length, value...]` record, stopping at the first record that is
/// cut short (fewer than two header bytes, or a value running past the end).
pub open spec fn tlv_decode(raw: Seq<u8>) -> Seq<TlvEntryView>
    decreases raw.len(),
{
    if raw.len() < 2 {
        Seq::empty()
    } else {
        let end = 2 + raw[1] as int;
        if end > raw.len() {
            Seq::empty()
        } else {
            seq![TlvEntryView { entry_type: raw[0], data: raw.subrange(2, end) }] + tlv_decode(
                raw.subrange(end, raw.len() as int),
            )
        }
    }
}

/// The wire form of a sequence of entries: each as its type byte, its
/// length byte and its value.
pub open spec fn tlv_encode(entries: Seq<TlvEntryView>) -> Seq<u8>
    decreases entries.len(),
{
    if entries.len() == 0 {
        Seq::empty()
    } else {
        let e = entries[0];
        seq![e.entry_type, e.data.len() as u8] + e.data + tlv_encode(entries.drop_first())
    }
}

/// Whether every entry's value fits the one-byte length field.
pub open spec fn encodable(entries: Seq<TlvEntryView>) -> bool {
    forall|i: int| 0 <= i < entries.len() ==> #[trigger] entries[i].data.len() <= 255
}

/// Parse TLV-encoded data from characteristics 00001100 / 00002100.
pub fn parse_tlv(raw: &[u8]) -> (entries: Vec<TlvEntry>)
    ensures
        entries_view(entries@) == tlv_decode(raw@),
{
    let mut entries: Vec<TlvEntry> = Vec::new();
    let mut offset: usize = 0;
    let len = raw.len();
    assert(raw@.subrange(0, len as int) =~= raw@);
    assert(entries_view(entries@) + tlv_decode(raw@) =~= tlv_decode(raw@));
    loop
        invariant_except_break
            len == raw@.len(),
            offset <= len,
            tlv_decode(raw@) == entries_view(entries@) + tlv_decode(
                raw@.subrange(offset as int, len as int),
            ),
        ensures
            tlv_decode(raw@) == entries_view(entries@),
        decreases len - offset,
    {
        let ghost rest = raw@.subrange(offset as int, len as int);
        if len - offset < 2 {
            assert(tlv_decode(rest) =~= Seq::empty());
            assert(entries_view(entries@) + Seq::empty() =~= entries_view(entries@));
            break;
        }
        let entry_type = raw[offset];
        let length = raw[offset + 1] as usize;
        let data_start = offset + 2;
        if length > len - data_start {
            assert(tlv_decode(rest) =~= Seq::empty());
            assert(entries_view(entries@) + Seq::empty() =~= entries_view(entries@));
            break;
        }
        let data_end = data_start + length;
        let data = vstd::slice::slice_to_vec(&raw[data_start..data_end]);
        let entry = TlvEntry { entry_type, data };
        let ghost before = entries@;
        entries.push(entry);
        proof {
            assert(rest.subrange(2, 2 + length as int) =~= raw@.subrange(
                data_start as int,
                data_end as int,
            ));
            assert(rest.subrange(2 + length as int, rest.len() as int) =~= raw@.subrange(
                data_end as int,
                len as int,
            ));
            assert(entries_view(entries@) =~= entries_view(before).push(entry@));
            assert(tlv_decode(rest) =~= seq![entry@] + tlv_decode(
                raw@.subrange(data_end as int, len as int),
            ));
        }
        offset = data_end;
    }
    entries
}

/// Decoding the wire form of complete entries gives them back, and whatever
/// follows them is decoded on its own: what a writer frames, a reader
/// recovers entry for entry.
pub proof fn lemma_tlv_decode_encode(entries: Seq<TlvEntryView>, rest: Seq<u8>)
    requires
        encodable(entries),
    ensures
        tlv_decode(tlv_encode(entries) + rest) == entries + tlv_decode(rest),
    decreases entries.len(),
{
    if entries.len() == 0 {
        assert(tlv_encode(entries) + rest =~= rest);
        assert(entries + tlv_decode(rest) =~= tlv_decode(rest));
    } else {
        let e = entries[0];
        let tail = entries.drop_first();
        assert(encodable(tail)) by {
            assert forall|i: int| 0 <= i < tail.len() implies #[trigger] tail[i].data.len()
                <= 255 by {
                assert(tail[i] == entries[i + 1]);
            }
        }
        assert(e.data.len() <= 255);
        lemma_tlv_decode_encode(tail, rest);
        let raw = tlv_encode(entries) + rest;
        let after = tlv_encode(tail) + rest;
        assert(raw =~= seq![e.entry_type, e.data.len() as u8] + e.data + after);
        assert(raw[1] == e.data.len() as u8);
        assert((e.data.len() as u8) as int == e.data.len());
        let end = 2 + e.data.len();
        assert(raw.subrange(2, end as int) =~= e.data);
        assert(raw.subrange(end as int, raw.len() as int) =~= after);
        assert(tlv_decode(raw) == seq![
            TlvEntryView { entry_type: e.entry_type, data: e.data },
        ] + tlv_decode(after));
        assert(entries =~= seq![e] + tail);
        assert(seq![e] + (tail + tlv_decode(rest)) =~= (seq![e] + tail) + tlv_decode(rest));
    }
}

/// A TLV stream decodes to exactly the entries it was framed from.
pub proof fn lemma_tlv_roundtrip(entries: Seq<TlvEntryView>)
    requires
        encodable(entries),
    ensures
        tlv_decode(tlv_encode(entries)) == entries,
{
    lemma_tlv_decode_encode(entries, Seq::empty());
    assert(tlv_encode(entries) + Seq::<u8>::empty() =~= tlv_encode(entries));
    assert(tlv_decode(Seq::<u8>::empty()) =~= Seq::<TlvEntryView>::empty());
    assert(entries + Seq::<TlvEntryView>::empty() =~= entries);
}

/// Decoding invents nothing: the decoded entries are encodable, their wire
/// form is a prefix of the input, and what is left after them holds no
/// complete record (it is shorter than a header, or its first value runs
/// past the end).
pub proof fn lemma_tlv_decode_prefix(raw: Seq<u8>)
    ensures
        encodable(tlv_decode(raw)),
        tlv_encode(tlv_decode(raw)).len() <= raw.len(),
        raw.subrange(0, tlv_encode(tlv_decode(raw)).len() as int) == tlv_encode(tlv_decode(raw)),
        ({
            let left = raw.subrange(tlv_encode(tlv_decode(raw)).len() as int, raw.len() as int);
            left.len() < 2 || 2 + left[1] > left.len()
        }),
    decreases raw.len(),
{
    let es = tlv_decode(raw);
    if raw.len() < 2 {
        assert(es =~= Seq::empty());
        assert(tlv_encode(es) =~= Seq::empty());
        assert(raw.subrange(0, 0) =~= Seq::<u8>::empty());
        assert(raw.subrange(0, raw.len() as int) =~= raw);
    } else {
        let end = 2 + raw[1] as int;
        if end > raw.len() {
            assert(es =~= Seq::empty());
            assert(tlv_encode(es) =~= Seq::empty());
            assert(raw.subrange(0, 0) =~= Seq::<u8>::empty());
            assert(raw.subrange(0, raw.len() as int) =~= raw);
        } else {
            let rest = raw.subrange(end, raw.len() as int);
            let e = TlvEntryView { entry_type: raw[0], data: raw.subrange(2, end) };
            lemma_tlv_decode_prefix(rest);
            let tail = tlv_decode(rest);
            assert(es == seq![e] + tail);
            assert(es[0] == e);
            assert(es.drop_first() =~= tail);
            assert(encodable(es)) by {
                assert forall|i: int| 0 <= i < es.len() implies #[trigger] es[i].data.len()
                    <= 255 by {
                    if i > 0 {
                        assert(es[i] == tail[i - 1]);
                    }
                }
            }
            let enc_tail = tlv_encode(tail);
            assert(tlv_encode(es) == seq![e.entry_type, e.data.len() as u8] + e.data + enc_tail);
            assert(e.data.len() as u8 == raw[1]);
            let n = tlv_encode(es).len() as int;
            assert(n == end + enc_tail.len());
            assert(raw.subrange(0, n) =~= tlv_encode(es)) by {
                assert(raw.subrange(0, 2) =~= seq![raw[0], raw[1]]);
                assert(rest.subrange(0, enc_tail.len() as int) == enc_tail);
                assert forall|k: int| 0 <= k < n implies raw.subrange(0, n)[k] == tlv_encode(
                    es,
                )[k] by {
                    if k >= end {
                        assert(rest[k - end] == raw[k]);
                        assert(rest.subrange(0, enc_tail.len() as int)[k - end] == enc_tail[k
                            - end]);
                    }
                }
            }
            assert(raw.subrange(n, raw.len() as int) =~= rest.subrange(
                enc_tail.len() as int,
                rest.len() as int,
            ));
        }
    }
}

} // verus!
