//! Replay of recorded segment bytes.
//!
//! A segment file is a sequence of records, each `timestamp:u64 LE`,
//! `length:u32 LE`, then `length` payload bytes.  Replay yields the payloads
//! in file order and distinguishes a clean end, exactly at a record boundary,
//! from a truncated capture, where bytes remain but no complete record does.

use vstd::prelude::*;

use crate::bytes::{
    copy_range, lemma_u32_le_roundtrip, read_u32_le, u32_from_le_spec, u32_le_spec, u64_le_spec,
};

verus! {

/// How a replayed byte stream ended.
#[derive(Clone, Copy, Debug, PartialEq, Eq)]
pub enum ReplayEnd {
    /// The stream ended exactly at a record boundary.
    Clean,
    /// Bytes remained after the last complete record: the capture was cut off.
    Truncated,
}

/// The on-disk bytes of one record: timestamp, payload length, payload.
pub open spec fn encode_record_spec(timestamp: u64, payload: Seq<u8>) -> Seq<u8>
    recommends
        payload.len() <= u32::MAX,
{
    u64_le_spec(timestamp) + u32_le_spec(payload.len() as u32) + payload
}

/// The payload length announced by the header at the front of `b`.
pub open spec fn header_len_spec(b: Seq<u8>) -> nat
    recommends
        b.len() >= 12,
{
    u32_from_le_spec(b.subrange(8, 12)) as nat
}

/// `b` starts with a complete record: a full header and all announced
/// payload bytes.
pub open spec fn record_available(b: Seq<u8>) -> bool {
    b.len() >= 12 && b.len() >= 12 + header_len_spec(b)
}

/// `b` is a non-empty rest that holds no complete record.
pub open spec fn is_partial_record(b: Seq<u8>) -> bool {
    b.len() > 0 && !record_available(b)
}

/// Parse a byte stream into its ordered payloads and an end status.
pub open spec fn parse_records_spec(b: Seq<u8>) -> (Seq<Seq<u8>>, ReplayEnd)
    decreases b.len(),
{
    if b.len() == 0 {
        (Seq::empty(), ReplayEnd::Clean)
    } else if !record_available(b) {
        (Seq::empty(), ReplayEnd::Truncated)
    } else {
        let l = header_len_spec(b) as int;
        let rest = parse_records_spec(b.skip(12 + l));
        (seq![b.subrange(12, 12 + l)] + rest.0, rest.1)
    }
}

/// Parsing a stream that starts with one whole record yields that record's
/// payload, then whatever the rest of the stream yields.
pub proof fn lemma_parse_one(timestamp: u64, payload: Seq<u8>, tail: Seq<u8>)
    requires
        payload.len() <= u32::MAX,
    ensures
        parse_records_spec(encode_record_spec(timestamp, payload) + tail).0 == seq![payload]
            + parse_records_spec(tail).0,
        parse_records_spec(encode_record_spec(timestamp, payload) + tail).1
            == parse_records_spec(tail).1,
{
    let b = encode_record_spec(timestamp, payload) + tail;
    let n = payload.len() as u32;
    assert(b.len() == 12 + payload.len() + tail.len());
    assert(b.subrange(8, 12) =~= u32_le_spec(n));
    lemma_u32_le_roundtrip(n);
    assert(header_len_spec(b) == payload.len());
    assert(record_available(b));
    let l = header_len_spec(b) as int;
    assert(b.subrange(12, 12 + l) =~= payload);
    assert(b.skip(12 + l) =~= tail);
}

/// A recorded history: each entry is a capture timestamp and a raw payload.
pub open spec fn encode_records_spec(entries: Seq<(u64, Seq<u8>)>) -> Seq<u8>
    decreases entries.len(),
{
    if entries.len() == 0 {
        Seq::empty()
    } else {
        encode_record_spec(entries.first().0, entries.first().1) + encode_records_spec(
            entries.drop_first(),
        )
    }
}

/// The payloads of a recorded history, in order.
pub open spec fn payloads_spec(entries: Seq<(u64, Seq<u8>)>) -> Seq<Seq<u8>> {
    entries.map_values(|e: (u64, Seq<u8>)| e.1)
}

/// Every payload of the history fits in the record header's length field.
pub open spec fn wf_entries(entries: Seq<(u64, Seq<u8>)>) -> bool {
    forall|i: int| 0 <= i < entries.len() ==> (#[trigger] entries[i]).1.len() <= u32::MAX
}

/// Parsing an encoded history followed by any tail yields the history's
/// payloads, then whatever the tail yields.
pub proof fn lemma_parse_encodes(entries: Seq<(u64, Seq<u8>)>, tail: Seq<u8>)
    requires
        wf_entries(entries),
    ensures
        parse_records_spec(encode_records_spec(entries) + tail).0 == payloads_spec(entries)
            + parse_records_spec(tail).0,
        parse_records_spec(encode_records_spec(entries) + tail).1 == parse_records_spec(tail).1,
    decreases entries.len(),
{
    if entries.len() == 0 {
        assert(encode_records_spec(entries) + tail =~= tail);
        assert(payloads_spec(entries) + parse_records_spec(tail).0 =~= parse_records_spec(
            tail,
        ).0);
    } else {
        let e = entries.first();
        let rest_bytes = encode_records_spec(entries.drop_first()) + tail;
        assert(wf_entries(entries.drop_first()));
        lemma_parse_encodes(entries.drop_first(), tail);
        assert(encode_records_spec(entries) + tail =~= encode_record_spec(e.0, e.1) + rest_bytes);
        assert(e.1.len() <= u32::MAX);
        lemma_parse_one(e.0, e.1, rest_bytes);
        assert(seq![e.1] + (payloads_spec(entries.drop_first()) + parse_records_spec(tail).0)
            =~= payloads_spec(entries) + parse_records_spec(tail).0);
    }
}

/// Round-trip law: replaying an encoded history yields exactly its payloads,
/// byte for byte and in order, ending cleanly.
pub proof fn lemma_round_trip(entries: Seq<(u64, Seq<u8>)>)
    requires
        wf_entries(entries),
    ensures
        parse_records_spec(encode_records_spec(entries)).0 == payloads_spec(entries),
        parse_records_spec(encode_records_spec(entries)).1 == ReplayEnd::Clean,
{
    lemma_parse_encodes(entries, Seq::empty());
    assert(encode_records_spec(entries) + Seq::<u8>::empty() =~= encode_records_spec(entries));
    assert(payloads_spec(entries) + parse_records_spec(Seq::empty()).0 =~= payloads_spec(
        entries,
    ));
}

/// Truncation law: a stream of whole records followed by a partial record
/// yields all the whole records' payloads and then reports truncation,
/// never a clean end.
pub proof fn lemma_truncated_capture(entries: Seq<(u64, Seq<u8>)>, tail: Seq<u8>)
    requires
        wf_entries(entries),
        is_partial_record(tail),
    ensures
        parse_records_spec(encode_records_spec(entries) + tail).0 == payloads_spec(entries),
        parse_records_spec(encode_records_spec(entries) + tail).1 == ReplayEnd::Truncated,
{
    lemma_parse_encodes(entries, tail);
    assert(payloads_spec(entries) + parse_records_spec(tail).0 =~= payloads_spec(entries));
}

/// One step of replay.
#[derive(Clone, Debug, PartialEq, Eq)]
pub enum ReplayItem {
    /// The next record's payload.
    Record(Vec<u8>),
    /// Clean end of the stream.
    End,
    /// Bytes remain but no complete record does.
    Truncated,
}

/// A single-pass reader over the bytes of one logical record stream.  For a
/// capture split across several segments, the caller concatenates the
/// segments in index order first: a segment boundary is then invisible, never
/// misread as truncation.
pub struct ReplayIterator {
    buf: Vec<u8>,
    pos: usize,
}

impl ReplayIterator {
    /// The whole byte stream being replayed.
    pub closed spec fn source(self) -> Seq<u8> {
        self.buf@
    }

    /// How many bytes have been consumed.
    pub closed spec fn position(self) -> int {
        self.pos as int
    }

    pub open spec fn wf(self) -> bool {
        0 <= self.position() <= self.source().len()
    }

    /// The bytes not yet consumed.
    pub open spec fn remaining(self) -> Seq<u8> {
        self.source().skip(self.position())
    }

    pub fn new(buf: Vec<u8>) -> (r: Self)
        ensures
            r.wf(),
            r.source() == buf@,
            r.position() == 0,
    {
        ReplayIterator { buf, pos: 0 }
    }

    /// Read the next record: its payload if one whole record remains, a clean
    /// end at a record boundary, or a truncation report otherwise.  The
    /// timestamp in the header is consumed and discarded.
    pub fn next_record(&mut self) -> (r: ReplayItem)
        requires
            old(self).wf(),
        ensures
            final(self).wf(),
            final(self).source() == old(self).source(),
            old(self).remaining().len() == 0 ==> r == ReplayItem::End && final(self).position()
                == old(self).position(),
            is_partial_record(old(self).remaining()) ==> r == ReplayItem::Truncated
                && final(self).position() == old(self).position(),
            record_available(old(self).remaining()) ==> {
                &&& r matches ReplayItem::Record(p) && p@ == old(self).remaining().subrange(
                    12,
                    12 + header_len_spec(old(self).remaining()) as int,
                )
                &&& final(self).position() == old(self).position() + 12
                    + header_len_spec(old(self).remaining())
            },
    {
        let ghost rem = old(self).remaining();
        let rem_len = self.buf.len() - self.pos;
        if rem_len == 0 {
            return ReplayItem::End;
        }
        if rem_len < 12 {
            assert(is_partial_record(rem));
            return ReplayItem::Truncated;
        }
        let len_field = read_u32_le(&self.buf, self.pos + 8);
        proof {
            assert(rem.subrange(8, 12) =~= self.buf@.subrange(
                self.pos as int + 8,
                self.pos as int + 12,
            ));
        }
        assert(header_len_spec(rem) == len_field);
        let l = len_field as usize;
        if rem_len - 12 < l {
            assert(is_partial_record(rem));
            return ReplayItem::Truncated;
        }
        assert(record_available(rem));
        let start = self.pos + 12;
        let payload = copy_range(&self.buf, start, start + l);
        proof {
            assert(payload@ =~= rem.subrange(12, 12 + l as int));
        }
        self.pos = start + l;
        ReplayItem::Record(payload)
    }

    /// Drain the stream: all remaining payloads in order, and whether the
    /// stream ended cleanly or was truncated.
    pub fn read_all(&mut self) -> (r: (Vec<Vec<u8>>, ReplayEnd))
        requires
            old(self).wf(),
        ensures
            final(self).wf(),
            r.0.deep_view() == parse_records_spec(old(self).remaining()).0,
            r.1 == parse_records_spec(old(self).remaining()).1,
    {
        let mut out: Vec<Vec<u8>> = Vec::new();
        loop
            invariant
                self.wf(),
                self.source() == old(self).source(),
                self.position() >= old(self).position(),
                parse_records_spec(old(self).remaining()).0 == out.deep_view()
                    + parse_records_spec(self.remaining()).0,
                parse_records_spec(old(self).remaining()).1 == parse_records_spec(
                    self.remaining(),
                ).1,
            decreases self.remaining().len(),
        {
            let ghost rem = self.remaining();
            let ghost acc = out.deep_view();
            let item = self.next_record();
            match item {
                ReplayItem::Record(p) => {
                    proof {
                        assert(record_available(rem));
                        let l = header_len_spec(rem) as int;
                        assert(self.remaining() =~= rem.skip(12 + l));
                        assert(parse_records_spec(rem).0 == seq![rem.subrange(12, 12 + l)]
                            + parse_records_spec(rem.skip(12 + l)).0);
                    }
                    out.push(p);
                    proof {
                        assert(out.deep_view() =~~= acc + seq![p@]);
                        assert(acc + (seq![p@] + parse_records_spec(self.remaining()).0)
                            =~~= out.deep_view() + parse_records_spec(self.remaining()).0);
                    }
                },
                ReplayItem::End => {
                    proof {
                        assert(rem.len() == 0);
                        assert(acc + parse_records_spec(rem).0 =~~= acc);
                    }
                    return (out, ReplayEnd::Clean);
                },
                ReplayItem::Truncated => {
                    proof {
                        assert(is_partial_record(rem));
                        assert(acc + parse_records_spec(rem).0 =~~= acc);
                    }
                    return (out, ReplayEnd::Truncated);
                },
            }
        }
    }
}

} // verus!
