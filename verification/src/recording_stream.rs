//! The recording log: an append-only, size-bounded, rotating segmented
//! capture of raw payloads.
//!
//! The stream itself is a pure state machine.  It decides rotation, frames
//! each payload into record bytes, and tells the caller which segment the
//! bytes belong to; writing the bytes to that segment's file is the caller's
//! job.  A ghost model of the segment contents and of the recorded history
//! carries the proofs that replay reproduces the capture.

use vstd::prelude::*;

use crate::bytes::{
    ascii_chars, ascii_string, extend_bytes, lemma_decimal_bytes_ascii, padded_decimal_spec,
    push_decimal, push_u32_le, push_u64_le,
};
use crate::playback::{
    encode_record_spec, encode_records_spec, lemma_round_trip, parse_records_spec, payloads_spec,
    wf_entries, ReplayEnd,
};

verus! {

/// A segment is rotated before a record that would push it past this size.
pub const MAX_FILE_SIZE: u64 = 10 * 1024 * 1024;

/// The largest encoded record: a twelve-byte header plus the largest payload
/// length the header can announce.
pub const MAX_RECORD_SIZE: u64 = 12 + 0xffff_ffff;

/// The concatenation of the segments in index order: the one logical record
/// stream that replay reads.
pub open spec fn concat_segments_spec(segs: Seq<Seq<u8>>) -> Seq<u8>
    decreases segs.len(),
{
    if segs.len() == 0 {
        Seq::empty()
    } else {
        concat_segments_spec(segs.drop_last()) + segs.last()
    }
}

proof fn lemma_concat_push(segs: Seq<Seq<u8>>, x: Seq<u8>)
    ensures
        concat_segments_spec(segs.push(x)) == concat_segments_spec(segs) + x,
{
    assert(segs.push(x).drop_last() =~= segs);
    assert(segs.push(x).last() == x);
}

proof fn lemma_concat_update_last(segs: Seq<Seq<u8>>, x: Seq<u8>)
    requires
        segs.len() > 0,
    ensures
        concat_segments_spec(segs.update(segs.len() - 1, segs.last() + x))
            == concat_segments_spec(segs) + x,
{
    let s2 = segs.update(segs.len() - 1, segs.last() + x);
    assert(s2.drop_last() =~= segs.drop_last());
    assert(s2.last() == segs.last() + x);
    assert(concat_segments_spec(segs.drop_last()) + (segs.last() + x) =~= (concat_segments_spec(
        segs.drop_last(),
    ) + segs.last()) + x);
}

proof fn lemma_encode_records_push(entries: Seq<(u64, Seq<u8>)>, e: (u64, Seq<u8>))
    ensures
        encode_records_spec(entries.push(e)) == encode_records_spec(entries) + encode_record_spec(
            e.0,
            e.1,
        ),
    decreases entries.len(),
{
    reveal_with_fuel(crate::playback::encode_records_spec, 2);
    if entries.len() == 0 {
        assert(entries.push(e).first() == e);
        assert(entries.push(e).drop_first() =~= Seq::<(u64, Seq<u8>)>::empty());
        assert(encode_record_spec(e.0, e.1) + Seq::<u8>::empty() =~= encode_record_spec(e.0, e.1));
        assert(Seq::<u8>::empty() + encode_record_spec(e.0, e.1) =~= encode_record_spec(e.0, e.1));
    } else {
        let f = entries.first();
        lemma_encode_records_push(entries.drop_first(), e);
        assert(entries.push(e).first() == f);
        assert(entries.push(e).drop_first() =~= entries.drop_first().push(e));
        assert(encode_record_spec(f.0, f.1) + (encode_records_spec(entries.drop_first())
            + encode_record_spec(e.0, e.1)) =~= (encode_record_spec(f.0, f.1)
            + encode_records_spec(entries.drop_first())) + encode_record_spec(e.0, e.1));
    }
}

proof fn lemma_payloads_push(entries: Seq<(u64, Seq<u8>)>, e: (u64, Seq<u8>))
    ensures
        payloads_spec(entries.push(e)) == payloads_spec(entries).push(e.1),
{
    assert(payloads_spec(entries.push(e)) =~= payloads_spec(entries).push(e.1));
}

/// Encode one record: timestamp, payload length, payload, little-endian.
pub fn encode_record(timestamp: u64, payload: &Vec<u8>) -> (r: Vec<u8>)
    requires
        payload@.len() <= u32::MAX,
    ensures
        r@ == encode_record_spec(timestamp, payload@),
{
    let mut r: Vec<u8> = Vec::new();
    push_u64_le(&mut r, timestamp);
    push_u32_le(&mut r, payload.len() as u32);
    let ghost header = r@;
    let mut i: usize = 0;
    while i < payload.len()
        invariant
            i <= payload@.len(),
            r@ == header + payload@.subrange(0, i as int),
        decreases payload@.len() - i,
    {
        r.push(payload[i]);
        assert(r@ =~= header + payload@.subrange(0, i as int + 1));
        i = i + 1;
    }
    assert(r@ =~= encode_record_spec(timestamp, payload@));
    r
}

/// Relies on `std::time::SystemTime::now` and
/// `SystemTime::duration_since(UNIX_EPOCH)`: whole seconds since the Unix
/// epoch at the moment of the call; a clock reading before the epoch comes
/// out as zero.  Nothing can be promised of a clock's value.
#[verifier::external_body]
fn now_seconds() -> u64 {
    match std::time::SystemTime::now().duration_since(std::time::UNIX_EPOCH) {
        Ok(d) => d.as_secs(),
        Err(_) => 0,
    }
}

/// Capture time in whole seconds since the Unix epoch.  Recorded into each
/// record's header; ties are expected, and replay order never relies on it.
pub fn current_timestamp() -> u64 {
    now_seconds()
}

/// The name of the segment file with the given index: a fixed prefix and a
/// zero-padded decimal index, so that lexical order of the names equals index
/// order.
pub open spec fn segment_file_name_spec(index: nat) -> Seq<char> {
    "meshtastic-recording-"@ + ascii_chars(padded_decimal_spec(index, 5)) + ".bin"@
}

/// Build the file name of the segment with the given index.
pub fn segment_file_name(index: u64) -> (r: String)
    ensures
        r@ == segment_file_name_spec(index as nat),
{
    let mut digits: Vec<u8> = Vec::new();
    push_decimal(&mut digits, index);
    let mut padded: Vec<u8> = Vec::new();
    while padded.len() + digits.len() < 5
        invariant
            digits@.len() >= 5 ==> padded@.len() == 0,
            digits@.len() < 5 ==> padded@.len() + digits@.len() <= 5,
            forall|i: int| 0 <= i < padded@.len() ==> padded@[i] == 48u8,
        decreases 5 - (padded@.len() + digits@.len()),
    {
        padded.push(48);
    }
    extend_bytes(&mut padded, &digits);
    proof {
        lemma_decimal_bytes_ascii(index as nat);
        assert(padded@ =~= padded_decimal_spec(index as nat, 5));
    }
    let index_part = ascii_string(&padded);
    let mut name = String::from_str("meshtastic-recording-");
    name.append(index_part.as_str());
    name.append(".bin");
    name
}

/// Concatenate segment contents in index order into the one logical record
/// stream that replay reads.
pub fn concat_segments(segments: &Vec<Vec<u8>>) -> (r: Vec<u8>)
    ensures
        r@ == concat_segments_spec(segments.deep_view()),
{
    let mut r: Vec<u8> = Vec::new();
    let mut i: usize = 0;
    while i < segments.len()
        invariant
            i <= segments@.len(),
            r@ == concat_segments_spec(segments.deep_view().take(i as int)),
        decreases segments@.len() - i,
    {
        extend_bytes(&mut r, &segments[i]);
        proof {
            let dv = segments.deep_view();
            assert(dv.take(i as int + 1).drop_last() =~= dv.take(i as int));
            assert(dv.take(i as int + 1).last() == dv[i as int]);
            assert(dv[i as int] == segments@[i as int]@);
            assert(r@ =~= concat_segments_spec(dv.take(i as int + 1)));
        }
        i = i + 1;
    }
    proof {
        assert(segments.deep_view().take(segments.deep_view().len() as int) =~= segments.deep_view());
    }
    r
}

/// What one append produced: the record bytes and the segment that must
/// receive them, whole, so that no record ever spans two files.
pub struct RecordOutput {
    /// Index of the segment the bytes belong to.
    pub segment_index: u64,
    /// Whether this append opened a new segment.
    pub rotated: bool,
    /// The encoded record.
    pub bytes: Vec<u8>,
}

/// The append-only segmented log.  `segments()` models the bytes of every
/// segment file in index order; `payloads()` the appended payloads in arrival
/// order.
pub struct RecordingStream {
    file_index: u64,
    current_size: u64,
    segments_model: Ghost<Seq<Seq<u8>>>,
    entries_model: Ghost<Seq<(u64, Seq<u8>)>>,
}

impl RecordingStream {
    /// The modelled contents of each segment file, in index order.
    pub closed spec fn segments(self) -> Seq<Seq<u8>> {
        self.segments_model@
    }

    /// The recorded history: capture timestamp and payload of each append.
    pub closed spec fn entries(self) -> Seq<(u64, Seq<u8>)> {
        self.entries_model@
    }

    /// The appended payloads in arrival order.
    pub open spec fn payloads(self) -> Seq<Seq<u8>> {
        payloads_spec(self.entries())
    }

    /// Index of the segment currently being written.
    pub closed spec fn segment_index(self) -> u64 {
        self.file_index
    }

    /// Bytes written to the current segment so far.
    pub closed spec fn segment_size(self) -> u64 {
        self.current_size
    }

    pub closed spec fn wf(self) -> bool {
        &&& self.segments().len() == self.file_index as int + 1
        &&& self.current_size as int == self.segments().last().len()
        &&& concat_segments_spec(self.segments()) == encode_records_spec(self.entries())
        &&& wf_entries(self.entries())
        &&& forall|i: int|
            0 <= i < self.segments().len() ==> (#[trigger] self.segments()[i]).len()
                <= MAX_FILE_SIZE + MAX_RECORD_SIZE
    }

    /// A fresh log: one empty segment, index zero, nothing recorded.
    pub fn new() -> (r: Self)
        ensures
            r.wf(),
            r.segment_index() == 0,
            r.segment_size() == 0,
            r.segments() == seq![Seq::<u8>::empty()],
            r.entries() == Seq::<(u64, Seq<u8>)>::empty(),
    {
        let ghost init_segs: Seq<Seq<u8>> = seq![Seq::empty()];
        let r = RecordingStream {
            file_index: 0,
            current_size: 0,
            segments_model: Ghost(init_segs),
            entries_model: Ghost(Seq::empty()),
        };
        proof {
            reveal_with_fuel(concat_segments_spec, 2);
            assert(seq![Seq::<u8>::empty()].drop_last() =~= Seq::<Seq<u8>>::empty());
            assert(concat_segments_spec(seq![Seq::<u8>::empty()]) =~= Seq::<u8>::empty());
        }
        r
    }

    /// Index of the segment currently being written.
    pub fn current_segment_index(&self) -> (r: u64)
        ensures
            r == self.segment_index(),
    {
        self.file_index
    }

    /// Bytes written to the current segment so far.
    pub fn current_segment_size(&self) -> (r: u64)
        ensures
            r == self.segment_size(),
    {
        self.current_size
    }

    /// Append a record with the given capture timestamp.  If the record would
    /// push the current segment past `MAX_FILE_SIZE`, a new segment is opened
    /// first, so that no record spans two files; the record's bytes then go,
    /// whole, into the segment named by the result.
    pub fn record_at(&mut self, timestamp: u64, payload: &Vec<u8>) -> (r: RecordOutput)
        requires
            old(self).wf(),
            payload@.len() <= u32::MAX,
            old(self).segment_index() < u64::MAX,
        ensures
            final(self).wf(),
            r.bytes@ == encode_record_spec(timestamp, payload@),
            r.rotated == (old(self).segment_size() + 12 + payload@.len() > MAX_FILE_SIZE),
            r.segment_index == final(self).segment_index(),
            final(self).entries() == old(self).entries().push((timestamp, payload@)),
            final(self).payloads() == old(self).payloads().push(payload@),
            r.rotated ==> final(self).segment_index() == old(self).segment_index() + 1 && final(self).segments() == old(self).segments().push(r.bytes@),
            !r.rotated ==> final(self).segment_index() == old(self).segment_index() && final(self).segments() == old(self).segments().update(
                old(self).segments().len() - 1,
                old(self).segments().last() + r.bytes@,
            ),
            final(self).segment_size() == 12 + payload@.len() + (if r.rotated {
                0
            } else {
                old(self).segment_size() as int
            }),
    {
        let bytes = encode_record(timestamp, payload);
        let record_size: u64 = 12 + (payload.len() as u32 as u64);
        let rotated = self.current_size + record_size > MAX_FILE_SIZE;
        if rotated {
            self.file_index = self.file_index + 1;
            self.current_size = record_size;
            self.segments_model = Ghost(self.segments_model@.push(bytes@));
            proof {
                lemma_concat_push(old(self).segments(), bytes@);
            }
        } else {
            self.current_size = self.current_size + record_size;
            let ghost n = self.segments_model@.len();
            self.segments_model = Ghost(
                self.segments_model@.update(n - 1, self.segments_model@.last() + bytes@),
            );
            proof {
                lemma_concat_update_last(old(self).segments(), bytes@);
            }
        }
        self.entries_model = Ghost(self.entries_model@.push((timestamp, payload@)));
        proof {
            lemma_encode_records_push(old(self).entries(), (timestamp, payload@));
            lemma_payloads_push(old(self).entries(), (timestamp, payload@));
        }
        RecordOutput { segment_index: self.file_index, rotated, bytes }
    }

    /// Append a record stamped with the current clock reading.  The timestamp
    /// is whatever the clock returned; everything else is as `record_at`.
    pub fn record(&mut self, payload: &Vec<u8>) -> (r: RecordOutput)
        requires
            old(self).wf(),
            payload@.len() <= u32::MAX,
            old(self).segment_index() < u64::MAX,
        ensures
            final(self).wf(),
            exists|ts: u64|
                r.bytes@ == encode_record_spec(ts, payload@) && final(self).entries() == old(self).entries().push((ts, payload@)),
            r.rotated == (old(self).segment_size() + 12 + payload@.len() > MAX_FILE_SIZE),
            r.segment_index == final(self).segment_index(),
            final(self).payloads() == old(self).payloads().push(payload@),
            r.rotated ==> final(self).segment_index() == old(self).segment_index() + 1 && final(self).segments() == old(self).segments().push(r.bytes@),
            !r.rotated ==> final(self).segment_index() == old(self).segment_index() && final(self).segments() == old(self).segments().update(
                old(self).segments().len() - 1,
                old(self).segments().last() + r.bytes@,
            ),
            final(self).segment_size() == 12 + payload@.len() + (if r.rotated {
                0
            } else {
                old(self).segment_size() as int
            }),
    {
        let ts = current_timestamp();
        let r = self.record_at(ts, payload);
        proof {
            assert(r.bytes@ == encode_record_spec(ts, payload@) && self.entries() == old(self).entries().push((ts, payload@)));
        }
        r
    }
}

/// Round-trip law: replaying the concatenation of a log's segments in index
/// order yields exactly the appended payloads, in order, with a clean end.
pub proof fn lemma_stream_round_trip(s: &RecordingStream)
    requires
        s.wf(),
    ensures
        parse_records_spec(concat_segments_spec(s.segments())).0 == s.payloads(),
        parse_records_spec(concat_segments_spec(s.segments())).1 == ReplayEnd::Clean,
{
    lemma_round_trip(s.entries());
}

/// Rotation bound law: no segment, open or closed, ever holds more than the
/// rotation cap plus one maximum-size record.
pub proof fn lemma_rotation_bound(s: &RecordingStream)
    requires
        s.wf(),
    ensures
        forall|i: int|
            0 <= i < s.segments().len() ==> (#[trigger] s.segments()[i]).len() <= MAX_FILE_SIZE
                + MAX_RECORD_SIZE,
{
}

} // verus!
