use meshcap::playback::{ReplayEnd, ReplayItem, ReplayIterator};
use meshcap::radio_message::{AppMessage, DecodeError, Port, RadioMessage, TextMessage};
use meshcap::recording_stream::{
    concat_segments, current_timestamp, encode_record, segment_file_name, RecordingStream,
};
use meshcap::stats::DecodeCounters;

/// Feed a record's bytes into the per-segment buffers, as a caller writing
/// segment files would.
fn write_out(segments: &mut Vec<Vec<u8>>, segment_index: u64, bytes: &[u8]) {
    while segments.len() <= segment_index as usize {
        segments.push(Vec::new());
    }
    segments[segment_index as usize].extend_from_slice(bytes);
}

#[test]
fn record_encoding_is_exact() {
    let bytes = encode_record(1, &vec![0xAB]);
    assert_eq!(
        bytes,
        vec![1, 0, 0, 0, 0, 0, 0, 0, 1, 0, 0, 0, 0xAB]
    );
    let bytes = encode_record(0x0102030405060708, &vec![]);
    assert_eq!(bytes, vec![8, 7, 6, 5, 4, 3, 2, 1, 0, 0, 0, 0]);
}

#[test]
fn round_trip_preserves_payloads() {
    let payloads: Vec<Vec<u8>> = vec![
        vec![1, 2, 3, 4, 5],
        Vec::new(),
        vec![0xFF; 1000],
        b"assorted bytes".to_vec(),
    ];

    let mut stream = RecordingStream::new();
    let mut segments: Vec<Vec<u8>> = Vec::new();
    for p in &payloads {
        let out = stream.record(p);
        write_out(&mut segments, out.segment_index, &out.bytes);
    }

    let logical = concat_segments(&segments);
    let mut replay = ReplayIterator::new(logical);
    let (read_back, end) = replay.read_all();
    assert_eq!(read_back, payloads);
    assert_eq!(end, ReplayEnd::Clean);
}

#[test]
fn rotation_before_the_crossing_record() {
    let six_mib = vec![7u8; 6 * 1024 * 1024];

    let mut stream = RecordingStream::new();
    let first = stream.record_at(100, &six_mib);
    assert!(!first.rotated);
    assert_eq!(first.segment_index, 0);

    // The second six-mebibyte record would cross the ten-mebibyte cap, so a
    // new segment is opened before it is written.
    let second = stream.record_at(101, &six_mib);
    assert!(second.rotated);
    assert_eq!(second.segment_index, 1);

    // A small record still fits in the second segment.
    let third = stream.record_at(102, &vec![1]);
    assert!(!third.rotated);
    assert_eq!(third.segment_index, 1);
}

#[test]
fn rotated_capture_replays_in_order() {
    let big = vec![9u8; 4 * 1024 * 1024];
    let payloads: Vec<Vec<u8>> = vec![big.clone(), big.clone(), big.clone(), vec![1, 2, 3]];

    let mut stream = RecordingStream::new();
    let mut segments: Vec<Vec<u8>> = Vec::new();
    for (i, p) in payloads.iter().enumerate() {
        let out = stream.record_at(i as u64, p);
        write_out(&mut segments, out.segment_index, &out.bytes);
    }
    assert!(segments.len() > 1, "the capture should have rotated");

    let logical = concat_segments(&segments);
    let mut replay = ReplayIterator::new(logical);
    let (read_back, end) = replay.read_all();
    assert_eq!(read_back, payloads);
    assert_eq!(end, ReplayEnd::Clean);
}

#[test]
fn truncation_is_distinct_from_clean_end() {
    let payloads: Vec<Vec<u8>> = vec![vec![1, 2], vec![3, 4, 5]];

    let mut complete = Vec::new();
    for (i, p) in payloads.iter().enumerate() {
        complete.extend_from_slice(&encode_record(i as u64, p));
    }

    // Exactly at a record boundary: a clean end after both records.
    let mut replay = ReplayIterator::new(complete.clone());
    let (read_back, end) = replay.read_all();
    assert_eq!(read_back, payloads);
    assert_eq!(end, ReplayEnd::Clean);

    // A partial header after the complete records: truncation, not a clean
    // end, after the same two successful reads.
    let mut cut_header = complete.clone();
    cut_header.extend_from_slice(&[0, 0, 0, 0, 0]);
    let mut replay = ReplayIterator::new(cut_header);
    let (read_back, end) = replay.read_all();
    assert_eq!(read_back, payloads);
    assert_eq!(end, ReplayEnd::Truncated);

    // A full header whose payload is cut off: truncation too.
    let mut cut_payload = complete.clone();
    let mut partial = encode_record(9, &vec![1, 2, 3, 4]);
    partial.truncate(partial.len() - 2);
    cut_payload.extend_from_slice(&partial);
    let mut replay = ReplayIterator::new(cut_payload);
    let (read_back, end) = replay.read_all();
    assert_eq!(read_back, payloads);
    assert_eq!(end, ReplayEnd::Truncated);
}

#[test]
fn implausible_length_reports_truncation() {
    // A header announcing four gibibytes with three bytes behind it must be
    // reported as corruption, not drive an allocation.
    let mut bytes = vec![0u8; 8];
    bytes.extend_from_slice(&[0xFF, 0xFF, 0xFF, 0xFF]);
    bytes.extend_from_slice(&[1, 2, 3]);
    let mut replay = ReplayIterator::new(bytes);
    let (read_back, end) = replay.read_all();
    assert!(read_back.is_empty());
    assert_eq!(end, ReplayEnd::Truncated);
}

#[test]
fn single_steps_mirror_read_all() {
    let mut bytes = encode_record(5, &vec![10, 20]);
    bytes.extend_from_slice(&encode_record(6, &vec![30]));

    let mut replay = ReplayIterator::new(bytes);
    match replay.next_record() {
        ReplayItem::Record(p) => assert_eq!(p, vec![10, 20]),
        other => panic!("expected a record, got {:?}", other),
    }
    match replay.next_record() {
        ReplayItem::Record(p) => assert_eq!(p, vec![30]),
        other => panic!("expected a record, got {:?}", other),
    }
    assert_eq!(replay.next_record(), ReplayItem::End);
}

#[test]
fn segment_names_sort_with_their_indexes() {
    assert_eq!(segment_file_name(0), "meshtastic-recording-00000.bin");
    assert_eq!(segment_file_name(1), "meshtastic-recording-00001.bin");
    assert_eq!(segment_file_name(123), "meshtastic-recording-00123.bin");
    assert_eq!(segment_file_name(99999), "meshtastic-recording-99999.bin");
    assert_eq!(segment_file_name(123456), "meshtastic-recording-123456.bin");

    let earlier = segment_file_name(7);
    let later = segment_file_name(1234);
    assert!(earlier < later);
}

#[test]
fn timestamps_are_seconds_since_epoch() {
    let before = current_timestamp();
    let after = current_timestamp();
    assert!(after >= before);
}

#[test]
fn counters_track_each_outcome() {
    let mut counters = DecodeCounters::new();
    counters.note(&Err(DecodeError::MalformedEnvelope));
    counters.note(&Err(DecodeError::UnsupportedPort(9999)));
    let text = RadioMessage {
        node_id: 1,
        portnum: Port::TextMessage,
        app: AppMessage::Text(TextMessage { to: None, from: None, msg: String::new() }),
    };
    counters.note(&Ok(text.clone()));
    counters.note(&Ok(text));
    assert_eq!(counters.failures, 2);
    assert_eq!(counters.telemetry, 0);
    assert_eq!(counters.position, 0);
    assert_eq!(counters.text, 2);
}
