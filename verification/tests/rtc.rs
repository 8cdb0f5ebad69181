use bytes::Bytes;
use rtc2rtmp::error::NegotiationError;
use rtc2rtmp::h264::H264Data;
use rtc2rtmp::rtc::{advance, IngestError, IngestState, Ingested, RtpIngestion};

const FIRST_KEY_FRAME: [u8; 23] = [
    0x78, 0x00, 0x0e, 0x67, 0x42, 0xc0, 0x15, 0x8c, 0x8d, 0x40, 0xa0, 0xf9, 0x00, 0xf0, 0x88, 0x46,
    0xa0, 0x00, 0x04, 0x68, 0xce, 0x3c, 0x80,
];

const SPS: [u8; 14] = [
    0x67, 0x42, 0xc0, 0x15, 0x8c, 0x8d, 0x40, 0xa0, 0xf9, 0x00, 0xf0, 0x88, 0x46, 0xa0,
];

const PPS: [u8; 4] = [0x68, 0xce, 0x3c, 0x80];

fn streaming() -> RtpIngestion {
    let mut ingestion = RtpIngestion::new(0x42, 0x15, 90000);
    let out = ingestion.on_packet(&Bytes::from_static(&FIRST_KEY_FRAME), 0);
    assert!(matches!(out, Ingested::Unit(H264Data::Configuration { .. })));
    assert_eq!(ingestion.current_state(), IngestState::Streaming);
    ingestion
}

fn data_of(out: Ingested) -> (u32, Vec<u8>) {
    match out {
        Ingested::Unit(H264Data::Data { timestamp, data }) => (timestamp, data.to_vec()),
        other => panic!("no coded data: {:?}", other),
    }
}

#[test]
fn new_ingestion_awaits_a_key_frame() {
    let ingestion = RtpIngestion::new(0x42, 0x15, 90000);
    assert_eq!(ingestion.current_state(), IngestState::AwaitingKeyFrame);
}

#[test]
fn payloads_before_the_key_frame_are_dropped() {
    let mut ingestion = RtpIngestion::new(0x42, 0x15, 90000);
    for payload in [
        &[0x41u8, 0x9a, 0x00, 0x07][..],
        &[0x65, 0x88, 0x84, 0x00, 0x01],
        &[0x7c, 0x85, 0xaa, 0xbb],
        &[],
        &[0x67],
        &[0x78, 0x00, 0x01, 0x68],
        &[0x00, 0x01, 0x02, 0x03],
    ] {
        let out = ingestion.on_packet(&Bytes::copy_from_slice(payload), 1234);
        assert!(matches!(out, Ingested::Dropped), "{:?}", out);
        assert_eq!(ingestion.current_state(), IngestState::AwaitingKeyFrame);
    }
}

#[test]
fn first_key_frame_gives_the_configuration() {
    let mut ingestion = RtpIngestion::new(0x42, 0x15, 90000);
    let out = ingestion.on_packet(&Bytes::from_static(&FIRST_KEY_FRAME), 77);
    assert_eq!(ingestion.current_state(), IngestState::Streaming);
    match out {
        Ingested::Unit(H264Data::Configuration { raw, record }) => {
            let mut expected = vec![0, 0, 0, 1];
            expected.extend_from_slice(&SPS);
            expected.extend_from_slice(&[0, 0, 0, 1]);
            expected.extend_from_slice(&PPS);
            assert_eq!(raw.to_vec(), expected);
            assert_eq!(record.profile_indication, 0x42);
            assert_eq!(record.level_indication, 0x15);
            assert_eq!(record.sequence_parameter_sets, vec![(14u16, SPS.to_vec())]);
            assert_eq!(record.picture_parameter_sets, vec![(4u16, PPS.to_vec())]);
            assert_eq!(record.num_of_sequence_parameter_sets, 1);
            assert_eq!(record.num_of_picture_parameter_sets, 1);
        }
        other => panic!("no configuration: {:?}", other),
    }
}

#[test]
fn single_units_go_out_as_coded_data() {
    let mut ingestion = streaming();
    let out = ingestion.on_packet(&Bytes::from_static(&[0x65, 0x88, 0x84]), 180_000);
    assert_eq!(data_of(out), (2, vec![0, 0, 0, 1, 0x65, 0x88, 0x84]));
    assert_eq!(ingestion.current_state(), IngestState::Streaming);
}

#[test]
fn source_timestamps_are_divided_by_the_clock_rate() {
    let mut ingestion = streaming();
    let mut seconds = Vec::new();
    for timestamp in [0u32, 90000, 180000] {
        let out = ingestion.on_packet(&Bytes::from_static(&[0x41, 0x9a, 0x00]), timestamp);
        seconds.push(data_of(out).0);
    }
    assert_eq!(seconds, vec![0, 1, 2]);
}

#[test]
fn division_discards_the_fraction_of_a_second() {
    let mut ingestion = streaming();
    let out = ingestion.on_packet(&Bytes::from_static(&[0x41, 0x9a, 0x00]), 89_999);
    assert_eq!(data_of(out).0, 0);
    let out = ingestion.on_packet(&Bytes::from_static(&[0x41, 0x9a, 0x00]), 269_999);
    assert_eq!(data_of(out).0, 2);
    let out = ingestion.on_packet(&Bytes::from_static(&[0x41, 0x9a, 0x00]), u32::MAX);
    assert_eq!(data_of(out).0, 47_721);
}

#[test]
fn clock_rate_of_one_keeps_the_timestamp() {
    let mut ingestion = RtpIngestion::new(1, 2, 1);
    ingestion.on_packet(&Bytes::from_static(&FIRST_KEY_FRAME), 0);
    let out = ingestion.on_packet(&Bytes::from_static(&[0x41, 0x9a, 0x00]), 4_000_000_000);
    assert_eq!(data_of(out).0, 4_000_000_000);
}

#[test]
fn fragments_go_out_when_the_last_one_has_come() {
    let mut ingestion = streaming();
    let out = ingestion.on_packet(&Bytes::from_static(&[0x7c, 0x85, 0xaa, 0xbb]), 90000);
    assert!(matches!(out, Ingested::Dropped), "{:?}", out);
    let out = ingestion.on_packet(&Bytes::from_static(&[0x7c, 0x05, 0xcc]), 90000);
    assert!(matches!(out, Ingested::Dropped), "{:?}", out);
    let out = ingestion.on_packet(&Bytes::from_static(&[0x7c, 0x45, 0xdd, 0xee]), 90000);
    assert_eq!(data_of(out), (1, vec![0, 0, 0, 1, 0x65, 0xaa, 0xbb, 0xcc, 0xdd, 0xee]));
    assert_eq!(ingestion.current_state(), IngestState::Streaming);
}

#[test]
fn later_aggregations_go_out_as_coded_data() {
    let mut ingestion = streaming();
    let out = ingestion.on_packet(&Bytes::from_static(&FIRST_KEY_FRAME), 450_000);
    let (timestamp, data) = data_of(out);
    assert_eq!(timestamp, 5);
    let mut expected = vec![0, 0, 0, 1];
    expected.extend_from_slice(&SPS);
    expected.extend_from_slice(&[0, 0, 0, 1]);
    expected.extend_from_slice(&PPS);
    assert_eq!(data, expected);
}

#[test]
fn key_frame_that_is_no_aggregation_ends_the_track() {
    let mut ingestion = RtpIngestion::new(0x42, 0x15, 90000);
    let out = ingestion.on_packet(&Bytes::from_static(&[0x67, 0x42, 0xc0, 0x15]), 0);
    assert!(matches!(
        out,
        Ingested::Fatal(IngestError::Negotiation(NegotiationError::NotStapA))
    ));
    assert_eq!(ingestion.current_state(), IngestState::Terminated);
}

#[test]
fn truncated_key_frame_ends_the_track() {
    let mut ingestion = RtpIngestion::new(0x42, 0x15, 90000);
    let out = ingestion.on_packet(&Bytes::copy_from_slice(&FIRST_KEY_FRAME[..22]), 0);
    assert!(matches!(
        out,
        Ingested::Fatal(IngestError::Negotiation(NegotiationError::TruncatedStapA))
    ));
    assert_eq!(ingestion.current_state(), IngestState::Terminated);
}

#[test]
fn key_frame_that_ends_inside_a_length_ends_the_track() {
    let mut ingestion = RtpIngestion::new(0x42, 0x15, 90000);
    let out = ingestion.on_packet(&Bytes::from_static(&[0x78, 0x00, 0x01, 0x67, 0x00]), 0);
    assert!(matches!(
        out,
        Ingested::Fatal(IngestError::Negotiation(NegotiationError::TruncatedStapA))
    ));
    assert_eq!(ingestion.current_state(), IngestState::Terminated);
}

#[test]
fn key_frame_with_too_many_parameter_sets_ends_the_track() {
    let mut payload = vec![0x78];
    for _ in 0..32 {
        payload.extend_from_slice(&[0, 1, 0x67]);
    }
    let mut ingestion = RtpIngestion::new(0x42, 0x15, 90000);
    let out = ingestion.on_packet(&Bytes::from(payload), 0);
    assert!(matches!(
        out,
        Ingested::Fatal(IngestError::Negotiation(NegotiationError::TooManyParameterSets))
    ));
    assert_eq!(ingestion.current_state(), IngestState::Terminated);
}

#[test]
fn payload_that_the_depacketizer_refuses_ends_the_track() {
    for payload in [&[0x00u8, 0x01, 0x02][..], &[0x41, 0x9a], &[], &[0x7e, 0x00, 0x00, 0x00]] {
        let mut ingestion = streaming();
        let out = ingestion.on_packet(&Bytes::copy_from_slice(payload), 90000);
        assert!(matches!(out, Ingested::Fatal(IngestError::Depacketize)), "{:?}", out);
        assert_eq!(ingestion.current_state(), IngestState::Terminated);
    }
}

#[test]
fn malformed_aggregation_after_the_key_frame_ends_the_track() {
    for payload in [
        &[0x78u8, 0x00, 0x01, 0x67, 0x00][..],
        &[0x78, 0x00, 0x05, 0x67],
        &[0x18, 0x00],
        &[0x38, 0x00, 0x00, 0x01],
    ] {
        let mut ingestion = streaming();
        let out = ingestion.on_packet(&Bytes::copy_from_slice(payload), 90000);
        assert!(matches!(out, Ingested::Fatal(IngestError::Depacketize)), "{:?}", out);
        assert_eq!(ingestion.current_state(), IngestState::Terminated);
    }
}

#[test]
fn terminated_track_takes_nothing() {
    let mut ingestion = RtpIngestion::new(0x42, 0x15, 90000);
    ingestion.on_packet(&Bytes::from_static(&[0x67, 0x42, 0xc0, 0x15]), 0);
    for payload in [&FIRST_KEY_FRAME[..], &[0x65, 0x88, 0x84], &[]] {
        let out = ingestion.on_packet(&Bytes::copy_from_slice(payload), 0);
        assert!(matches!(out, Ingested::Fatal(IngestError::Terminated)), "{:?}", out);
        assert_eq!(ingestion.current_state(), IngestState::Terminated);
    }
}

#[test]
fn no_data_before_exactly_one_configuration() {
    let payloads: Vec<&[u8]> = vec![
        &[0x41, 0x9a, 0x00, 0x07],
        &[0x65, 0x88, 0x84, 0x00],
        &FIRST_KEY_FRAME,
        &[0x65, 0x88, 0x84],
        &FIRST_KEY_FRAME,
        &[0x7c, 0x85, 0xaa],
        &[0x7c, 0x45, 0xbb],
        &[0x41, 0x9a, 0x00],
        &[0x00, 0x00, 0x00],
        &FIRST_KEY_FRAME,
        &[0x41, 0x9a, 0x00],
    ];
    let mut ingestion = RtpIngestion::new(0x42, 0x15, 90000);
    let mut kinds = Vec::new();
    for payload in payloads {
        match ingestion.on_packet(&Bytes::copy_from_slice(payload), 0) {
            Ingested::Unit(H264Data::Configuration { .. }) => kinds.push('c'),
            Ingested::Unit(H264Data::Data { .. }) => kinds.push('d'),
            _ => {}
        }
    }
    assert_eq!(kinds, vec!['c', 'd', 'd', 'd', 'd']);
}

#[test]
fn step_on_plain_values_before_the_key_frame() {
    let (state, out) = advance(
        IngestState::AwaitingKeyFrame,
        0x42,
        0x15,
        90000,
        &[0x41, 0x9a, 0x00, 0x07],
        5,
        Some(Bytes::from_static(&[1, 2, 3])),
    );
    assert_eq!(state, IngestState::AwaitingKeyFrame);
    assert!(matches!(out, Ingested::Dropped));
}

#[test]
fn step_on_plain_values_at_the_key_frame() {
    let (state, out) = advance(
        IngestState::AwaitingKeyFrame,
        0x42,
        0x15,
        90000,
        &FIRST_KEY_FRAME,
        5,
        Some(Bytes::from_static(&[9, 9])),
    );
    assert_eq!(state, IngestState::Streaming);
    match out {
        Ingested::Unit(H264Data::Configuration { raw, record }) => {
            assert_eq!(raw.as_ref(), &[9, 9]);
            assert_eq!(record.sequence_parameter_sets, vec![(14u16, SPS.to_vec())]);
            assert_eq!(record.picture_parameter_sets, vec![(4u16, PPS.to_vec())]);
        }
        other => panic!("no configuration: {:?}", other),
    }
    let (state, out) =
        advance(IngestState::AwaitingKeyFrame, 0x42, 0x15, 90000, &FIRST_KEY_FRAME, 5, None);
    assert_eq!(state, IngestState::Terminated);
    assert!(matches!(out, Ingested::Fatal(IngestError::Depacketize)));
}

#[test]
fn step_on_plain_values_while_streaming() {
    let (state, out) = advance(
        IngestState::Streaming,
        0x42,
        0x15,
        1000,
        &[0x41, 0x9a, 0x00],
        5999,
        Some(Bytes::from_static(&[7, 8])),
    );
    assert_eq!(state, IngestState::Streaming);
    assert_eq!(data_of(out), (5, vec![7, 8]));

    let (state, out) = advance(
        IngestState::Streaming,
        0x42,
        0x15,
        1000,
        &[0x41, 0x9a, 0x00],
        5999,
        Some(Bytes::new()),
    );
    assert_eq!(state, IngestState::Streaming);
    assert!(matches!(out, Ingested::Dropped));

    let (state, out) =
        advance(IngestState::Streaming, 0x42, 0x15, 1000, &[0x41, 0x9a, 0x00], 5999, None);
    assert_eq!(state, IngestState::Terminated);
    assert!(matches!(out, Ingested::Fatal(IngestError::Depacketize)));

    let (state, out) = advance(
        IngestState::Streaming,
        0x42,
        0x15,
        1000,
        &[0x78, 0x00],
        5999,
        Some(Bytes::from_static(&[7, 8])),
    );
    assert_eq!(state, IngestState::Terminated);
    assert!(matches!(out, Ingested::Fatal(IngestError::Depacketize)));
}

#[test]
fn step_on_plain_values_after_the_end() {
    let (state, out) = advance(
        IngestState::Terminated,
        0x42,
        0x15,
        90000,
        &FIRST_KEY_FRAME,
        5,
        Some(Bytes::from_static(&[1])),
    );
    assert_eq!(state, IngestState::Terminated);
    assert!(matches!(out, Ingested::Fatal(IngestError::Terminated)));
}
