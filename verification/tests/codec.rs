use bytes::Bytes;
use openh264::encoder::{Encoder, EncoderConfig};
use openh264::formats::RBGYUVConverter;
use rtc2rtmp::codec::{
    plan_picture, settle, CodecReply, PicturePlan, TranscodeError, TranscodeState, Transcoder,
    CODED_LAYER,
};
use rtc2rtmp::flv::FrameKind;
use rtc2rtmp::flv::sequence_header;
use rtc2rtmp::h264::{AVCDecoderConfigurationRecord, H264Data};

/// Coded frames of a moving pattern, as an encoder of the given size makes
/// them: the first is a key frame with its parameter sets.
fn coded_frames(width: usize, height: usize, count: usize) -> Vec<Vec<u8>> {
    let mut encoder =
        Encoder::with_config(EncoderConfig::new(width as u32, height as u32)).expect("encoder");
    let mut converter = RBGYUVConverter::new(width, height);
    let mut frames = Vec::new();
    for n in 0..count {
        let mut rgb = vec![0u8; width * height * 3];
        for y in 0..height {
            for x in 0..width {
                let at = (y * width + x) * 3;
                rgb[at] = ((x + 3 * n) * 4) as u8;
                rgb[at + 1] = ((y + 5 * n) * 4) as u8;
                rgb[at + 2] = ((x + y + n) * 2) as u8;
            }
        }
        converter.convert(&rgb);
        frames.push(encoder.encode(&converter).expect("encode").to_vec());
    }
    frames
}

fn data_of(out: Result<Option<H264Data>, TranscodeError>) -> (u32, Vec<u8>) {
    match out {
        Ok(Some(H264Data::Data { timestamp, data })) => (timestamp, data.to_vec()),
        other => panic!("no coded data: {:?}", other),
    }
}

#[test]
fn coded_layer_is_the_second() {
    assert_eq!(CODED_LAYER, 1);
}

#[test]
fn new_transcoder_has_no_encoder() {
    let transcoder = Transcoder::new().expect("decoder");
    assert_eq!(transcoder.current_state(), TranscodeState::Created);
}

#[test]
fn first_picture_makes_the_encoder_and_goes_out_as_key_frame() {
    let frames = coded_frames(64, 48, 1);
    let mut transcoder = Transcoder::new().expect("decoder");
    let out = transcoder.process(H264Data::new(4711, Bytes::from(frames[0].clone())));
    let (timestamp, data) = data_of(out);
    assert_eq!(timestamp, 4711);
    assert_eq!(&data[..5], &[0x17, 1, 0, 0, 0]);
    assert!(data.len() > 9);
    assert_eq!(&data[5..9], &[0, 0, 0, 1]);
    assert_eq!(data[9] & 0x1f, 5);
    assert_eq!(
        transcoder.current_state(),
        TranscodeState::HeaderReceived { width: 64, height: 48 }
    );
}

#[test]
fn later_pictures_go_out_with_all_their_units() {
    let frames = coded_frames(64, 48, 4);
    let mut transcoder = Transcoder::new().expect("decoder");
    let mut tags = Vec::new();
    for (n, frame) in frames.iter().enumerate() {
        let out = transcoder.process(H264Data::new(n as u32 * 40, Bytes::from(frame.clone())));
        match out {
            Ok(Some(H264Data::Data { timestamp, data })) => {
                assert_eq!(timestamp, n as u32 * 40);
                assert!(data[0] == 0x17 || data[0] == 0x27);
                assert_eq!(data[0] & 0x0f, 7);
                assert_eq!(&data[1..5], &[1, 0, 0, 0]);
                if n > 0 {
                    assert!(data.len() > 9);
                    assert_eq!(&data[5..9], &[0, 0, 0, 1]);
                }
                tags.push(data[0]);
            }
            Ok(None) => {}
            other => panic!("{:?}", other),
        }
        assert_eq!(
            transcoder.current_state(),
            TranscodeState::HeaderReceived { width: 64, height: 48 }
        );
    }
    assert_eq!(tags[0], 0x17);
    assert!(tags.len() >= 2);
    assert!(tags[1..].contains(&0x27));
}

#[test]
fn configuration_goes_out_as_sequence_header_at_zero() {
    let frames = coded_frames(64, 48, 1);
    let mut record = AVCDecoderConfigurationRecord::new(0x42, 0x1f);
    record.add_sps(vec![0x67, 0x42, 0xc0, 0x1f]);
    record.add_pps(vec![0x68, 0xce, 0x3c, 0x80]);
    let expected = sequence_header(&record);
    let mut transcoder = Transcoder::new().expect("decoder");
    let out =
        transcoder.process(H264Data::configuration(Bytes::from(frames[0].clone()), record));
    let (timestamp, data) = data_of(out);
    assert_eq!(timestamp, 0);
    assert_eq!(data, expected);
    assert_eq!(&data[..5], &[0x17, 0, 0, 0, 0]);
    assert_eq!(data[5], 1);
    assert_eq!(transcoder.current_state(), TranscodeState::Created);
}

#[test]
fn unit_that_the_decoder_refuses_is_an_error() {
    let mut transcoder = Transcoder::new().expect("decoder");
    let out = transcoder.process(H264Data::new(0, Bytes::from_static(&[0, 0, 0, 1, 0x65, 0xff])));
    assert!(matches!(out, Err(TranscodeError::Decode)), "{:?}", out);
    assert_eq!(transcoder.current_state(), TranscodeState::Created);

    let record = AVCDecoderConfigurationRecord::new(0x42, 0x1f);
    let out = transcoder
        .process(H264Data::configuration(Bytes::from_static(&[0, 0, 0, 1, 0x65, 0xff]), record));
    assert!(matches!(out, Err(TranscodeError::Decode)), "{:?}", out);
    assert_eq!(transcoder.current_state(), TranscodeState::Created);
}

#[test]
fn picture_of_another_size_is_refused() {
    let small = coded_frames(64, 48, 1);
    let large = coded_frames(128, 96, 1);
    let mut transcoder = Transcoder::new().expect("decoder");
    data_of(transcoder.process(H264Data::new(0, Bytes::from(small[0].clone()))));
    let out = transcoder.process(H264Data::new(40, Bytes::from(large[0].clone())));
    assert!(matches!(out, Err(TranscodeError::ResolutionChanged)), "{:?}", out);
    assert_eq!(
        transcoder.current_state(),
        TranscodeState::HeaderReceived { width: 64, height: 48 }
    );
}

#[test]
fn picture_without_width_is_dropped() {
    assert_eq!(plan_picture(TranscodeState::Created, 0, 0), PicturePlan::Drop);
    assert_eq!(plan_picture(TranscodeState::Created, 0, 240), PicturePlan::Drop);
    assert_eq!(
        plan_picture(TranscodeState::HeaderReceived { width: 320, height: 240 }, 0, 240),
        PicturePlan::Drop
    );
    assert_eq!(
        plan_picture(TranscodeState::HeaderReceived { width: 0, height: 0 }, 0, 0),
        PicturePlan::Drop
    );
}

#[test]
fn first_picture_is_planned_without_an_encoder() {
    assert_eq!(plan_picture(TranscodeState::Created, 320, 240), PicturePlan::First);
    assert_eq!(plan_picture(TranscodeState::Created, 1, 0), PicturePlan::First);
    assert_eq!(plan_picture(TranscodeState::Created, -1, -1), PicturePlan::First);
}

#[test]
fn later_pictures_must_keep_the_size() {
    let state = TranscodeState::HeaderReceived { width: 320, height: 240 };
    assert_eq!(plan_picture(state, 320, 240), PicturePlan::Later);
    assert_eq!(plan_picture(state, 640, 240), PicturePlan::Refuse);
    assert_eq!(plan_picture(state, 320, 480), PicturePlan::Refuse);
    assert_eq!(plan_picture(state, 240, 320), PicturePlan::Refuse);
}

fn reply(
    decoded: Option<(i32, i32)>,
    encoder_made: bool,
    encoded: Option<FrameKind>,
    layer: Option<Vec<u8>>,
    coded: Vec<u8>,
) -> CodecReply {
    CodecReply { decoded, encoder_made, encoded, layer, coded }
}

fn unit(timestamp: u32) -> H264Data {
    H264Data::new(timestamp, Bytes::from_static(&[0, 0, 0, 1, 0x65]))
}

const SENT: TranscodeState = TranscodeState::HeaderReceived { width: 320, height: 240 };

#[test]
fn step_without_a_picture_is_a_decode_error() {
    for state in [TranscodeState::Created, SENT] {
        let (out, next) =
            settle(state, unit(5), reply(None, true, Some(FrameKind::Idr), Some(vec![1]), vec![2]));
        assert!(matches!(out, Err(TranscodeError::Decode)));
        assert_eq!(next, state);
        let record = AVCDecoderConfigurationRecord::new(0x42, 0x1f);
        let (out, next) = settle(
            state,
            H264Data::configuration(Bytes::new(), record),
            reply(None, false, None, None, vec![]),
        );
        assert!(matches!(out, Err(TranscodeError::Decode)));
        assert_eq!(next, state);
    }
}

#[test]
fn step_of_a_configuration_is_the_sequence_header() {
    for state in [TranscodeState::Created, SENT] {
        let mut record = AVCDecoderConfigurationRecord::new(0x42, 0x1f);
        record.add_sps(vec![0x67, 1]);
        let (out, next) = settle(
            state,
            H264Data::configuration(Bytes::from_static(&[9]), record),
            reply(Some((0, 0)), false, None, None, vec![]),
        );
        assert_eq!(
            data_of(out),
            (0, vec![0x17, 0, 0, 0, 0, 1, 0x42, 0, 0x1f, 0xff, 0xe1, 0, 2, 0x67, 1, 0])
        );
        assert_eq!(next, state);
    }
}

#[test]
fn step_of_a_picture_without_width_drops_it() {
    for state in [TranscodeState::Created, SENT] {
        let (out, next) =
            settle(state, unit(5), reply(Some((0, 240)), true, Some(FrameKind::P), None, vec![1]));
        assert!(matches!(out, Ok(None)));
        assert_eq!(next, state);
    }
}

#[test]
fn step_of_the_first_picture_needs_the_encoder() {
    let (out, next) = settle(
        TranscodeState::Created,
        unit(5),
        reply(Some((320, 240)), false, Some(FrameKind::Idr), Some(vec![1]), vec![]),
    );
    assert!(matches!(out, Err(TranscodeError::EncoderInit)));
    assert_eq!(next, TranscodeState::Created);

    let (out, next) = settle(
        TranscodeState::Created,
        unit(5),
        reply(Some((320, 240)), true, None, Some(vec![1]), vec![]),
    );
    assert!(matches!(out, Err(TranscodeError::Encode)));
    assert_eq!(next, TranscodeState::Created);

    let (out, next) = settle(
        TranscodeState::Created,
        unit(5),
        reply(Some((320, 240)), true, Some(FrameKind::Idr), None, vec![1, 2]),
    );
    assert!(matches!(out, Err(TranscodeError::MissingLayer)));
    assert_eq!(next, TranscodeState::Created);
}

#[test]
fn step_of_the_first_picture_sends_the_coded_layer_of_an_idr_frame() {
    let (out, next) = settle(
        TranscodeState::Created,
        unit(77),
        reply(Some((320, 240)), true, Some(FrameKind::Idr), Some(vec![0x65, 0x88]), vec![9, 9]),
    );
    assert_eq!(data_of(out), (77, vec![0x17, 1, 0, 0, 0, 0x65, 0x88]));
    assert_eq!(next, SENT);

    let (out, next) = settle(
        TranscodeState::Created,
        unit(78),
        reply(Some((64, 48)), true, Some(FrameKind::P), None, vec![9, 9]),
    );
    assert_eq!(data_of(out), (78, vec![0x27, 1, 0, 0, 0]));
    assert_eq!(next, TranscodeState::HeaderReceived { width: 64, height: 48 });

    let (out, next) = settle(
        TranscodeState::Created,
        unit(79),
        reply(Some((64, 48)), true, Some(FrameKind::I), Some(vec![5]), vec![9, 9]),
    );
    assert_eq!(data_of(out), (79, vec![0x17, 1, 0, 0, 0]));
    assert_eq!(next, TranscodeState::HeaderReceived { width: 64, height: 48 });
}

#[test]
fn step_of_a_frame_that_is_not_sent_changes_nothing() {
    for kind in [FrameKind::Skip, FrameKind::IpMixed, FrameKind::Invalid] {
        let (out, next) = settle(
            TranscodeState::Created,
            unit(5),
            reply(Some((320, 240)), true, Some(kind), Some(vec![1]), vec![2]),
        );
        assert!(matches!(out, Ok(None)));
        assert_eq!(next, TranscodeState::Created);
        let (out, next) =
            settle(SENT, unit(5), reply(Some((320, 240)), true, Some(kind), None, vec![2]));
        assert!(matches!(out, Ok(None)));
        assert_eq!(next, SENT);
    }
}

#[test]
fn step_of_a_later_picture_sends_all_its_units() {
    let (out, next) = settle(
        SENT,
        unit(120),
        reply(Some((320, 240)), false, Some(FrameKind::P), None, vec![0, 0, 0, 1, 0x41]),
    );
    assert_eq!(data_of(out), (120, vec![0x27, 1, 0, 0, 0, 0, 0, 0, 1, 0x41]));
    assert_eq!(next, SENT);

    let (out, next) = settle(
        SENT,
        unit(160),
        reply(Some((320, 240)), false, Some(FrameKind::Idr), Some(vec![1]), vec![0x65]),
    );
    assert_eq!(data_of(out), (160, vec![0x17, 1, 0, 0, 0, 0x65]));
    assert_eq!(next, SENT);

    let (out, next) = settle(SENT, unit(5), reply(Some((320, 240)), true, None, None, vec![1]));
    assert!(matches!(out, Err(TranscodeError::Encode)));
    assert_eq!(next, SENT);
}

#[test]
fn step_of_a_picture_of_another_size_is_an_error() {
    let (out, next) = settle(
        SENT,
        unit(5),
        reply(Some((640, 480)), true, Some(FrameKind::P), None, vec![1]),
    );
    assert!(matches!(out, Err(TranscodeError::ResolutionChanged)));
    assert_eq!(next, SENT);
}
