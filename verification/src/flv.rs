//! The framing of coded video as the payload of an RTMP video message.
//!
//! Every payload starts with one byte that holds the frame type in its high
//! half and the codec in its low half, and four bytes that hold the packet
//! type and the composition time. The sequence header, which carries the
//! decoder configuration record, has packet type 0; a coded frame has
//! packet type 1. The composition time is always 0.

use crate::h264::{record_bytes, AVCDecoderConfigurationRecord, RecordModel};
use vstd::prelude::*;

verus! {

/// The codec of every payload: AVC.
pub const CODEC_ID: u8 = 7;

/// The frame type of a key frame.
pub const KEY_FRAME: u8 = 1;

/// The frame type of an inter frame.
pub const INTER_FRAME: u8 = 2;

/// The first byte of a sequence header: a key frame of the codec.
pub const SEQUENCE_HEADER_TAG: u8 = 0x17;

/// The kind of frame that the encoder made.
#[derive(Debug, Clone, Copy, PartialEq, Eq, Structural)]
pub enum FrameKind {
    /// The encoder was not ready, or its parameters were invalid.
    Invalid,
    /// An IDR frame.
    Idr,
    /// An I frame.
    I,
    /// A P frame.
    P,
    /// The encoder skipped the frame.
    Skip,
    /// A frame of I and P slices.
    IpMixed,
}

/// The frame type that a payload declares for a frame of this kind; `None`
/// for the kinds that are not sent.
pub open spec fn frame_type_of(kind: FrameKind) -> Option<u8> {
    match kind {
        FrameKind::Idr => Some(KEY_FRAME),
        FrameKind::I => Some(KEY_FRAME),
        FrameKind::P => Some(INTER_FRAME),
        _ => None,
    }
}

/// The first byte of a payload: the frame type in the high half, the codec
/// in the low half.
pub open spec fn tag_byte(frame_type: u8) -> u8 {
    frame_type << 4 | CODEC_ID
}

/// The five bytes in front of a coded frame: the first byte, then packet
/// type 1 and composition time 0 as one number of four bytes, most
/// significant byte first.
pub open spec fn frame_header(frame_type: u8) -> Seq<u8> {
    seq![tag_byte(frame_type), 1, 0, 0, 0]
}

/// The sequence header of a stream: the first byte of a key frame, four
/// zero bytes, and the decoder configuration record.
pub open spec fn sequence_header_packet(record: RecordModel) -> Seq<u8> {
    seq![SEQUENCE_HEADER_TAG, 0, 0, 0, 0] + record_bytes(record)
}

/// The payload for a coded frame; `None` for a kind that is not sent.
pub open spec fn frame_packet(kind: FrameKind, coded: Seq<u8>) -> Option<Seq<u8>> {
    match frame_type_of(kind) {
        Some(frame_type) => Some(frame_header(frame_type) + coded),
        None => None,
    }
}

/// The payload for the first coded frame of a stream: behind the header
/// stand the NAL units of the coded layer if the frame is an IDR frame, and
/// nothing otherwise. `None` for a kind that is not sent.
pub open spec fn first_frame_packet(kind: FrameKind, layer: Seq<u8>) -> Option<Seq<u8>> {
    match frame_type_of(kind) {
        Some(frame_type) => Some(
            frame_header(frame_type) + (if kind == FrameKind::Idr {
                layer
            } else {
                Seq::empty()
            }),
        ),
        None => None,
    }
}

/// The two halves of the first byte, for the two frame types that are sent.
pub proof fn lemma_tag_byte_halves(frame_type: u8)
    by (bit_vector)
    requires
        frame_type == 1 || frame_type == 2,
    ensures
        (frame_type << 4 | 7u8) & 0x0F == 7,
        (frame_type << 4 | 7u8) >> 4 == frame_type,
        frame_type == 1 ==> (frame_type << 4 | 7u8) == 0x17,
        frame_type == 2 ==> (frame_type << 4 | 7u8) == 0x27,
{
}

/// Frame header invariants: whatever frame the encoder made, a payload goes
/// out only for an IDR, an I or a P frame; its first byte names the codec in
/// its low half, and in its high half a key frame for an IDR or I frame and
/// an inter frame for a P frame.
pub proof fn lemma_frame_header(kind: FrameKind, coded: Seq<u8>)
    ensures
        frame_packet(kind, coded).is_some() <==> (kind == FrameKind::Idr || kind == FrameKind::I
            || kind == FrameKind::P),
        frame_packet(kind, coded).is_some() == first_frame_packet(kind, coded).is_some(),
        match frame_packet(kind, coded) {
            Some(packet) => {
                &&& packet.len() == 5 + coded.len()
                &&& packet[0] & 0x0F == CODEC_ID
                &&& packet[0] >> 4 == (if kind == FrameKind::P {
                    INTER_FRAME
                } else {
                    KEY_FRAME
                })
                &&& packet.subrange(1, 5) == seq![1u8, 0, 0, 0]
                &&& packet.subrange(5, packet.len() as int) == coded
            },
            None => true,
        },
        match first_frame_packet(kind, coded) {
            Some(packet) => {
                &&& packet.len() >= 5
                &&& packet[0] & 0x0F == CODEC_ID
                &&& packet[0] >> 4 == (if kind == FrameKind::P {
                    INTER_FRAME
                } else {
                    KEY_FRAME
                })
                &&& packet.subrange(1, 5) == seq![1u8, 0, 0, 0]
            },
            None => true,
        },
{
    match frame_type_of(kind) {
        Some(frame_type) => {
            lemma_tag_byte_halves(frame_type);
            let packet = frame_packet(kind, coded).unwrap();
            assert(packet.subrange(1, 5) =~= seq![1u8, 0, 0, 0]);
            assert(packet.subrange(5, packet.len() as int) =~= coded);
            let first = first_frame_packet(kind, coded).unwrap();
            assert(first.subrange(1, 5) =~= seq![1u8, 0, 0, 0]);
        },
        None => {},
    }
}

/// Sequence header framing: the sequence header is five bytes longer than
/// the record and starts with `17 00 00 00 00`.
pub proof fn lemma_sequence_header(record: RecordModel)
    ensures
        sequence_header_packet(record).len() == 5 + record_bytes(record).len(),
        sequence_header_packet(record).subrange(0, 5) == seq![0x17u8, 0, 0, 0, 0],
        sequence_header_packet(record).subrange(5, 5 + record_bytes(record).len() as int)
            == record_bytes(record),
{
    let packet = sequence_header_packet(record);
    assert(packet.subrange(0, 5) =~= seq![0x17u8, 0, 0, 0, 0]);
    assert(packet.subrange(5, 5 + record_bytes(record).len() as int) =~= record_bytes(record));
}

/// The frame type that a payload declares for a frame of this kind.
pub fn frame_type(kind: FrameKind) -> (frame_type: Option<u8>)
    ensures
        frame_type == frame_type_of(kind),
{
    match kind {
        FrameKind::Idr => Some(KEY_FRAME),
        FrameKind::I => Some(KEY_FRAME),
        FrameKind::P => Some(INTER_FRAME),
        _ => None,
    }
}

/// The five bytes in front of a coded frame of the given frame type.
fn header(frame_type: u8) -> (packet: Vec<u8>)
    requires
        frame_type == KEY_FRAME || frame_type == INTER_FRAME,
    ensures
        packet@ == frame_header(frame_type),
{
    let mut packet: Vec<u8> = Vec::with_capacity(1024);
    packet.push(frame_type << 4 | CODEC_ID);
    packet.push(1);
    packet.push(0);
    packet.push(0);
    packet.push(0);
    assert(packet@ =~= frame_header(frame_type));
    packet
}

/// Frames the decoder configuration record as the sequence header of a
/// stream.
pub fn sequence_header(record: &AVCDecoderConfigurationRecord) -> (packet: Vec<u8>)
    ensures
        packet@ == sequence_header_packet(record@),
        packet@.len() == 5 + record_bytes(record@).len(),
        packet@.subrange(0, 5) == seq![0x17u8, 0, 0, 0, 0],
{
    let mut packet: Vec<u8> = Vec::new();
    packet.push(SEQUENCE_HEADER_TAG);
    packet.push(0);
    packet.push(0);
    packet.push(0);
    packet.push(0);
    assert(packet@ =~= seq![SEQUENCE_HEADER_TAG, 0, 0, 0, 0]);
    record.write_to(&mut packet);
    proof {
        lemma_sequence_header(record@);
    }
    packet
}

/// Frames a coded frame. Nothing comes back for a kind that is not sent.
pub fn frame(kind: FrameKind, coded: &[u8]) -> (packet: Option<Vec<u8>>)
    ensures
        match packet {
            Some(bytes) => frame_packet(kind, coded@) == Some(bytes@),
            None => frame_packet(kind, coded@).is_none(),
        },
{
    match frame_type(kind) {
        Some(frame_type) => {
            let mut packet = header(frame_type);
            packet.extend_from_slice(coded);
            Some(packet)
        },
        None => None,
    }
}

/// Frames the first coded frame of a stream. Nothing comes back for a kind
/// that is not sent.
pub fn first_frame(kind: FrameKind, layer: &[u8]) -> (packet: Option<Vec<u8>>)
    ensures
        match packet {
            Some(bytes) => first_frame_packet(kind, layer@) == Some(bytes@),
            None => first_frame_packet(kind, layer@).is_none(),
        },
{
    match frame_type(kind) {
        Some(frame_type) => {
            let mut packet = header(frame_type);
            if kind == FrameKind::Idr {
                packet.extend_from_slice(layer);
            } else {
                assert(packet@ =~= frame_header(frame_type) + Seq::<u8>::empty());
            }
            Some(packet)
        },
        None => None,
    }
}

} // verus!
