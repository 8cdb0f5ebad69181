//! The transcoding stage: every unit is decoded to a picture, encoded
//! again, and framed as the payload of an RTMP video message.
//!
//! The decoder and the encoder are those of the `openh264` crate. What they
//! make of their input is not for this library to say: the functions that
//! call them are believed, not proved, and claim of the pictures and frames
//! no more than their sizes. The stage is verified for every answer.
//!
//! The encoder is made when the first picture has been decoded, for the
//! size of that picture. A later picture of another size is refused.

use crate::buffer::{bytes_as_slice, bytes_from_vec};
use crate::flv::{
    first_frame, first_frame_packet, frame, frame_packet, sequence_header,
    sequence_header_packet, FrameKind,
};
use crate::h264::{H264Data, UnitModel};
use openh264::decoder::{DecodedYUV, Decoder};
use openh264::encoder::{EncodedBitStream, Encoder, EncoderConfig, FrameType, Layer};
use openh264::formats::YUVSource;
use vstd::prelude::*;

verus! {

/// `openh264::decoder::Decoder`. Opaque to the verifier.
#[verifier::external_type_specification]
#[verifier::external_body]
pub struct ExDecoder(Decoder);

/// `openh264::decoder::DecodedYUV`: a decoded picture, which lives in the
/// decoder that made it. Opaque to the verifier.
#[verifier::external_type_specification]
#[verifier::external_body]
pub struct ExDecodedYUV<'a>(DecodedYUV<'a>);

/// `openh264::encoder::Encoder`. Opaque to the verifier.
#[verifier::external_type_specification]
#[verifier::external_body]
pub struct ExEncoder(Encoder);

/// `openh264::encoder::EncodedBitStream`: an encoded frame, which lives in
/// the encoder that made it. Opaque to the verifier.
#[verifier::external_type_specification]
#[verifier::external_body]
pub struct ExEncodedBitStream<'a>(EncodedBitStream<'a>);

/// `openh264::encoder::Layer`: one layer of an encoded frame. Opaque to the
/// verifier.
#[verifier::external_type_specification]
#[verifier::external_body]
pub struct ExLayer<'a>(Layer<'a>);

/// `openh264::Error`. Opaque to the verifier.
#[verifier::external_type_specification]
#[verifier::external_body]
pub struct ExCodecError(openh264::Error);

/// The width of a decoded picture.
pub uninterp spec fn picture_width(picture: DecodedYUV) -> i32;

/// The height of a decoded picture.
pub uninterp spec fn picture_height(picture: DecodedYUV) -> i32;

/// The width of the pictures that an encoder was made for.
pub uninterp spec fn encoder_width(encoder: Encoder) -> i32;

/// The height of the pictures that an encoder was made for.
pub uninterp spec fn encoder_height(encoder: Encoder) -> i32;

/// The layers of an encoded frame, in order, each with the NAL units that
/// it holds.
pub uninterp spec fn stream_layers(stream: EncodedBitStream) -> Seq<Seq<Seq<u8>>>;

/// The NAL units that a layer of an encoded frame holds, in order.
pub uninterp spec fn layer_units(layer: Layer) -> Seq<Seq<u8>>;

/// The number of layers that an encoded frame has room for.
pub const MAX_LAYERS: usize = 128;

/// `Decoder::new`.
#[verifier::external_body]
fn decoder_new() -> Result<Decoder, openh264::Error> {
    Decoder::new()
}

/// `Decoder::decode`.
#[verifier::external_body]
fn decode_unit<'a>(decoder: &'a mut Decoder, packet: &[u8]) -> Result<
    DecodedYUV<'a>,
    openh264::Error,
> {
    decoder.decode(packet)
}

/// `<DecodedYUV as YUVSource>::width`.
#[verifier::external_body]
fn width(picture: &DecodedYUV) -> (width: i32)
    ensures
        width == picture_width(*picture),
{
    picture.width()
}

/// `<DecodedYUV as YUVSource>::height`.
#[verifier::external_body]
fn height(picture: &DecodedYUV) -> (height: i32)
    ensures
        height == picture_height(*picture),
{
    picture.height()
}

/// `Encoder::with_config`, on the default configuration for pictures of the
/// given size. The encoder keeps the size as it was given.
#[verifier::external_body]
fn encoder_new(width: i32, height: i32) -> (encoder: Result<Encoder, openh264::Error>)
    ensures
        match encoder {
            Ok(made) => encoder_width(made) == width && encoder_height(made) == height,
            Err(_) => true,
        },
{
    Encoder::with_config(EncoderConfig::new(width as u32, height as u32))
}

/// `Encoder::encode`. It stops on a picture of another size than the
/// encoder was made for, which the precondition keeps away; it leaves the
/// size of the encoder as it was.
#[verifier::external_body]
fn encode<'a>(encoder: &'a mut Encoder, picture: &DecodedYUV) -> (stream: Result<
    EncodedBitStream<'a>,
    openh264::Error,
>)
    requires
        picture_width(*picture) == encoder_width(*old(encoder)),
        picture_height(*picture) == encoder_height(*old(encoder)),
    ensures
        encoder_width(*final(encoder)) == encoder_width(*old(encoder)),
        encoder_height(*final(encoder)) == encoder_height(*old(encoder)),
{
    encoder.encode(picture)
}

/// `EncodedBitStream::frame_type`, in the library's own type.
#[verifier::external_body]
fn frame_kind(stream: &EncodedBitStream) -> FrameKind {
    match stream.frame_type() {
        FrameType::Invalid => FrameKind::Invalid,
        FrameType::IDR => FrameKind::Idr,
        FrameType::I => FrameKind::I,
        FrameType::P => FrameKind::P,
        FrameType::Skip => FrameKind::Skip,
        FrameType::IPMixed => FrameKind::IpMixed,
    }
}

/// `EncodedBitStream::to_vec`: the NAL units of all layers, one after the
/// other.
#[verifier::external_body]
fn stream_to_vec(stream: &EncodedBitStream) -> (bytes: Vec<u8>)
    ensures
        bytes@ == joined_layers(stream_layers(*stream)),
{
    stream.to_vec()
}

/// `EncodedBitStream::layer`: the layer at `index`, if the frame has that
/// many layers. The index must lie in the room that a frame has for its
/// layers, which the layer is taken from.
#[verifier::external_body]
fn stream_layer<'a>(stream: &EncodedBitStream<'a>, index: usize) -> (layer: Option<Layer<'a>>)
    requires
        index < MAX_LAYERS,
    ensures
        match layer {
            Some(found) => index < stream_layers(*stream).len() && layer_units(found)
                == stream_layers(*stream)[index as int],
            None => index >= stream_layers(*stream).len(),
        },
{
    stream.layer(index)
}

/// `Layer::nal_count`: the number of NAL units that the layer holds.
#[verifier::external_body]
fn layer_nal_count(layer: &Layer) -> (count: usize)
    ensures
        count == layer_units(*layer).len(),
{
    layer.nal_count()
}

/// `Layer::nal_unit`: the NAL unit at `index`, if the layer holds that many.
#[verifier::external_body]
fn layer_nal_unit<'a>(layer: &'a Layer, index: usize) -> (unit: Option<&'a [u8]>)
    ensures
        match unit {
            Some(nal) => index < layer_units(*layer).len() && nal@ == layer_units(
                *layer,
            )[index as int],
            None => index >= layer_units(*layer).len(),
        },
{
    layer.nal_unit(index)
}

/// The layer of an IDR frame whose NAL units stand in the first payload.
pub const CODED_LAYER: usize = 1;

/// Why the stage gives up.
#[derive(Debug, Clone, Copy, PartialEq, Eq, Structural)]
pub enum TranscodeError {
    /// The decoder could not be made.
    DecoderInit,
    /// The decoder refused a unit.
    Decode,
    /// The encoder could not be made.
    EncoderInit,
    /// The encoder refused a picture.
    Encode,
    /// A picture has another size than the encoder was made for.
    ResolutionChanged,
    /// An IDR frame lacks the coded layer, or one of its NAL units.
    MissingLayer,
}

/// Where the stage stands.
#[derive(Debug, Clone, Copy, PartialEq, Eq, Structural)]
pub enum TranscodeState {
    /// No picture has been decoded; there is no encoder.
    Created,
    /// The first frame has gone out; the encoder is made for pictures of
    /// this size.
    HeaderReceived { width: i32, height: i32 },
}

/// What the decoder and the encoder make of one unit, as far as each of
/// them is asked.
pub struct CodecAnswer {
    /// The size of the decoded picture; `None` if the decoder refused.
    pub decoded: Option<(i32, i32)>,
    /// Whether the encoder could be made.
    pub encoder_made: bool,
    /// The kind of the encoded frame; `None` if the encoder refused.
    pub encoded: Option<FrameKind>,
    /// The NAL units of the coded layer; `None` if one is missing.
    pub layer: Option<Seq<u8>>,
    /// The NAL units of all layers.
    pub coded: Seq<u8>,
}

/// What the first picture of a stream leads to.
pub open spec fn first_picture(
    timestamp: u32,
    size: (i32, i32),
    answer: CodecAnswer,
) -> (Result<Option<UnitModel>, TranscodeError>, TranscodeState) {
    if !answer.encoder_made {
        (Err(TranscodeError::EncoderInit), TranscodeState::Created)
    } else {
        match answer.encoded {
            None => (Err(TranscodeError::Encode), TranscodeState::Created),
            Some(kind) => if kind == FrameKind::Idr && answer.layer.is_none() {
                (Err(TranscodeError::MissingLayer), TranscodeState::Created)
            } else {
                let layer = match answer.layer {
                    Some(bytes) => bytes,
                    None => Seq::empty(),
                };
                match first_frame_packet(kind, layer) {
                    None => (Ok(None), TranscodeState::Created),
                    Some(data) => (
                        Ok(Some(UnitModel::Data { timestamp, data })),
                        TranscodeState::HeaderReceived { width: size.0, height: size.1 },
                    ),
                }
            },
        }
    }
}

/// What a later picture of a stream leads to.
pub open spec fn later_picture(state: TranscodeState, timestamp: u32, answer: CodecAnswer) -> (
    Result<Option<UnitModel>, TranscodeError>,
    TranscodeState,
) {
    match answer.encoded {
        None => (Err(TranscodeError::Encode), state),
        Some(kind) => match frame_packet(kind, answer.coded) {
            None => (Ok(None), state),
            Some(data) => (Ok(Some(UnitModel::Data { timestamp, data })), state),
        },
    }
}

/// What is done with a decoded picture.
#[derive(Debug, Clone, Copy, PartialEq, Eq, Structural)]
pub enum PicturePlan {
    /// Its width is 0: there is no picture yet, and nothing goes out.
    Drop,
    /// It is the first picture: the encoder is made for its size.
    First,
    /// It has the size that the encoder was made for, and is encoded.
    Later,
    /// It has another size than the encoder was made for.
    Refuse,
}

/// What is done with a decoded picture of the given size in a given state.
pub open spec fn picture_planned(state: TranscodeState, size: (i32, i32)) -> PicturePlan {
    if size.0 == 0 {
        PicturePlan::Drop
    } else {
        match state {
            TranscodeState::Created => PicturePlan::First,
            TranscodeState::HeaderReceived { width, height } => if width == size.0 && height
                == size.1 {
                PicturePlan::Later
            } else {
                PicturePlan::Refuse
            },
        }
    }
}

/// One step of the stage: what a unit leads to, and the state after it.
///
/// A configuration is decoded, and its record goes out as the sequence
/// header, at timestamp 0. Coded data is decoded; a picture of width 0 is
/// not yet one and is dropped. The first picture makes the encoder; every
/// picture is encoded, and what the encoder made goes out framed, at the
/// timestamp of the unit, unless it is of a kind that is not sent. A
/// picture of another size than the encoder was made for is an error.
pub open spec fn transcoded(state: TranscodeState, unit: UnitModel, answer: CodecAnswer) -> (
    Result<Option<UnitModel>, TranscodeError>,
    TranscodeState,
) {
    match answer.decoded {
        None => (Err(TranscodeError::Decode), state),
        Some(size) => match unit {
            UnitModel::Configuration { record, .. } => (
                Ok(
                    Some(
                        UnitModel::Data { timestamp: 0, data: sequence_header_packet(record) },
                    ),
                ),
                state,
            ),
            UnitModel::Data { timestamp, .. } => match picture_planned(state, size) {
                PicturePlan::Drop => (Ok(None), state),
                PicturePlan::First => first_picture(timestamp, size, answer),
                PicturePlan::Later => later_picture(state, timestamp, answer),
                PicturePlan::Refuse => (Err(TranscodeError::ResolutionChanged), state),
            },
        },
    }
}

/// The encoder is made once: whatever the decoder and the encoder make of a
/// unit, the state changes only with the first frame that goes out, from
/// `Created` to `HeaderReceived` with the size of the decoded picture, and
/// it never changes after that.
pub proof fn lemma_encoder_is_made_once(state: TranscodeState, unit: UnitModel, answer: CodecAnswer)
    ensures
        state is HeaderReceived ==> transcoded(state, unit, answer).1 == state,
        transcoded(state, unit, answer).1 != state ==> {
            &&& state == TranscodeState::Created
            &&& unit is Data
            &&& answer.decoded.is_some()
            &&& transcoded(state, unit, answer).1 == (TranscodeState::HeaderReceived {
                width: answer.decoded.unwrap().0,
                height: answer.decoded.unwrap().1,
            })
            &&& transcoded(state, unit, answer).0 matches Ok(Some(sent))
            &&& sent is Data
        },
        transcoded(state, unit, answer).0 matches Ok(Some(sent)) ==> sent is Data
            && sent.timestamp() == unit.timestamp(),
{
}

/// What is done with a decoded picture of the given size in a given state.
pub fn plan_picture(state: TranscodeState, width: i32, height: i32) -> (plan: PicturePlan)
    ensures
        plan == picture_planned(state, (width, height)),
{
    if width == 0 {
        PicturePlan::Drop
    } else {
        match state {
            TranscodeState::Created => PicturePlan::First,
            TranscodeState::HeaderReceived { width: made_width, height: made_height } => {
                if made_width == width && made_height == height {
                    PicturePlan::Later
                } else {
                    PicturePlan::Refuse
                }
            },
        }
    }
}

/// What a step hands out, as a mathematical value.
pub open spec fn outcome_model(out: Result<Option<H264Data>, TranscodeError>) -> Result<
    Option<UnitModel>,
    TranscodeError,
> {
    match out {
        Ok(Some(unit)) => Ok(Some(unit@)),
        Ok(None) => Ok(None),
        Err(e) => Err(e),
    }
}

/// The NAL units of a layer, as a mathematical value.
pub open spec fn layer_model(layer: Option<Vec<u8>>) -> Option<Seq<u8>> {
    match layer {
        Some(bytes) => Some(bytes@),
        None => None,
    }
}

/// The NAL units of one layer of an encoded frame, one after the other.
/// Nothing comes back if the frame has no layer at `index`.
fn collect_layer(stream: &EncodedBitStream, index: usize) -> (layer: Option<Vec<u8>>)
    requires
        index < MAX_LAYERS,
    ensures
        match layer {
            Some(bytes) => index < stream_layers(*stream).len() && bytes@ == joined(
                stream_layers(*stream)[index as int],
            ),
            None => index >= stream_layers(*stream).len(),
        },
{
    let layer = match stream_layer(stream, index) {
        Some(layer) => layer,
        None => {
            return None;
        },
    };
    let ghost units = layer_units(layer);
    let count: usize = layer_nal_count(&layer);
    let mut bytes: Vec<u8> = Vec::new();
    let mut n: usize = 0;
    assert(bytes@ =~= joined(units.take(0)));
    while n < count
        invariant
            n <= count,
            count == units.len(),
            units == layer_units(layer),
            bytes@ == joined(units.take(n as int)),
        decreases count - n,
    {
        match layer_nal_unit(&layer, n) {
            Some(nal) => {
                bytes.extend_from_slice(nal);
                assert(units.take(n + 1).drop_last() =~= units.take(n as int));
            },
            None => {
                return None;
            },
        }
        n = n + 1;
    }
    assert(units.take(n as int) =~= units);
    Some(bytes)
}

/// The NAL units of a layer, one after the other.
pub open spec fn joined(units: Seq<Seq<u8>>) -> Seq<u8>
    decreases units.len(),
{
    if units.len() == 0 {
        Seq::empty()
    } else {
        joined(units.drop_last()) + units.last()
    }
}

/// The NAL units of all layers, one after the other.
pub open spec fn joined_layers(layers: Seq<Seq<Seq<u8>>>) -> Seq<u8>
    decreases layers.len(),
{
    if layers.len() == 0 {
        Seq::empty()
    } else {
        joined_layers(layers.drop_last()) + joined(layers.last())
    }
}

/// What the decoder and the encoder made of one unit, as far as each of
/// them was asked.
#[derive(Debug)]
pub struct CodecReply {
    /// The size of the decoded picture; `None` if the decoder refused.
    pub decoded: Option<(i32, i32)>,
    /// Whether the encoder could be made.
    pub encoder_made: bool,
    /// The kind of the encoded frame; `None` if the encoder refused.
    pub encoded: Option<FrameKind>,
    /// The NAL units of the coded layer; `None` if the frame has no such
    /// layer.
    pub layer: Option<Vec<u8>>,
    /// The NAL units of all layers.
    pub coded: Vec<u8>,
}

impl View for CodecReply {
    type V = CodecAnswer;

    open spec fn view(&self) -> CodecAnswer {
        CodecAnswer {
            decoded: self.decoded,
            encoder_made: self.encoder_made,
            encoded: self.encoded,
            layer: layer_model(self.layer),
            coded: self.coded@,
        }
    }
}

/// One step of the stage on plain values: what a unit leads to, and the
/// state after it, given what the decoder and the encoder made of the
/// unit. Of the reply only that is looked at which the step asks for.
pub fn settle(state: TranscodeState, unit: H264Data, reply: CodecReply) -> (step: (
    Result<Option<H264Data>, TranscodeError>,
    TranscodeState,
))
    ensures
        (outcome_model(step.0), step.1) == transcoded(state, unit@, reply@),
{
    let size = match reply.decoded {
        Some(size) => size,
        None => {
            return (Err(TranscodeError::Decode), state);
        },
    };
    match unit {
        H264Data::Configuration { record, .. } => (
            Ok(Some(H264Data::new(0, bytes_from_vec(sequence_header(&record))))),
            state,
        ),
        H264Data::Data { timestamp, .. } => match plan_picture(state, size.0, size.1) {
            PicturePlan::Drop => (Ok(None), state),
            PicturePlan::Refuse => (Err(TranscodeError::ResolutionChanged), state),
            PicturePlan::First => {
                if !reply.encoder_made {
                    return (Err(TranscodeError::EncoderInit), TranscodeState::Created);
                }
                let kind = match reply.encoded {
                    Some(kind) => kind,
                    None => {
                        return (Err(TranscodeError::Encode), TranscodeState::Created);
                    },
                };
                let layer = match reply.layer {
                    Some(bytes) => bytes,
                    None => {
                        if kind == FrameKind::Idr {
                            return (Err(TranscodeError::MissingLayer), TranscodeState::Created);
                        }
                        Vec::new()
                    },
                };
                match first_frame(kind, layer.as_slice()) {
                    None => (Ok(None), TranscodeState::Created),
                    Some(packet) => (
                        Ok(Some(H264Data::new(timestamp, bytes_from_vec(packet)))),
                        TranscodeState::HeaderReceived { width: size.0, height: size.1 },
                    ),
                }
            },
            PicturePlan::Later => {
                let kind = match reply.encoded {
                    Some(kind) => kind,
                    None => {
                        return (Err(TranscodeError::Encode), state);
                    },
                };
                match frame(kind, reply.coded.as_slice()) {
                    None => (Ok(None), state),
                    Some(packet) => (
                        Ok(Some(H264Data::new(timestamp, bytes_from_vec(packet)))),
                        state,
                    ),
                }
            },
        },
    }
}

/// The encoder of a stream, once it is made.
enum State {
    Created,
    HeaderReceived { encoder: Encoder, width: i32, height: i32 },
}

impl State {
    spec fn model(self) -> TranscodeState {
        match self {
            State::Created => TranscodeState::Created,
            State::HeaderReceived { width, height, .. } => TranscodeState::HeaderReceived {
                width,
                height,
            },
        }
    }

    /// The encoder is made for the size that the state names.
    #[verifier::type_invariant]
    spec fn inv(self) -> bool {
        match self {
            State::Created => true,
            State::HeaderReceived { encoder, width, height } => encoder_width(encoder) == width
                && encoder_height(encoder) == height,
        }
    }
}

/// The transcoding stage of one stream.
pub struct Transcoder {
    decoder: Decoder,
    state: State,
}

impl Transcoder {
    /// Where the stage stands.
    pub closed spec fn state(self) -> TranscodeState {
        self.state.model()
    }

    /// A stage with a new decoder and no encoder.
    pub fn new() -> (made: Result<Self, TranscodeError>)
        ensures
            match made {
                Ok(transcoder) => transcoder.state() == TranscodeState::Created,
                Err(e) => e == TranscodeError::DecoderInit,
            },
    {
        match decoder_new() {
            Ok(decoder) => Ok(Transcoder { decoder, state: State::Created }),
            Err(_) => Err(TranscodeError::DecoderInit),
        }
    }

    /// Where the stage stands.
    pub fn current_state(&self) -> (state: TranscodeState)
        ensures
            state == self.state(),
    {
        match &self.state {
            State::Created => TranscodeState::Created,
            State::HeaderReceived { width, height, .. } => TranscodeState::HeaderReceived {
                width: *width,
                height: *height,
            },
        }
    }

    /// Takes one unit. The decoder and the encoder are asked as far as the
    /// step needs them, and what comes back is the step that [`settle`]
    /// makes of their answers.
    pub fn process(&mut self, unit: H264Data) -> (out: Result<Option<H264Data>, TranscodeError>)
        ensures
            exists|answer: CodecAnswer|
                (outcome_model(out), final(self).state()) == transcoded(
                    old(self).state(),
                    unit@,
                    answer,
                ),
    {
        let current = self.current_state();
        let is_data = match &unit {
            H264Data::Data { .. } => true,
            H264Data::Configuration { .. } => false,
        };
        let mut reply = CodecReply {
            decoded: None,
            encoder_made: false,
            encoded: None,
            layer: None,
            coded: Vec::new(),
        };
        let mut made: Option<Encoder> = None;
        match decode_unit(&mut self.decoder, bytes_as_slice(unit.data())) {
            Err(_) => {},
            Ok(picture) => {
                let picture_width: i32 = width(&picture);
                let picture_height: i32 = height(&picture);
                reply.decoded = Some((picture_width, picture_height));
                if is_data {
                    match plan_picture(current, picture_width, picture_height) {
                        PicturePlan::First => {
                            match encoder_new(picture_width, picture_height) {
                                Err(_) => {},
                                Ok(mut encoder) => {
                                    reply.encoder_made = true;
                                    match encode(&mut encoder, &picture) {
                                        Err(_) => {},
                                        Ok(stream) => {
                                            let kind = frame_kind(&stream);
                                            reply.encoded = Some(kind);
                                            if kind == FrameKind::Idr {
                                                reply.layer = collect_layer(&stream, CODED_LAYER);
                                            }
                                        },
                                    }
                                    made = Some(encoder);
                                },
                            }
                        },
                        PicturePlan::Later => {
                            let mut state = State::Created;
                            core::mem::swap(&mut self.state, &mut state);
                            proof {
                                use_type_invariant(&state);
                            }
                            match state {
                                State::HeaderReceived { mut encoder, width, height } => {
                                    match encode(&mut encoder, &picture) {
                                        Err(_) => {},
                                        Ok(stream) => {
                                            reply.encoded = Some(frame_kind(&stream));
                                            reply.coded = stream_to_vec(&stream);
                                        },
                                    }
                                    self.state = State::HeaderReceived { encoder, width, height };
                                },
                                State::Created => {},
                            }
                        },
                        _ => {},
                    }
                }
            },
        }
        let ghost answer = reply@;
        let (out, next) = settle(current, unit, reply);
        match (made, next) {
            (Some(encoder), TranscodeState::HeaderReceived { width, height }) => {
                self.state = State::HeaderReceived { encoder, width, height };
            },
            _ => {},
        }
        assert((outcome_model(out), self.state()) == transcoded(old(self).state(), unit@, answer));
        out
    }
}

} // verus!
