//! The RTMP handshake and client session of the `rml_rtmp` crate, as the
//! publish driver uses them.
//!
//! Both work on bytes alone: they take what the peer sent and give what is
//! to be sent. What they give depends on the time, on random numbers and on
//! everything they were given before, so the functions below claim nothing
//! of their results. The driver is verified for every answer.
//!
//! The session reads the chunk stream of the peer with subtractions that
//! are not checked, decodes messages in AMF by recursion, takes three
//! values from every command unasked, and counts the bytes between two
//! acknowledgements in 32 bits. It may therefore be given only inputs that
//! the reader of the chunk stream admits behind all that it was given
//! before: see [`input_admitted`].

use crate::buffer::bytes_view;
use crate::chunk::StreamModel;
use bytes::Bytes;
use rml_rtmp::handshake::{Handshake, HandshakeError, HandshakeProcessResult, PeerType};
use rml_rtmp::sessions::{
    ClientSession, ClientSessionConfig, ClientSessionError, ClientSessionEvent,
    ClientSessionResult, PublishRequestType, StreamMetadata,
};
use rml_rtmp::time::RtmpTimestamp;
use vstd::prelude::*;

verus! {

/// `rml_rtmp::handshake::Handshake`: the state of a handshake. Opaque to the
/// verifier.
#[verifier::external_type_specification]
#[verifier::external_body]
pub struct ExHandshake(Handshake);

/// `HandshakeError` of `rml_rtmp`: the library tells no two of them apart.
#[verifier::external_type_specification]
#[verifier::external_body]
pub struct ExHandshakeError(HandshakeError);

/// `rml_rtmp::sessions::ClientSession`: the state of a client session.
/// Opaque to the verifier.
#[verifier::external_type_specification]
#[verifier::external_body]
pub struct ExClientSession(ClientSession);

/// `ClientSessionResult` of `rml_rtmp`, whose variants [`classify`] tells
/// apart.
#[verifier::external_type_specification]
#[verifier::external_body]
pub struct ExClientSessionResult(ClientSessionResult);

/// `ClientSessionError` of `rml_rtmp`: the library tells no two of them
/// apart.
#[verifier::external_type_specification]
#[verifier::external_body]
pub struct ExClientSessionError(ClientSessionError);

/// How far the handshake has come after some bytes of the peer.
#[derive(Debug)]
pub enum HandshakeProgress {
    /// More bytes of the peer are needed.
    InProgress { response_bytes: Vec<u8> },
    /// The handshake is done; `remaining_bytes` came behind it.
    Completed { response_bytes: Vec<u8>, remaining_bytes: Vec<u8> },
}

/// One thing that a session hands out.
#[derive(Debug)]
pub enum SessionOutput {
    /// Bytes for the peer.
    Outbound(Vec<u8>),
    /// The server has accepted the connection request.
    ConnectionAccepted,
    /// The server has accepted the publish request.
    PublishAccepted,
    /// Another event.
    OtherEvent,
    /// A message that the session could not handle.
    Unhandleable,
}

/// The metadata that a stream announces.
#[derive(Debug)]
pub struct Metadata {
    pub encoder: String,
    pub video_width: u32,
    pub video_height: u32,
    pub video_codec_id: u32,
}

/// One message of video data: what is sent, and at which RTMP timestamp.
#[derive(Debug)]
pub struct VideoMessage {
    pub data: Bytes,
    pub timestamp: u32,
    pub can_be_dropped: bool,
}

/// The inputs of the peer that a session has been given, one after the
/// other.
pub uninterp spec fn session_input(session: ClientSession) -> Seq<Seq<u8>>;

/// The number of requests for a connection, for playback or for publishing
/// that a session has numbered.
pub uninterp spec fn session_requests(session: ClientSession) -> nat;

/// The number of requests that a session can number: it numbers them in 32
/// bits, from 1 on, and would stop behind the last number.
pub const MAX_REQUESTS: u32 = 0xFFFF_FFFE;

/// Whether a session that was given `history` may be given `bytes`: the
/// reader of the chunk stream, having read `history`, admits them.
pub open spec fn input_admitted(history: Seq<Seq<u8>>, bytes: Seq<u8>) -> bool {
    StreamModel::start().read_all(history).admits(bytes)
}

/// The side of a connection.
#[derive(Debug, Clone, Copy, PartialEq, Eq, Structural)]
pub enum PeerSide {
    Server,
    Client,
}

/// What a server is to do with a published stream.
#[derive(Debug, Clone, Copy, PartialEq, Eq, Structural)]
pub enum PublishKind {
    /// Send it out without recording it.
    Live,
    /// Record it to a new file.
    Record,
    /// Append it to a file.
    Append,
}

/// `Handshake::new`, for the given side.
#[verifier::external_body]
pub(crate) fn handshake_new(side: PeerSide) -> Handshake {
    Handshake::new(
        match side {
            PeerSide::Server => PeerType::Server,
            PeerSide::Client => PeerType::Client,
        },
    )
}

/// `Handshake::generate_outbound_p0_and_p1`: the first packets of the
/// client, which hold random bytes.
#[verifier::external_body]
pub(crate) fn handshake_generate(handshake: &mut Handshake) -> Result<Vec<u8>, HandshakeError> {
    handshake.generate_outbound_p0_and_p1()
}

/// `Handshake::process_bytes`, with its result in the library's own type.
#[verifier::external_body]
pub(crate) fn handshake_process(handshake: &mut Handshake, bytes: &[u8]) -> Result<
    HandshakeProgress,
    HandshakeError,
> {
    match handshake.process_bytes(bytes)? {
        HandshakeProcessResult::InProgress { response_bytes } => Ok(
            HandshakeProgress::InProgress { response_bytes },
        ),
        HandshakeProcessResult::Completed { response_bytes, remaining_bytes } => Ok(
            HandshakeProgress::Completed { response_bytes, remaining_bytes },
        ),
    }
}

/// `ClientSession::new`, on the default configuration with the given URL
/// of the target application. The new session has been given no bytes and
/// has numbered no request.
#[verifier::external_body]
pub(crate) fn session_new(tc_url: String) -> (made: Result<
    (ClientSession, Vec<ClientSessionResult>),
    ClientSessionError,
>)
    ensures
        match made {
            Ok(pair) => session_input(pair.0) == Seq::<Seq<u8>>::empty() && session_requests(
                pair.0,
            ) == 0,
            Err(_) => true,
        },
{
    let mut config = ClientSessionConfig::new();
    config.tc_url = Some(tc_url);
    ClientSession::new(config)
}

/// `ClientSession::handle_input`. The session stops
///
/// - where a chunk declares a message shorter than what is gathered of it,
/// - where an extended timestamp behind a delta is below `0xFFFFFF`,
/// - where a command in AMF (message types 17 and 20) holds fewer than the
///   three values that the session takes from it, and
/// - where its count of the bytes since the window of the peer was last
///   reached runs over;
///
/// and it decodes a message in AMF by a recursion as deep as the values of
/// the message are nested. The precondition keeps the four away and the
/// messages in AMF short. What the session hands out is not claimed.
#[verifier::external_body]
pub(crate) fn session_handle_input(session: &mut ClientSession, bytes: &[u8]) -> (results: Result<
    Vec<ClientSessionResult>,
    ClientSessionError,
>)
    requires
        input_admitted(session_input(*old(session)), bytes@),
    ensures
        session_input(*final(session)) == session_input(*old(session)).push(bytes@),
        session_requests(*final(session)) == session_requests(*old(session)),
{
    session.handle_input(bytes)
}

/// `ClientSession::request_connection`. The session numbers the request,
/// unless it refuses it, and would stop behind its last number. It is
/// given no bytes of the peer.
#[verifier::external_body]
pub(crate) fn session_request_connection(session: &mut ClientSession, app: String) -> (answer:
    Result<ClientSessionResult, ClientSessionError>)
    requires
        session_requests(*old(session)) < MAX_REQUESTS,
    ensures
        session_input(*final(session)) == session_input(*old(session)),
        session_requests(*final(session)) <= session_requests(*old(session)) + 1,
{
    session.request_connection(app)
}

/// `ClientSession::request_publishing`. The session numbers the request,
/// unless it refuses it, and would stop behind its last number. It is
/// given no bytes of the peer.
#[verifier::external_body]
pub(crate) fn session_request_publishing(
    session: &mut ClientSession,
    stream_key: String,
    kind: PublishKind,
) -> (answer: Result<ClientSessionResult, ClientSessionError>)
    requires
        session_requests(*old(session)) < MAX_REQUESTS,
    ensures
        session_input(*final(session)) == session_input(*old(session)),
        session_requests(*final(session)) <= session_requests(*old(session)) + 1,
{
    session.request_publishing(
        stream_key,
        match kind {
            PublishKind::Live => PublishRequestType::Live,
            PublishKind::Record => PublishRequestType::Record,
            PublishKind::Append => PublishRequestType::Append,
        },
    )
}

/// `ClientSession::publish_metadata`, on metadata that holds the encoder,
/// the size of the picture and the video codec and nothing else. The
/// session is given no bytes of the peer.
#[verifier::external_body]
pub(crate) fn session_publish_metadata(session: &mut ClientSession, announced: Metadata) -> (answer:
    Result<ClientSessionResult, ClientSessionError>)
    ensures
        session_input(*final(session)) == session_input(*old(session)),
        session_requests(*final(session)) == session_requests(*old(session)),
{
    let mut metadata = StreamMetadata::new();
    metadata.encoder = Some(announced.encoder);
    metadata.video_width = Some(announced.video_width);
    metadata.video_height = Some(announced.video_height);
    metadata.video_codec_id = Some(announced.video_codec_id);
    session.publish_metadata(&metadata)
}

/// `ClientSession::publish_video_data`, at `RtmpTimestamp::new` of the
/// timestamp of the message. What the session answers is decided by the
/// session and the message alone, and bears the name [`published_video`].
/// The session is given no bytes of the peer.
#[verifier::external_body]
pub(crate) fn session_publish_video(session: &mut ClientSession, message: VideoMessage) -> (answer:
    Result<ClientSessionResult, ClientSessionError>)
    ensures
        session_input(*final(session)) == session_input(*old(session)),
        session_requests(*final(session)) == session_requests(*old(session)),
        match answer {
            Ok(result) => published_video(
                *old(session),
                bytes_view(message.data),
                message.timestamp,
                message.can_be_dropped,
            ) == Some(session_output(result)),
            Err(_) => published_video(
                *old(session),
                bytes_view(message.data),
                message.timestamp,
                message.can_be_dropped,
            ).is_none(),
        },
{
    session.publish_video_data(
        message.data,
        RtmpTimestamp::new(message.timestamp),
        message.can_be_dropped,
    )
}

/// One thing that a session hands out, as a mathematical value.
pub enum SessionOutputModel {
    Outbound(Seq<u8>),
    ConnectionAccepted,
    PublishAccepted,
    OtherEvent,
    Unhandleable,
}

impl View for SessionOutput {
    type V = SessionOutputModel;

    open spec fn view(&self) -> SessionOutputModel {
        match *self {
            SessionOutput::Outbound(bytes) => SessionOutputModel::Outbound(bytes@),
            SessionOutput::ConnectionAccepted => SessionOutputModel::ConnectionAccepted,
            SessionOutput::PublishAccepted => SessionOutputModel::PublishAccepted,
            SessionOutput::OtherEvent => SessionOutputModel::OtherEvent,
            SessionOutput::Unhandleable => SessionOutputModel::Unhandleable,
        }
    }
}

/// What a result of the session is: a packet with its bytes, one of the two
/// acceptances, another event, or a message that could not be handled.
pub uninterp spec fn session_output(result: ClientSessionResult) -> SessionOutputModel;

/// What a session answers when it is to publish these bytes as video data
/// at this RTMP timestamp; `None` where it refuses.
pub uninterp spec fn published_video(
    session: ClientSession,
    data: Seq<u8>,
    timestamp: u32,
    can_be_dropped: bool,
) -> Option<SessionOutputModel>;

/// Tells the variants of a `ClientSessionResult` apart: what comes back is
/// what the result is. The bytes of an outbound packet are copied out of
/// it.
#[verifier::external_body]
pub(crate) fn classify(result: &ClientSessionResult) -> (output: SessionOutput)
    ensures
        output@ == session_output(*result),
{
    match result {
        ClientSessionResult::OutboundResponse(packet) => SessionOutput::Outbound(
            packet.bytes.clone(),
        ),
        ClientSessionResult::RaisedEvent(ClientSessionEvent::ConnectionRequestAccepted) => {
            SessionOutput::ConnectionAccepted
        },
        ClientSessionResult::RaisedEvent(ClientSessionEvent::PublishRequestAccepted) => {
            SessionOutput::PublishAccepted
        },
        ClientSessionResult::RaisedEvent(_) => SessionOutput::OtherEvent,
        ClientSessionResult::UnhandleableMessageReceived(_) => SessionOutput::Unhandleable,
    }
}

} // verus!
