//! The driver of an RTMP publishing session.
//!
//! The driver does no I/O. Its owner reads the socket, the command queue
//! and the stream of units, hands each thing that arrives to the driver,
//! and performs the actions that come back, in order. The session goes
//! through its states in one direction only:
//!
//! ```text
//! Created -> Handshaking -> Connected -> PublishRequested -> Publishing
//! ```
//!
//! and from each of them to `Closed`, on the first thing that goes wrong.
//!
//! In front of the session stands a reader of the chunk stream of the
//! peer. Bytes on which the session would stop are not given to it: they
//! close the session, as bytes do that the session refuses.

use crate::buffer::bytes_view;
use crate::chunk::{ChunkMonitor, StreamModel};
use crate::h264::{H264Data, UnitModel};
use crate::session::{
    classify, handshake_generate, handshake_new, handshake_process, published_video,
    session_handle_input, session_input, session_new, session_output, session_publish_metadata,
    session_publish_video, session_request_connection, session_request_publishing,
    session_requests, HandshakeProgress, Metadata, PeerSide, PublishKind, SessionOutput,
    SessionOutputModel, VideoMessage, MAX_REQUESTS,
};
use crate::timestamp::{AlignerModel, TimestampAligner};
use rml_rtmp::handshake::Handshake;
use rml_rtmp::sessions::{ClientSession, ClientSessionError, ClientSessionResult};
use vstd::prelude::*;

verus! {

/// The URL of the target application that the session announces.
pub const TC_URL: &'static str = "rtmp://localhost/live";

/// The name of the stream that is published.
pub const STREAM_KEY: &'static str = "gengteng";

/// What the server is asked to do with the stream: send it out live.
pub const PUBLISH_KIND: PublishKind = PublishKind::Live;

/// The encoder that the metadata of the stream names.
pub const ENCODER_TAG: &'static str = "rtc2rtmp/0.1.0";

/// The width of the picture that the metadata of the stream names.
pub const VIDEO_WIDTH: u32 = 320;

/// The height of the picture that the metadata of the stream names.
pub const VIDEO_HEIGHT: u32 = 240;

/// The video codec that the metadata of the stream names: AVC.
pub const VIDEO_CODEC_ID: u32 = 7;

/// What the owner of a connection can ask of it.
#[derive(Debug)]
pub enum Command {
    /// Connect to this application of the server and publish.
    Publish { app: String },
}

impl Clone for Command {
    fn clone(&self) -> (command: Self)
        ensures
            match (*self, command) {
                (Command::Publish { app: before }, Command::Publish { app: after }) => after@
                    == before@,
            },
    {
        match self {
            Command::Publish { app } => Command::Publish { app: app.clone() },
        }
    }
}

/// Where a publishing session stands.
#[derive(Debug, Clone, Copy, PartialEq, Eq, Structural)]
pub enum RtmpPublishState {
    /// Nothing has been sent.
    Created,
    /// The handshake has begun.
    Handshaking,
    /// The handshake is done and the session is set up.
    Connected,
    /// The server has accepted the connection, and publishing is requested.
    PublishRequested,
    /// The server has accepted the publish request; units go out.
    Publishing,
    /// The session is over.
    Closed,
}

/// Why a session is closed.
#[derive(Debug, Clone, Copy, PartialEq, Eq, Structural)]
pub enum PublishError {
    /// The session was not in the state for what it was given.
    InvalidState,
    /// The handshake failed.
    Handshake,
    /// The session refused its input or a request.
    Session,
    /// The session answered a request with something that is no packet.
    NotOutbound,
    /// The server accepted what had not been asked of it.
    UnexpectedEvent,
}

/// What the owner of the socket is to do.
#[derive(Debug, PartialEq, Eq)]
pub enum Action {
    /// Write these bytes to the socket.
    Write(Vec<u8>),
    /// Flush the socket.
    Flush,
    /// Hand every unit of the stream to the driver, until the stream ends.
    PublishUnits,
}

/// What came of one thing that the driver was given: the actions to
/// perform, in order, and, if the session is closed by it, why. The actions
/// in front of a failure are still to be performed.
#[derive(Debug)]
pub struct Reactions {
    pub actions: Vec<Action>,
    pub failure: Option<PublishError>,
}

/// The state that a session comes to, with the actions and the failure on
/// the way there.
pub struct Progress {
    pub state: RtmpPublishState,
    pub actions: Seq<Action>,
    pub failure: Option<PublishError>,
}

/// The progress that the state after a call and its reactions stand for.
pub open spec fn progress_of(state: RtmpPublishState, reactions: Reactions) -> Progress {
    Progress { state, actions: reactions.actions@, failure: reactions.failure }
}

/// The session is closed after these actions.
pub open spec fn failed(actions: Seq<Action>, error: PublishError) -> Progress {
    Progress { state: RtmpPublishState::Closed, actions, failure: Some(error) }
}

/// The session goes on in `state` after these actions.
pub open spec fn proceeds(state: RtmpPublishState, actions: Seq<Action>) -> Progress {
    Progress { state, actions, failure: None }
}

/// The packet that the session answered a request with. `None` stands for
/// a request that the session refused.
pub open spec fn outbound(reply: Option<SessionOutput>) -> Result<Vec<u8>, PublishError> {
    match reply {
        None => Err(PublishError::Session),
        Some(SessionOutput::Outbound(bytes)) => Ok(bytes),
        Some(_) => Err(PublishError::NotOutbound),
    }
}

/// The packet that the session answered a request with; an answer that is
/// no packet is an error.
pub fn outbound_packet(reply: Option<SessionOutput>) -> (packet: Result<Vec<u8>, PublishError>)
    ensures
        packet == outbound(reply),
{
    match reply {
        None => Err(PublishError::Session),
        Some(SessionOutput::Outbound(bytes)) => Ok(bytes),
        Some(_) => Err(PublishError::NotOutbound),
    }
}

/// What the answer of the session to a request leads to, where the answer
/// must be a packet and the session goes on in `state`: the packet is
/// written and flushed; any other answer closes the session.
pub open spec fn sent(state: RtmpPublishState, reply: Option<SessionOutput>) -> Progress {
    match outbound(reply) {
        Ok(bytes) => proceeds(state, seq![Action::Write(bytes), Action::Flush]),
        Err(e) => failed(Seq::empty(), e),
    }
}

/// What the answer of the session to a connection request leads to: a
/// packet is written and flushed, another answer is passed over, and a
/// refusal closes the session.
pub open spec fn connection_requested(reply: Option<SessionOutput>) -> Progress {
    match reply {
        None => failed(Seq::empty(), PublishError::Session),
        Some(SessionOutput::Outbound(bytes)) => proceeds(
            RtmpPublishState::Connected,
            seq![Action::Write(bytes), Action::Flush],
        ),
        Some(_) => proceeds(RtmpPublishState::Connected, Seq::empty()),
    }
}

/// What an output of the session makes the driver ask of the session.
#[derive(Debug, Clone, Copy, PartialEq, Eq, Structural)]
pub enum Request {
    /// Nothing.
    Nothing,
    /// To publish the stream.
    Publishing,
    /// To send the metadata of the stream.
    Metadata,
}

/// The request that an output of the session calls for in a given state.
pub open spec fn request_for(state: RtmpPublishState, output: SessionOutput) -> Request {
    match output {
        SessionOutput::ConnectionAccepted => if state == RtmpPublishState::Connected {
            Request::Publishing
        } else {
            Request::Nothing
        },
        SessionOutput::PublishAccepted => if state == RtmpPublishState::PublishRequested {
            Request::Metadata
        } else {
            Request::Nothing
        },
        _ => Request::Nothing,
    }
}

/// What one output of the session leads to in a given state. `reply` is the
/// answer of the session to the request that the output calls for.
///
/// A packet is written. The acceptance of the connection is answered with
/// the request to publish, the acceptance of that request with the metadata
/// of the stream, after which the units are published. An acceptance that
/// the state does not wait for closes the session. Everything else is
/// passed over.
pub open spec fn handle_output(
    state: RtmpPublishState,
    output: SessionOutput,
    reply: Option<SessionOutput>,
) -> Progress {
    match output {
        SessionOutput::Outbound(bytes) => proceeds(state, seq![Action::Write(bytes)]),
        SessionOutput::ConnectionAccepted => if state != RtmpPublishState::Connected {
            failed(Seq::empty(), PublishError::UnexpectedEvent)
        } else {
            sent(RtmpPublishState::PublishRequested, reply)
        },
        SessionOutput::PublishAccepted => if state != RtmpPublishState::PublishRequested {
            failed(Seq::empty(), PublishError::UnexpectedEvent)
        } else {
            let announced = sent(RtmpPublishState::Publishing, reply);
            if announced.failure.is_some() {
                announced
            } else {
                Progress { actions: announced.actions.push(Action::PublishUnits), ..announced }
            }
        },
        SessionOutput::OtherEvent => proceeds(state, Seq::empty()),
        SessionOutput::Unhandleable => proceeds(state, Seq::empty()),
    }
}

/// What the outputs of the session lead to, one after the other, up to the
/// first that closes the session. `replies` holds, for each output, the
/// answer of the session to the request that the output calls for.
pub open spec fn handle_outputs(
    state: RtmpPublishState,
    outputs: Seq<SessionOutput>,
    replies: Seq<Option<SessionOutput>>,
) -> Progress
    decreases outputs.len(),
{
    if outputs.len() == 0 {
        proceeds(state, Seq::empty())
    } else {
        let before = handle_outputs(state, outputs.drop_last(), replies.drop_last());
        if before.failure.is_some() {
            before
        } else {
            let last = handle_output(before.state, outputs.last(), replies.last());
            Progress {
                state: last.state,
                actions: before.actions + last.actions,
                failure: last.failure,
            }
        }
    }
}

/// The place of a state in the order in which a session goes through its
/// states.
pub open spec fn rank(state: RtmpPublishState) -> nat {
    match state {
        RtmpPublishState::Created => 0,
        RtmpPublishState::Handshaking => 1,
        RtmpPublishState::Connected => 2,
        RtmpPublishState::PublishRequested => 3,
        RtmpPublishState::Publishing => 4,
        RtmpPublishState::Closed => 5,
    }
}

/// The states in which bytes of the peer go to the session.
pub open spec fn accepts_input(state: RtmpPublishState) -> bool {
    state == RtmpPublishState::Connected || state == RtmpPublishState::PublishRequested || state
        == RtmpPublishState::Publishing
}

/// What bytes of the peer lead to. `answer` holds what the session made of
/// them (`None`: it refused them). If the session made anything of them,
/// the socket is flushed at the end.
pub open spec fn input_handled(
    state: RtmpPublishState,
    answer: Option<Seq<SessionOutput>>,
    replies: Seq<Option<SessionOutput>>,
) -> Progress {
    if !accepts_input(state) {
        failed(Seq::empty(), PublishError::InvalidState)
    } else {
        match answer {
            None => failed(Seq::empty(), PublishError::Session),
            Some(outputs) => {
                let handled = handle_outputs(state, outputs, replies);
                if handled.failure.is_some() || outputs.len() == 0 {
                    handled
                } else {
                    Progress { actions: handled.actions.push(Action::Flush), ..handled }
                }
            },
        }
    }
}

/// A session moves forward only: whatever the session hands out and
/// answers, the state after it is not in front of the state before it, a
/// failure and nothing else closes the session, and the units are asked for
/// only where the session comes to publish from an earlier state, that is
/// behind the acceptance of the publish request.
pub proof fn lemma_session_moves_forward(
    state: RtmpPublishState,
    outputs: Seq<SessionOutput>,
    replies: Seq<Option<SessionOutput>>,
)
    requires
        accepts_input(state),
    ensures
        rank(state) <= rank(handle_outputs(state, outputs, replies).state),
        handle_outputs(state, outputs, replies).failure.is_some() <==> handle_outputs(
            state,
            outputs,
            replies,
        ).state == RtmpPublishState::Closed,
        handle_outputs(state, outputs, replies).actions.contains(Action::PublishUnits) ==> state
            != RtmpPublishState::Publishing && handle_outputs(state, outputs, replies).state
            != RtmpPublishState::Connected && handle_outputs(state, outputs, replies).state
            != RtmpPublishState::PublishRequested,
    decreases outputs.len(),
{
    if outputs.len() > 0 {
        let before = handle_outputs(state, outputs.drop_last(), replies.drop_last());
        lemma_session_moves_forward(state, outputs.drop_last(), replies.drop_last());
        if before.failure.is_none() {
            let last = handle_output(before.state, outputs.last(), replies.last());
            let after = handle_outputs(state, outputs, replies);
            assert(after.actions == before.actions + last.actions);
            if after.actions.contains(Action::PublishUnits) {
                let i = choose|i: int|
                    0 <= i < after.actions.len() && after.actions[i] == Action::PublishUnits;
                if i < before.actions.len() {
                    assert(before.actions[i] == Action::PublishUnits);
                    assert(before.actions.contains(Action::PublishUnits));
                } else {
                    assert(last.actions[i - before.actions.len()] == Action::PublishUnits);
                }
            }
        }
    }
}

/// The actions for the bytes that the handshake answers with: nothing for
/// no bytes; else they are written, and flushed while the handshake goes on.
pub open spec fn response_actions(response: Vec<u8>, completed: bool) -> Seq<Action> {
    if response@.len() == 0 {
        Seq::empty()
    } else if completed {
        seq![Action::Write(response)]
    } else {
        seq![Action::Write(response), Action::Flush]
    }
}

/// The packets among the outputs of the session, each to be written.
pub open spec fn outbound_writes(outputs: Seq<SessionOutput>) -> Seq<Action>
    decreases outputs.len(),
{
    if outputs.len() == 0 {
        Seq::empty()
    } else {
        outbound_writes(outputs.drop_last()) + (match outputs.last() {
            SessionOutput::Outbound(bytes) => seq![Action::Write(bytes)],
            _ => Seq::empty(),
        })
    }
}

/// What the start of the handshake leads to. `first` holds the first
/// packets of the client (`None`: they could not be made).
pub open spec fn handshake_begun(state: RtmpPublishState, first: Option<Vec<u8>>) -> Progress {
    if state != RtmpPublishState::Created {
        failed(Seq::empty(), PublishError::InvalidState)
    } else {
        match first {
            None => failed(Seq::empty(), PublishError::Handshake),
            Some(bytes) => proceeds(
                RtmpPublishState::Handshaking,
                seq![Action::Write(bytes), Action::Flush],
            ),
        }
    }
}

/// What bytes of the peer lead to during the handshake. `answer` holds what
/// the handshake made of them (`None`: it failed). Once the handshake is
/// done a session is set up: `created` holds what the new session hands
/// out, `fed` what it makes of the bytes that came behind the handshake
/// (`None`: the session could not be made, or refused the bytes). Of both
/// the packets are written, and the socket is flushed.
pub open spec fn handshake_continued(
    state: RtmpPublishState,
    answer: Option<HandshakeProgress>,
    created: Option<Seq<SessionOutput>>,
    fed: Option<Seq<SessionOutput>>,
) -> Progress {
    if state != RtmpPublishState::Handshaking {
        failed(Seq::empty(), PublishError::InvalidState)
    } else {
        match answer {
            None => failed(Seq::empty(), PublishError::Handshake),
            Some(HandshakeProgress::InProgress { response_bytes }) => proceeds(
                RtmpPublishState::Handshaking,
                response_actions(response_bytes, false),
            ),
            Some(HandshakeProgress::Completed { response_bytes, .. }) => {
                let sent = response_actions(response_bytes, true);
                match created {
                    None => failed(sent, PublishError::Session),
                    Some(first) => match fed {
                        None => failed(sent + outbound_writes(first), PublishError::Session),
                        Some(second) => proceeds(
                            RtmpPublishState::Connected,
                            (sent + outbound_writes(first) + outbound_writes(second)).push(
                                Action::Flush,
                            ),
                        ),
                    },
                }
            },
        }
    }
}

/// What a command leads to. `reply` is the answer of the session to the
/// connection request. A packet is written and flushed; another answer is
/// passed over.
pub open spec fn command_handled(
    state: RtmpPublishState,
    reply: Option<SessionOutput>,
) -> Progress {
    if state != RtmpPublishState::Connected {
        failed(Seq::empty(), PublishError::InvalidState)
    } else {
        connection_requested(reply)
    }
}

/// What a unit of the stream leads to, and the realignment after it.
/// `reply` is the answer of the session to the video data. Coded data goes
/// out at its realigned timestamp, written and flushed; a configuration is
/// passed over.
pub open spec fn unit_handled(
    state: RtmpPublishState,
    aligner: AlignerModel,
    unit: UnitModel,
    reply: Option<SessionOutput>,
) -> (Progress, AlignerModel) {
    if state != RtmpPublishState::Publishing {
        (failed(Seq::empty(), PublishError::InvalidState), aligner)
    } else {
        match unit {
            UnitModel::Configuration { .. } => (
                proceeds(RtmpPublishState::Publishing, Seq::empty()),
                aligner,
            ),
            UnitModel::Data { timestamp, .. } => (
                sent(RtmpPublishState::Publishing, reply),
                aligner.after(timestamp),
            ),
        }
    }
}

/// The request that an output of the session calls for in a given state.
pub fn request(state: RtmpPublishState, output: &SessionOutput) -> (request: Request)
    ensures
        request == request_for(state, *output),
{
    match output {
        SessionOutput::ConnectionAccepted => if state == RtmpPublishState::Connected {
            Request::Publishing
        } else {
            Request::Nothing
        },
        SessionOutput::PublishAccepted => if state == RtmpPublishState::PublishRequested {
            Request::Metadata
        } else {
            Request::Nothing
        },
        _ => Request::Nothing,
    }
}

/// Sends the packet that the session answered a request with: the packet
/// is written and flushed, and the session goes on in `state`. An answer
/// that is no packet closes the session.
pub fn send_outbound_packet(state: RtmpPublishState, reply: Option<SessionOutput>) -> (next: (
    RtmpPublishState,
    Reactions,
))
    ensures
        progress_of(next.0, next.1) == sent(state, reply),
{
    match outbound_packet(reply) {
        Ok(bytes) => {
            let mut actions: Vec<Action> = Vec::new();
            actions.push(Action::Write(bytes));
            actions.push(Action::Flush);
            assert(actions@ =~= seq![Action::Write(bytes), Action::Flush]);
            (state, Reactions { actions, failure: None })
        },
        Err(e) => (RtmpPublishState::Closed, failure(Vec::new(), e)),
    }
}

/// What the answer of the session to a connection request leads to, with
/// the state after it.
pub fn connection_answered(reply: Option<SessionOutput>) -> (next: (RtmpPublishState, Reactions))
    ensures
        progress_of(next.0, next.1) == connection_requested(reply),
{
    match reply {
        None => (RtmpPublishState::Closed, failure(Vec::new(), PublishError::Session)),
        Some(SessionOutput::Outbound(bytes)) => {
            let mut actions: Vec<Action> = Vec::new();
            actions.push(Action::Write(bytes));
            actions.push(Action::Flush);
            assert(actions@ =~= seq![Action::Write(bytes), Action::Flush]);
            (RtmpPublishState::Connected, Reactions { actions, failure: None })
        },
        Some(_) => (RtmpPublishState::Connected, Reactions { actions: Vec::new(), failure: None }),
    }
}

/// The actions for the bytes that the handshake answers with.
pub fn respond(response: Vec<u8>, completed: bool) -> (actions: Vec<Action>)
    ensures
        actions@ == response_actions(response, completed),
{
    let mut actions: Vec<Action> = Vec::new();
    if response.len() > 0 {
        actions.push(Action::Write(response));
        if !completed {
            actions.push(Action::Flush);
        }
    }
    assert(actions@ =~= response_actions(response, completed));
    actions
}

/// What one output of the session leads to in a given state, given the
/// answer of the session to the request that the output calls for. Comes
/// back with the next state; a failure closes the session.
pub fn react(state: RtmpPublishState, output: SessionOutput, reply: Option<SessionOutput>) -> (next:
    (RtmpPublishState, Reactions))
    ensures
        progress_of(next.0, next.1) == handle_output(state, output, reply),
{
    match output {
        SessionOutput::Outbound(bytes) => {
            let mut actions: Vec<Action> = Vec::new();
            actions.push(Action::Write(bytes));
            assert(actions@ =~= seq![Action::Write(bytes)]);
            (state, Reactions { actions, failure: None })
        },
        SessionOutput::ConnectionAccepted => {
            if state != RtmpPublishState::Connected {
                (RtmpPublishState::Closed, failure(Vec::new(), PublishError::UnexpectedEvent))
            } else {
                send_outbound_packet(RtmpPublishState::PublishRequested, reply)
            }
        },
        SessionOutput::PublishAccepted => {
            if state != RtmpPublishState::PublishRequested {
                (RtmpPublishState::Closed, failure(Vec::new(), PublishError::UnexpectedEvent))
            } else {
                let (next, announced) = send_outbound_packet(RtmpPublishState::Publishing, reply);
                let Reactions { mut actions, failure } = announced;
                if failure.is_none() {
                    actions.push(Action::PublishUnits);
                }
                (next, Reactions { actions, failure })
            }
        },
        SessionOutput::OtherEvent => (state, Reactions { actions: Vec::new(), failure: None }),
        SessionOutput::Unhandleable => (state, Reactions { actions: Vec::new(), failure: None }),
    }
}

/// The URL of the target application, as the session is given it.
pub fn target_url() -> (url: String)
    ensures
        url@ == TC_URL@,
{
    TC_URL.to_owned()
}

/// The name of the stream, as the publish request is given it.
pub fn stream_key() -> (key: String)
    ensures
        key@ == STREAM_KEY@,
{
    STREAM_KEY.to_owned()
}

/// The metadata that is announced when the publish request is accepted.
pub fn stream_metadata() -> (announced: Metadata)
    ensures
        announced.encoder@ == ENCODER_TAG@,
        announced.video_width == VIDEO_WIDTH,
        announced.video_height == VIDEO_HEIGHT,
        announced.video_codec_id == VIDEO_CODEC_ID,
{
    Metadata {
        encoder: ENCODER_TAG.to_owned(),
        video_width: VIDEO_WIDTH,
        video_height: VIDEO_HEIGHT,
        video_codec_id: VIDEO_CODEC_ID,
    }
}

/// The message of video data that a unit goes out as: its bytes as they
/// are, at its realigned timestamp, and marked as one that may be dropped.
/// A configuration makes no message and leaves the realignment as it was.
pub fn video_message(aligner: &mut TimestampAligner, unit: H264Data) -> (message: Option<
    VideoMessage,
>)
    ensures
        match unit@ {
            UnitModel::Configuration { .. } => message.is_none() && final(aligner)@ == old(
                aligner,
            )@,
            UnitModel::Data { timestamp, data } => {
                &&& final(aligner)@ == old(aligner)@.after(timestamp)
                &&& message matches Some(made)
                &&& bytes_view(made.data) == data
                &&& made.timestamp == old(aligner)@.aligned(timestamp)
                &&& made.can_be_dropped
            },
        },
{
    match unit {
        H264Data::Configuration { .. } => None,
        H264Data::Data { timestamp, data } => {
            let rtmp: u32 = aligner.advance(timestamp);
            Some(VideoMessage { data, timestamp: rtmp, can_be_dropped: true })
        },
    }
}

/// What the session answered, as a mathematical value.
pub open spec fn reply_model(reply: Option<SessionOutput>) -> Option<SessionOutputModel> {
    match reply {
        Some(output) => Some(output@),
        None => None,
    }
}

/// Whether a unit is handed to the session: the session publishes, and
/// the unit is coded data.
pub open spec fn hands_over(state: RtmpPublishState, unit: UnitModel) -> bool {
    state == RtmpPublishState::Publishing && unit is Data
}

/// Where a unit is handed to the session, `reply` is what the session
/// answers to the bytes of the unit as they are, at the realigned
/// timestamp, marked as data that may be dropped.
pub open spec fn answers_unit(
    session: ClientSession,
    state: RtmpPublishState,
    aligner: AlignerModel,
    unit: UnitModel,
    reply: Option<SessionOutput>,
) -> bool {
    hands_over(state, unit) ==> reply_model(reply) == published_video(
        session,
        unit.payload(),
        aligner.aligned(unit.timestamp()),
        true,
    )
}

/// The reactions that close the session after these actions.
fn failure(actions: Vec<Action>, error: PublishError) -> (reactions: Reactions)
    ensures
        reactions.actions == actions,
        reactions.failure == Some(error),
{
    Reactions { actions, failure: Some(error) }
}

/// What the session answered to a request, told apart. `None` stands for
/// a request that the session refused.
fn reply_of(result: Result<ClientSessionResult, ClientSessionError>) -> (reply: Option<
    SessionOutput,
>)
    ensures
        match result {
            Ok(answer) => reply matches Some(output) && output@ == session_output(answer),
            Err(_) => reply.is_none(),
        },
{
    match result {
        Ok(answer) => Some(classify(&answer)),
        Err(_) => None,
    }
}

/// Puts a write behind `actions` for every packet among `results`. Comes
/// back with what the results are, one for one.
fn write_outbound(results: &Vec<ClientSessionResult>, actions: &mut Vec<Action>) -> (outputs: Ghost<
    Seq<SessionOutput>,
>)
    ensures
        outputs@.len() == results@.len(),
        forall|i: int|
            0 <= i < results@.len() ==> (#[trigger] outputs@[i])@ == session_output(results@[i]),
        final(actions)@ == old(actions)@ + outbound_writes(outputs@),
{
    let ghost mut outputs: Seq<SessionOutput> = Seq::empty();
    let mut i: usize = 0;
    assert(actions@ =~= old(actions)@ + outbound_writes(outputs));
    while i < results.len()
        invariant
            i <= results.len(),
            outputs.len() == i,
            forall|k: int| 0 <= k < i ==> (#[trigger] outputs[k])@ == session_output(results@[k]),
            actions@ == old(actions)@ + outbound_writes(outputs),
        decreases results.len() - i,
    {
        let output = classify(&results[i]);
        let ghost seen = outputs;
        let ghost had = actions@;
        proof {
            outputs = seen.push(output);
            assert(outputs.drop_last() =~= seen);
        }
        match output {
            SessionOutput::Outbound(bytes) => {
                actions.push(Action::Write(bytes));
                assert(actions@ =~= had + seq![Action::Write(bytes)]);
            },
            _ => {
                assert(actions@ =~= had + Seq::<Action>::empty());
            },
        }
        assert(actions@ =~= old(actions)@ + outbound_writes(outputs));
        i = i + 1;
    }
    Ghost(outputs)
}

/// A session with the reader of the chunk stream that stands in front of
/// it.
struct Guarded {
    session: ClientSession,
    monitor: ChunkMonitor,
    requests: u32,
}

impl Guarded {
    /// The reader has read what the session was given, and the session
    /// has numbered no more requests than are counted.
    #[verifier::type_invariant]
    spec fn inv(self) -> bool {
        guards(self.session, self.monitor) && session_requests(self.session) <= self.requests
    }
}

/// The reader has read what the session was given.
spec fn guards(session: ClientSession, monitor: ChunkMonitor) -> bool {
    monitor.wf() && monitor@ == StreamModel::start().read_all(session_input(session))
}

/// Gives the session bytes of the peer, if it may be given them: the
/// reader of the chunk stream reads them first. Nothing comes back where
/// they are refused, by the reader or by the session.
fn give(session: &mut ClientSession, monitor: &mut ChunkMonitor, bytes: &[u8]) -> (results: Option<
    Vec<ClientSessionResult>,
>)
    requires
        guards(*old(session), *old(monitor)),
    ensures
        !old(monitor)@.admits(bytes@) ==> results.is_none(),
        results.is_some() ==> guards(*final(session), *final(monitor)),
        session_requests(*final(session)) == session_requests(*old(session)),
{
    if !monitor.accept(bytes) {
        return None;
    }
    assert(session_input(*old(session)).push(bytes@).drop_last() =~= session_input(*old(session)));
    match session_handle_input(session, bytes) {
        Ok(results) => Some(results),
        Err(_) => None,
    }
}

/// What holds the session in each state.
enum Stage {
    Created,
    Handshaking(Handshake),
    Connected(Guarded),
    PublishRequested(Guarded),
    Publishing(Guarded),
    Closed,
}

impl Stage {
    spec fn state(self) -> RtmpPublishState {
        match self {
            Stage::Created => RtmpPublishState::Created,
            Stage::Handshaking(_) => RtmpPublishState::Handshaking,
            Stage::Connected(_) => RtmpPublishState::Connected,
            Stage::PublishRequested(_) => RtmpPublishState::PublishRequested,
            Stage::Publishing(_) => RtmpPublishState::Publishing,
            Stage::Closed => RtmpPublishState::Closed,
        }
    }

    spec fn guarded(self) -> Option<Guarded> {
        match self {
            Stage::Connected(guarded) => Some(guarded),
            Stage::PublishRequested(guarded) => Some(guarded),
            Stage::Publishing(guarded) => Some(guarded),
            _ => None,
        }
    }
}

/// The stage that holds `session` in `state`.
fn stage_of(state: RtmpPublishState, session: Guarded) -> (stage: Stage)
    ensures
        accepts_input(state) ==> stage.state() == state && stage.guarded() == Some(session),
        !accepts_input(state) ==> stage.state() == RtmpPublishState::Closed,
{
    match state {
        RtmpPublishState::Connected => Stage::Connected(session),
        RtmpPublishState::PublishRequested => Stage::PublishRequested(session),
        RtmpPublishState::Publishing => Stage::Publishing(session),
        _ => Stage::Closed,
    }
}

/// The driver of one publishing session.
pub struct RtmpPublisher {
    stage: Stage,
    aligner: TimestampAligner,
}

impl RtmpPublisher {
    /// Where the session stands.
    pub closed spec fn state(self) -> RtmpPublishState {
        self.stage.state()
    }

    /// The realignment of the timestamps of the stream.
    pub closed spec fn aligner(self) -> AlignerModel {
        self.aligner@
    }

    /// The chunk stream of the peer, as far as the session has been given
    /// it.
    pub closed spec fn stream(self) -> StreamModel {
        match self.stage.guarded() {
            Some(guarded) => guarded.monitor@,
            None => StreamModel::start(),
        }
    }

    /// The session, once it is set up.
    pub closed spec fn session(self) -> ClientSession {
        match self.stage.guarded() {
            Some(guarded) => guarded.session,
            None => arbitrary(),
        }
    }


    /// A session that has sent nothing.
    pub fn new() -> (publisher: Self)
        ensures
            publisher.state() == RtmpPublishState::Created,
            publisher.aligner() == AlignerModel::start(),
    {
        RtmpPublisher { stage: Stage::Created, aligner: TimestampAligner::new() }
    }

    /// Where the session stands.
    pub fn current_state(&self) -> (state: RtmpPublishState)
        ensures
            state == self.state(),
    {
        match &self.stage {
            Stage::Created => RtmpPublishState::Created,
            Stage::Handshaking(_) => RtmpPublishState::Handshaking,
            Stage::Connected(_) => RtmpPublishState::Connected,
            Stage::PublishRequested(_) => RtmpPublishState::PublishRequested,
            Stage::Publishing(_) => RtmpPublishState::Publishing,
            Stage::Closed => RtmpPublishState::Closed,
        }
    }

    /// Closes the session: the peer has shut down, or the socket has failed.
    pub fn close(&mut self)
        ensures
            final(self).state() == RtmpPublishState::Closed,
            final(self).aligner() == old(self).aligner(),
    {
        self.stage = Stage::Closed;
    }

    /// Takes the stage out and leaves the session closed.
    fn take_stage(&mut self) -> (stage: Stage)
        ensures
            stage == old(self).stage,
            final(self).stage == Stage::Closed,
            final(self).aligner == old(self).aligner,
    {
        let mut stage = Stage::Closed;
        core::mem::swap(&mut self.stage, &mut stage);
        stage
    }

    /// Begins the handshake: the first packets of the client go out.
    pub fn begin_handshake(&mut self) -> (reactions: Reactions)
        ensures
            reactions.failure.is_some() <==> final(self).state() == RtmpPublishState::Closed,
            final(self).aligner() == old(self).aligner(),
            exists|first: Option<Vec<u8>>|
                progress_of(final(self).state(), reactions) == handshake_begun(
                    old(self).state(),
                    first,
                ),
            old(self).state() != RtmpPublishState::Created ==> progress_of(
                final(self).state(),
                reactions,
            ) == handshake_begun(old(self).state(), None),
    {
        match self.take_stage() {
            Stage::Created => {
                let mut handshake = handshake_new(PeerSide::Client);
                match handshake_generate(&mut handshake) {
                    Ok(bytes) => {
                        let mut actions: Vec<Action> = Vec::new();
                        actions.push(Action::Write(bytes));
                        actions.push(Action::Flush);
                        assert(actions@ =~= seq![Action::Write(bytes), Action::Flush]);
                        self.stage = Stage::Handshaking(handshake);
                        let reactions = Reactions { actions, failure: None };
                        assert(progress_of(self.state(), reactions) == handshake_begun(
                            old(self).state(),
                            Some(bytes),
                        ));
                        reactions
                    },
                    Err(_) => {
                        let reactions = failure(Vec::new(), PublishError::Handshake);
                        assert(progress_of(self.state(), reactions) == handshake_begun(
                            old(self).state(),
                            None,
                        ));
                        reactions
                    },
                }
            },
            _ => {
                let reactions = failure(Vec::new(), PublishError::InvalidState);
                assert(progress_of(self.state(), reactions) == handshake_begun(
                    old(self).state(),
                    None,
                ));
                reactions
            },
        }
    }

    /// Takes bytes of the peer during the handshake. When the handshake is
    /// done, the session is set up on the bytes that came behind it.
    pub fn on_handshake_bytes(&mut self, bytes: &[u8]) -> (reactions: Reactions)
        ensures
            reactions.failure.is_some() <==> final(self).state() == RtmpPublishState::Closed,
            final(self).aligner() == old(self).aligner(),
            exists|
                answer: Option<HandshakeProgress>,
                created: Option<Seq<SessionOutput>>,
                fed: Option<Seq<SessionOutput>>,
            |
                progress_of(final(self).state(), reactions) == handshake_continued(
                    old(self).state(),
                    answer,
                    created,
                    fed,
                ),
            old(self).state() != RtmpPublishState::Handshaking ==> progress_of(
                final(self).state(),
                reactions,
            ) == handshake_continued(old(self).state(), None, None, None),
    {
        let mut handshake = match self.take_stage() {
            Stage::Handshaking(handshake) => handshake,
            _ => {
                let reactions = failure(Vec::new(), PublishError::InvalidState);
                assert(progress_of(self.state(), reactions) == handshake_continued(
                    old(self).state(),
                    None,
                    None,
                    None,
                ));
                return reactions;
            },
        };
        let progress = match handshake_process(&mut handshake, bytes) {
            Ok(progress) => progress,
            Err(_) => {
                let reactions = failure(Vec::new(), PublishError::Handshake);
                assert(progress_of(self.state(), reactions) == handshake_continued(
                    old(self).state(),
                    None,
                    None,
                    None,
                ));
                return reactions;
            },
        };
        let ghost answer = Some(progress);
        match progress {
            HandshakeProgress::InProgress { response_bytes } => {
                let actions = respond(response_bytes, false);
                self.stage = Stage::Handshaking(handshake);
                let reactions = Reactions { actions, failure: None };
                assert(progress_of(self.state(), reactions) == handshake_continued(
                    old(self).state(),
                    answer,
                    None,
                    None,
                ));
                reactions
            },
            HandshakeProgress::Completed { response_bytes, remaining_bytes } => {
                let mut actions = respond(response_bytes, true);
                let (mut session, results) = match session_new(target_url()) {
                    Ok(made) => made,
                    Err(_) => {
                        let reactions = failure(actions, PublishError::Session);
                        assert(progress_of(self.state(), reactions) == handshake_continued(
                            old(self).state(),
                            answer,
                            None,
                            None,
                        ));
                        return reactions;
                    },
                };
                let first = write_outbound(&results, &mut actions);
                let mut monitor = ChunkMonitor::new();
                let results = match give(&mut session, &mut monitor, remaining_bytes.as_slice()) {
                    Some(results) => results,
                    None => {
                        let reactions = failure(actions, PublishError::Session);
                        assert(progress_of(self.state(), reactions) == handshake_continued(
                            old(self).state(),
                            answer,
                            Some(first@),
                            None,
                        ));
                        return reactions;
                    },
                };
                let second = write_outbound(&results, &mut actions);
                actions.push(Action::Flush);
                self.stage = Stage::Connected(Guarded { session, monitor, requests: 0 });
                let reactions = Reactions { actions, failure: None };
                assert(progress_of(self.state(), reactions) == handshake_continued(
                    old(self).state(),
                    answer,
                    Some(first@),
                    Some(second@),
                ));
                reactions
            },
        }
    }

    /// Takes bytes of the peer once the session is set up. Bytes that the
    /// session may not be given close the session as bytes do that the
    /// session refuses.
    pub fn on_input(&mut self, bytes: &[u8]) -> (reactions: Reactions)
        ensures
            reactions.failure.is_some() <==> final(self).state() == RtmpPublishState::Closed,
            final(self).aligner() == old(self).aligner(),
            exists|answer: Option<Seq<SessionOutput>>, replies: Seq<Option<SessionOutput>>|
                progress_of(final(self).state(), reactions) == input_handled(
                    old(self).state(),
                    answer,
                    replies,
                ),
            !accepts_input(old(self).state()) || !old(self).stream().admits(bytes@) ==> progress_of(
                final(self).state(),
                reactions,
            ) == input_handled(old(self).state(), None, Seq::empty()),
    {
        let stage = self.take_stage();
        let ghost before = stage.state();
        let (guarded, mut state) = match stage {
            Stage::Connected(guarded) => (guarded, RtmpPublishState::Connected),
            Stage::PublishRequested(guarded) => (guarded, RtmpPublishState::PublishRequested),
            Stage::Publishing(guarded) => (guarded, RtmpPublishState::Publishing),
            _ => {
                let reactions = failure(Vec::new(), PublishError::InvalidState);
                assert(progress_of(self.state(), reactions) == input_handled(
                    before,
                    None,
                    Seq::empty(),
                ));
                return reactions;
            },
        };
        proof {
            use_type_invariant(&guarded);
        }
        let Guarded { mut session, mut monitor, mut requests } = guarded;
        let results = match give(&mut session, &mut monitor, bytes) {
            Some(results) => results,
            None => {
                let reactions = failure(Vec::new(), PublishError::Session);
                assert(progress_of(self.state(), reactions) == input_handled(
                    before,
                    None,
                    Seq::empty(),
                ));
                return reactions;
            },
        };
        let mut actions: Vec<Action> = Vec::new();
        let ghost mut outputs: Seq<SessionOutput> = Seq::empty();
        let ghost mut replies: Seq<Option<SessionOutput>> = Seq::empty();
        let mut i: usize = 0;
        while i < results.len()
            invariant
                i <= results.len(),
                outputs.len() == i,
                replies.len() == i,
                before == old(self).state(),
                accepts_input(before),
                accepts_input(state),
                old(self).stream().admits(bytes@),
                guards(session, monitor),
                session_requests(session) <= requests,
                self.stage == Stage::Closed,
                self.aligner == old(self).aligner,
                handle_outputs(before, outputs, replies) == proceeds(state, actions@),
            decreases results.len() - i,
        {
            let output = classify(&results[i]);
            let reply = match request(state, &output) {
                Request::Publishing => if requests < MAX_REQUESTS {
                    requests = requests + 1;
                    reply_of(session_request_publishing(&mut session, stream_key(), PUBLISH_KIND))
                } else {
                    None
                },
                Request::Metadata => reply_of(
                    session_publish_metadata(&mut session, stream_metadata()),
                ),
                Request::Nothing => None,
            };
            let ghost seen = outputs;
            let ghost answered = replies;
            let ghost had = actions@;
            proof {
                outputs = seen.push(output);
                replies = answered.push(reply);
                assert(outputs.drop_last() =~= seen);
                assert(replies.drop_last() =~= answered);
            }
            let (next, step) = react(state, output, reply);
            let Reactions { actions: mut more, failure: failed_with } = step;
            actions.append(&mut more);
            state = next;
            match failed_with {
                Some(error) => {
                    let reactions = failure(actions, error);
                    assert(progress_of(self.state(), reactions) == input_handled(
                        before,
                        Some(outputs),
                        replies,
                    ));
                    return reactions;
                },
                None => {},
            }
            i = i + 1;
        }
        if results.len() > 0 {
            actions.push(Action::Flush);
        }
        self.stage = stage_of(state, Guarded { session, monitor, requests });
        let reactions = Reactions { actions, failure: None };
        assert(progress_of(self.state(), reactions) == input_handled(
            before,
            Some(outputs),
            replies,
        ));
        reactions
    }

    /// Takes a command of the owner. A session that has numbered all the
    /// requests that it can number is asked no more: the command closes
    /// the session as one does that the session refuses.
    pub fn on_command(&mut self, command: Command) -> (reactions: Reactions)
        ensures
            reactions.failure.is_some() <==> final(self).state() == RtmpPublishState::Closed,
            final(self).aligner() == old(self).aligner(),
            exists|reply: Option<SessionOutput>|
                progress_of(final(self).state(), reactions) == command_handled(
                    old(self).state(),
                    reply,
                ),
            old(self).state() != RtmpPublishState::Connected ==> progress_of(
                final(self).state(),
                reactions,
            ) == command_handled(old(self).state(), None),
    {
        let guarded = match self.take_stage() {
            Stage::Connected(guarded) => guarded,
            _ => {
                let reactions = failure(Vec::new(), PublishError::InvalidState);
                assert(progress_of(self.state(), reactions) == command_handled(
                    old(self).state(),
                    None,
                ));
                return reactions;
            },
        };
        proof {
            use_type_invariant(&guarded);
        }
        let Guarded { mut session, monitor, mut requests } = guarded;
        match command {
            Command::Publish { app } => {
                let reply = if requests < MAX_REQUESTS {
                    requests = requests + 1;
                    reply_of(session_request_connection(&mut session, app))
                } else {
                    None
                };
                let ghost answered = reply;
                let (next, reactions) = connection_answered(reply);
                self.stage = stage_of(next, Guarded { session, monitor, requests });
                assert(progress_of(self.state(), reactions) == command_handled(
                    old(self).state(),
                    answered,
                ));
                reactions
            },
        }
    }

    /// Takes a unit of the stream while the session publishes: the session
    /// is given the message that [`video_message`] makes of it, that is the
    /// bytes of the unit as they are, at the realigned timestamp.
    pub fn on_unit(&mut self, unit: H264Data) -> (reactions: Reactions)
        ensures
            reactions.failure.is_some() <==> final(self).state() == RtmpPublishState::Closed,
            exists|reply: Option<SessionOutput>|
                (progress_of(final(self).state(), reactions), final(self).aligner())
                    == unit_handled(old(self).state(), old(self).aligner(), unit@, reply)
                    && answers_unit(
                    old(self).session(),
                    old(self).state(),
                    old(self).aligner(),
                    unit@,
                    reply,
                ),
            !hands_over(old(self).state(), unit@) ==> (
                progress_of(final(self).state(), reactions),
                final(self).aligner(),
            ) == unit_handled(old(self).state(), old(self).aligner(), unit@, None),
    {
        let (next, reactions, reply): (
            RtmpPublishState,
            Reactions,
            Ghost<Option<SessionOutput>>,
        ) = match self.take_stage() {
            Stage::Publishing(guarded) => {
                proof {
                    use_type_invariant(&guarded);
                }
                let Guarded { mut session, monitor, requests } = guarded;
                let (next, reactions, reply) = match video_message(&mut self.aligner, unit) {
                    None => (
                        RtmpPublishState::Publishing,
                        Reactions { actions: Vec::new(), failure: None },
                        Ghost(None),
                    ),
                    Some(message) => {
                        let reply = reply_of(session_publish_video(&mut session, message));
                        let ghost answered = reply;
                        let (next, reactions) = send_outbound_packet(
                            RtmpPublishState::Publishing,
                            reply,
                        );
                        (next, reactions, Ghost(answered))
                    },
                };
                self.stage = stage_of(next, Guarded { session, monitor, requests });
                (next, reactions, reply)
            },
            _ => (
                RtmpPublishState::Closed,
                failure(Vec::new(), PublishError::InvalidState),
                Ghost(None),
            ),
        };
        assert((progress_of(self.state(), reactions), self.aligner()) == unit_handled(
            old(self).state(),
            old(self).aligner(),
            unit@,
            reply@,
        ));
        assert(answers_unit(
            old(self).session(),
            old(self).state(),
            old(self).aligner(),
            unit@,
            reply@,
        ));
        reactions
    }
}

} // verus!
