use bytes::Bytes;
use rml_rtmp::handshake::{Handshake, HandshakeProcessResult, PeerType};
use rml_rtmp::sessions::{
    ServerSession, ServerSessionConfig, ServerSessionEvent, ServerSessionResult,
};
use rtc2rtmp::h264::{AVCDecoderConfigurationRecord, H264Data};
use rtc2rtmp::rtmp::{
    connection_answered, outbound_packet, react, request, respond, send_outbound_packet,
    stream_key, stream_metadata, target_url, video_message, Action, Command, PublishError,
    Reactions, Request, RtmpPublishState, RtmpPublisher, ENCODER_TAG, STREAM_KEY, TC_URL,
    VIDEO_CODEC_ID, VIDEO_HEIGHT, VIDEO_WIDTH,
};
use rtc2rtmp::timestamp::TimestampAligner;
use rtc2rtmp::session::SessionOutput;

/// The other side of the connection: a server that accepts every request.
struct Server {
    handshake: Handshake,
    session: Option<ServerSession>,
    events: Vec<ServerSessionEvent>,
}

impl Server {
    fn new() -> Self {
        Server { handshake: Handshake::new(PeerType::Server), session: None, events: Vec::new() }
    }

    fn take(&mut self, bytes: &[u8]) -> Vec<u8> {
        let mut out = Vec::new();
        if self.session.is_none() {
            match self.handshake.process_bytes(bytes).expect("server handshake") {
                HandshakeProcessResult::InProgress { response_bytes } => {
                    out.extend_from_slice(&response_bytes);
                }
                HandshakeProcessResult::Completed { response_bytes, remaining_bytes } => {
                    out.extend_from_slice(&response_bytes);
                    let (session, results) =
                        ServerSession::new(ServerSessionConfig::new()).expect("server session");
                    self.session = Some(session);
                    self.handle(results, &mut out);
                    if !remaining_bytes.is_empty() {
                        let results = self
                            .session
                            .as_mut()
                            .unwrap()
                            .handle_input(&remaining_bytes)
                            .expect("server input");
                        self.handle(results, &mut out);
                    }
                }
            }
        } else {
            let results =
                self.session.as_mut().unwrap().handle_input(bytes).expect("server input");
            self.handle(results, &mut out);
        }
        out
    }

    fn handle(&mut self, results: Vec<ServerSessionResult>, out: &mut Vec<u8>) {
        for result in results {
            match result {
                ServerSessionResult::OutboundResponse(packet) => {
                    out.extend_from_slice(&packet.bytes)
                }
                ServerSessionResult::RaisedEvent(event) => {
                    let request_id = match &event {
                        ServerSessionEvent::ConnectionRequested { request_id, .. } => {
                            Some(*request_id)
                        }
                        ServerSessionEvent::PublishStreamRequested { request_id, .. } => {
                            Some(*request_id)
                        }
                        _ => None,
                    };
                    self.events.push(event);
                    if let Some(id) = request_id {
                        let accepted =
                            self.session.as_mut().unwrap().accept_request(id).expect("accept");
                        self.handle(accepted, out);
                    }
                }
                ServerSessionResult::UnhandleableMessageReceived(_) => {}
            }
        }
    }
}

fn all_states() -> [RtmpPublishState; 6] {
    [
        RtmpPublishState::Created,
        RtmpPublishState::Handshaking,
        RtmpPublishState::Connected,
        RtmpPublishState::PublishRequested,
        RtmpPublishState::Publishing,
        RtmpPublishState::Closed,
    ]
}

fn written(reactions: &Reactions) -> Vec<u8> {
    let mut bytes = Vec::new();
    for action in &reactions.actions {
        if let Action::Write(packet) = action {
            bytes.extend_from_slice(packet);
        }
    }
    bytes
}

fn shape(reactions: &Reactions) -> String {
    reactions
        .actions
        .iter()
        .map(|action| match action {
            Action::Write(_) => 'w',
            Action::Flush => 'f',
            Action::PublishUnits => 'p',
        })
        .collect()
}

/// Carries bytes back and forth until one side has nothing more to say.
/// Gives the shapes of the reactions of the publisher on the way.
fn exchange(publisher: &mut RtmpPublisher, server: &mut Server, first: Reactions) -> Vec<String> {
    let mut shapes = Vec::new();
    let mut reactions = first;
    for _ in 0..20 {
        assert_eq!(reactions.failure, None);
        let to_server = written(&reactions);
        if to_server.is_empty() {
            break;
        }
        let to_client = server.take(&to_server);
        if to_client.is_empty() {
            break;
        }
        reactions = if publisher.current_state() == RtmpPublishState::Handshaking {
            publisher.on_handshake_bytes(&to_client)
        } else {
            publisher.on_input(&to_client)
        };
        shapes.push(shape(&reactions));
    }
    shapes
}

fn connected() -> (RtmpPublisher, Server) {
    let mut publisher = RtmpPublisher::new();
    let mut server = Server::new();
    let first = publisher.begin_handshake();
    exchange(&mut publisher, &mut server, first);
    assert_eq!(publisher.current_state(), RtmpPublishState::Connected);
    (publisher, server)
}

fn publishing() -> (RtmpPublisher, Server) {
    let (mut publisher, mut server) = connected();
    let first = publisher.on_command(Command::Publish { app: String::from("live") });
    exchange(&mut publisher, &mut server, first);
    assert_eq!(publisher.current_state(), RtmpPublishState::Publishing);
    (publisher, server)
}

#[test]
fn constants_of_the_session() {
    assert_eq!(TC_URL, "rtmp://localhost/live");
    assert_eq!(STREAM_KEY, "gengteng");
    assert_eq!(ENCODER_TAG, "rtc2rtmp/0.1.0");
    assert_eq!(VIDEO_WIDTH, 320);
    assert_eq!(VIDEO_HEIGHT, 240);
    assert_eq!(VIDEO_CODEC_ID, 7);
}

#[test]
fn new_publisher_is_created() {
    let publisher = RtmpPublisher::new();
    assert_eq!(publisher.current_state(), RtmpPublishState::Created);
}

#[test]
fn handshake_begins_with_the_packets_of_the_client() {
    let mut publisher = RtmpPublisher::new();
    let reactions = publisher.begin_handshake();
    assert_eq!(reactions.failure, None);
    assert_eq!(shape(&reactions), "wf");
    let bytes = written(&reactions);
    assert_eq!(bytes.len(), 1537);
    assert_eq!(bytes[0], 3);
    assert_eq!(publisher.current_state(), RtmpPublishState::Handshaking);
}

#[test]
fn handshake_cannot_begin_twice() {
    let mut publisher = RtmpPublisher::new();
    publisher.begin_handshake();
    let reactions = publisher.begin_handshake();
    assert_eq!(reactions.failure, Some(PublishError::InvalidState));
    assert!(reactions.actions.is_empty());
    assert_eq!(publisher.current_state(), RtmpPublishState::Closed);
}

#[test]
fn handshake_waits_for_more_bytes() {
    let mut publisher = RtmpPublisher::new();
    publisher.begin_handshake();
    let reactions = publisher.on_handshake_bytes(&[3]);
    assert_eq!(reactions.failure, None);
    assert!(reactions.actions.is_empty());
    assert_eq!(publisher.current_state(), RtmpPublishState::Handshaking);
    let reactions = publisher.on_handshake_bytes(&[0; 100]);
    assert_eq!(reactions.failure, None);
    assert!(reactions.actions.is_empty());
    assert_eq!(publisher.current_state(), RtmpPublishState::Handshaking);
}

#[test]
fn handshake_with_a_bad_version_closes_the_session() {
    let mut publisher = RtmpPublisher::new();
    publisher.begin_handshake();
    let reactions = publisher.on_handshake_bytes(&[4, 0, 0, 0]);
    assert_eq!(reactions.failure, Some(PublishError::Handshake));
    assert!(reactions.actions.is_empty());
    assert_eq!(publisher.current_state(), RtmpPublishState::Closed);
}

#[test]
fn handshake_ends_connected() {
    let mut publisher = RtmpPublisher::new();
    let mut server = Server::new();
    let first = publisher.begin_handshake();
    let to_client = server.take(&written(&first));
    assert_eq!(to_client.len(), 1 + 1536 + 1536);
    let reactions = publisher.on_handshake_bytes(&to_client);
    assert_eq!(reactions.failure, None);
    assert_eq!(shape(&reactions), "wf");
    assert_eq!(written(&reactions).len(), 1536);
    assert_eq!(publisher.current_state(), RtmpPublishState::Connected);
    let from_server = server.take(&written(&reactions));
    assert!(server.session.is_some());
    let reactions = publisher.on_input(&from_server);
    assert_eq!(reactions.failure, None);
    assert_eq!(publisher.current_state(), RtmpPublishState::Connected);
}

#[test]
fn bytes_behind_the_handshake_go_to_the_session() {
    let mut publisher = RtmpPublisher::new();
    let mut server = Server::new();
    let first = publisher.begin_handshake();
    let mut to_client = server.take(&written(&first));
    to_client.extend_from_slice(&[0xff; 40]);
    let reactions = publisher.on_handshake_bytes(&to_client);
    assert_eq!(shape(&reactions), "w");
    assert_eq!(reactions.failure, Some(PublishError::Session));
    assert_eq!(publisher.current_state(), RtmpPublishState::Closed);
}

#[test]
fn input_is_refused_outside_a_session() {
    let mut publisher = RtmpPublisher::new();
    let reactions = publisher.on_input(&[1, 2, 3]);
    assert_eq!(reactions.failure, Some(PublishError::InvalidState));
    assert!(reactions.actions.is_empty());
    assert_eq!(publisher.current_state(), RtmpPublishState::Closed);

    let mut publisher = RtmpPublisher::new();
    publisher.begin_handshake();
    let reactions = publisher.on_input(&[1, 2, 3]);
    assert_eq!(reactions.failure, Some(PublishError::InvalidState));
    assert_eq!(publisher.current_state(), RtmpPublishState::Closed);
}

#[test]
fn handshake_bytes_are_refused_outside_the_handshake() {
    let mut publisher = RtmpPublisher::new();
    let reactions = publisher.on_handshake_bytes(&[3]);
    assert_eq!(reactions.failure, Some(PublishError::InvalidState));
    assert_eq!(publisher.current_state(), RtmpPublishState::Closed);

    let (mut publisher, _server) = connected();
    let reactions = publisher.on_handshake_bytes(&[3]);
    assert_eq!(reactions.failure, Some(PublishError::InvalidState));
    assert_eq!(publisher.current_state(), RtmpPublishState::Closed);
}

#[test]
fn command_is_refused_before_the_session_is_set_up() {
    let mut publisher = RtmpPublisher::new();
    let reactions = publisher.on_command(Command::Publish { app: String::from("live") });
    assert_eq!(reactions.failure, Some(PublishError::InvalidState));
    assert!(reactions.actions.is_empty());
    assert_eq!(publisher.current_state(), RtmpPublishState::Closed);
}

#[test]
fn command_is_refused_while_publishing() {
    let (mut publisher, _server) = publishing();
    let reactions = publisher.on_command(Command::Publish { app: String::from("live") });
    assert_eq!(reactions.failure, Some(PublishError::InvalidState));
    assert_eq!(publisher.current_state(), RtmpPublishState::Closed);
}

#[test]
fn unit_is_refused_before_publishing() {
    let (mut publisher, _server) = connected();
    let reactions = publisher.on_unit(H264Data::new(0, Bytes::from_static(&[0x17, 1, 0, 0, 0])));
    assert_eq!(reactions.failure, Some(PublishError::InvalidState));
    assert!(reactions.actions.is_empty());
    assert_eq!(publisher.current_state(), RtmpPublishState::Closed);
}

#[test]
fn garbage_from_the_peer_closes_the_session() {
    let (mut publisher, _server) = connected();
    let reactions = publisher.on_input(&[0xff; 64]);
    assert_eq!(reactions.failure, Some(PublishError::Session));
    assert!(reactions.actions.is_empty());
    assert_eq!(publisher.current_state(), RtmpPublishState::Closed);
}

#[test]
fn empty_input_asks_for_nothing() {
    let (mut publisher, _server) = connected();
    let reactions = publisher.on_input(&[]);
    assert_eq!(reactions.failure, None);
    assert!(reactions.actions.is_empty());
    assert_eq!(publisher.current_state(), RtmpPublishState::Connected);
}

#[test]
fn publish_command_sends_the_connection_request() {
    let (mut publisher, mut server) = connected();
    let reactions = publisher.on_command(Command::Publish { app: String::from("live") });
    assert_eq!(reactions.failure, None);
    assert_eq!(shape(&reactions), "wf");
    assert_eq!(publisher.current_state(), RtmpPublishState::Connected);
    server.take(&written(&reactions));
    assert!(server.events.iter().any(|event| matches!(
        event,
        ServerSessionEvent::ConnectionRequested { app_name, .. } if app_name == "live"
    )));
}

#[test]
fn accepted_connection_leads_to_publishing() {
    let (mut publisher, mut server) = connected();
    let first = publisher.on_command(Command::Publish { app: String::from("live") });
    let shapes = exchange(&mut publisher, &mut server, first);
    assert_eq!(publisher.current_state(), RtmpPublishState::Publishing);
    let all: String = shapes.concat();
    assert_eq!(all.matches('p').count(), 1);
    let last = shapes.iter().rev().find(|s| s.contains('p')).unwrap();
    assert!(last.contains("wfp"), "{}", last);
    assert!(last.ends_with('f'), "{}", last);

    let published = server.events.iter().find_map(|event| match event {
        ServerSessionEvent::PublishStreamRequested { app_name, stream_key, .. } => {
            Some((app_name.clone(), stream_key.clone()))
        }
        _ => None,
    });
    assert_eq!(published, Some((String::from("live"), String::from("gengteng"))));

    let metadata = server.events.iter().find_map(|event| match event {
        ServerSessionEvent::StreamMetadataChanged { metadata, .. } => Some(metadata.clone()),
        _ => None,
    });
    let metadata = metadata.expect("metadata of the stream");
    assert_eq!(metadata.video_width, Some(320));
    assert_eq!(metadata.video_height, Some(240));
    assert_eq!(metadata.video_codec_id, Some(7));
    assert_eq!(metadata.encoder, Some(String::from("rtc2rtmp/0.1.0")));
    assert_eq!(metadata.audio_codec_id, None);
}

#[test]
fn units_go_out_at_realigned_timestamps() {
    let (mut publisher, mut server) = publishing();
    server.events.clear();
    let payloads: Vec<Vec<u8>> =
        vec![vec![0x17, 0, 0, 0, 0, 1, 2], vec![0x17, 1, 0, 0, 0, 3], vec![0x27, 1, 0, 0, 0, 4, 5]];
    for (timestamp, payload) in [5000u32, 5040, 5100].into_iter().zip(payloads.iter()) {
        let reactions = publisher.on_unit(H264Data::new(timestamp, Bytes::from(payload.clone())));
        assert_eq!(reactions.failure, None);
        assert_eq!(shape(&reactions), "wf");
        assert_eq!(publisher.current_state(), RtmpPublishState::Publishing);
        server.take(&written(&reactions));
    }
    let received: Vec<(u32, Vec<u8>)> = server
        .events
        .iter()
        .filter_map(|event| match event {
            ServerSessionEvent::VideoDataReceived { timestamp, data, .. } => {
                Some((timestamp.value, data.to_vec()))
            }
            _ => None,
        })
        .collect();
    assert_eq!(
        received,
        vec![(0, payloads[0].clone()), (40, payloads[1].clone()), (100, payloads[2].clone())]
    );
}

#[test]
fn timestamps_of_the_end_to_end_scenario() {
    let (mut publisher, mut server) = publishing();
    server.events.clear();
    for timestamp in [0u32, 90000, 180000] {
        let reactions =
            publisher.on_unit(H264Data::new(timestamp, Bytes::from_static(&[0x27, 1, 0, 0, 0])));
        assert_eq!(reactions.failure, None);
        server.take(&written(&reactions));
    }
    let received: Vec<u32> = server
        .events
        .iter()
        .filter_map(|event| match event {
            ServerSessionEvent::VideoDataReceived { timestamp, .. } => Some(timestamp.value),
            _ => None,
        })
        .collect();
    assert_eq!(received, vec![0, 90000, 180000]);
}

#[test]
fn configuration_is_passed_over_while_publishing() {
    let (mut publisher, _server) = publishing();
    let record = AVCDecoderConfigurationRecord::new(0x42, 0x15);
    let reactions =
        publisher.on_unit(H264Data::configuration(Bytes::from_static(&[1, 2, 3]), record));
    assert_eq!(reactions.failure, None);
    assert!(reactions.actions.is_empty());
    assert_eq!(publisher.current_state(), RtmpPublishState::Publishing);
}

#[test]
fn older_unit_goes_out_at_the_wrapped_distance() {
    let (mut publisher, mut server) = publishing();
    server.events.clear();
    for timestamp in [10u32, 9, 12] {
        let reactions =
            publisher.on_unit(H264Data::new(timestamp, Bytes::from_static(&[0x27, 1, 0, 0, 0])));
        assert_eq!(reactions.failure, None);
        assert_eq!(shape(&reactions), "wf");
        assert_eq!(publisher.current_state(), RtmpPublishState::Publishing);
        server.take(&written(&reactions));
    }
    let received: Vec<u32> = server
        .events
        .iter()
        .filter_map(|event| match event {
            ServerSessionEvent::VideoDataReceived { timestamp, .. } => Some(timestamp.value),
            _ => None,
        })
        .collect();
    assert_eq!(received, vec![0, u32::MAX, 2]);
}

#[test]
fn close_closes_from_every_state() {
    let mut publisher = RtmpPublisher::new();
    publisher.close();
    assert_eq!(publisher.current_state(), RtmpPublishState::Closed);

    let mut publisher = RtmpPublisher::new();
    publisher.begin_handshake();
    publisher.close();
    assert_eq!(publisher.current_state(), RtmpPublishState::Closed);

    let (mut publisher, _server) = connected();
    publisher.close();
    assert_eq!(publisher.current_state(), RtmpPublishState::Closed);

    let (mut publisher, _server) = publishing();
    publisher.close();
    assert_eq!(publisher.current_state(), RtmpPublishState::Closed);
    let reactions = publisher.on_unit(H264Data::new(0, Bytes::new()));
    assert_eq!(reactions.failure, Some(PublishError::InvalidState));
}

#[test]
fn only_a_packet_answers_a_request() {
    assert_eq!(outbound_packet(None), Err(PublishError::Session));
    assert_eq!(outbound_packet(Some(SessionOutput::Outbound(vec![1, 2]))), Ok(vec![1, 2]));
    assert_eq!(outbound_packet(Some(SessionOutput::Outbound(vec![]))), Ok(vec![]));
    assert_eq!(
        outbound_packet(Some(SessionOutput::ConnectionAccepted)),
        Err(PublishError::NotOutbound)
    );
    assert_eq!(
        outbound_packet(Some(SessionOutput::PublishAccepted)),
        Err(PublishError::NotOutbound)
    );
    assert_eq!(outbound_packet(Some(SessionOutput::OtherEvent)), Err(PublishError::NotOutbound));
    assert_eq!(outbound_packet(Some(SessionOutput::Unhandleable)), Err(PublishError::NotOutbound));
}

#[test]
fn requests_follow_the_state() {
    for state in all_states() {
        assert_eq!(
            request(state, &SessionOutput::ConnectionAccepted),
            if state == RtmpPublishState::Connected {
                Request::Publishing
            } else {
                Request::Nothing
            }
        );
        assert_eq!(
            request(state, &SessionOutput::PublishAccepted),
            if state == RtmpPublishState::PublishRequested {
                Request::Metadata
            } else {
                Request::Nothing
            }
        );
        assert_eq!(request(state, &SessionOutput::Outbound(vec![1])), Request::Nothing);
        assert_eq!(request(state, &SessionOutput::OtherEvent), Request::Nothing);
        assert_eq!(request(state, &SessionOutput::Unhandleable), Request::Nothing);
    }
}

#[test]
fn packets_of_the_session_are_written() {
    let (state, reactions) =
        react(RtmpPublishState::Publishing, SessionOutput::Outbound(vec![7, 8]), None);
    assert_eq!(state, RtmpPublishState::Publishing);
    assert_eq!(reactions.actions, vec![Action::Write(vec![7, 8])]);
    assert_eq!(reactions.failure, None);
}

#[test]
fn accepted_connection_requests_publishing() {
    let (state, reactions) = react(
        RtmpPublishState::Connected,
        SessionOutput::ConnectionAccepted,
        Some(SessionOutput::Outbound(vec![1])),
    );
    assert_eq!(state, RtmpPublishState::PublishRequested);
    assert_eq!(reactions.actions, vec![Action::Write(vec![1]), Action::Flush]);
    assert_eq!(reactions.failure, None);
}

#[test]
fn accepted_publish_request_starts_the_units() {
    let (state, reactions) = react(
        RtmpPublishState::PublishRequested,
        SessionOutput::PublishAccepted,
        Some(SessionOutput::Outbound(vec![2, 3])),
    );
    assert_eq!(state, RtmpPublishState::Publishing);
    assert_eq!(
        reactions.actions,
        vec![Action::Write(vec![2, 3]), Action::Flush, Action::PublishUnits]
    );
    assert_eq!(reactions.failure, None);
}

#[test]
fn refused_or_odd_answers_close_the_session() {
    let (state, reactions) =
        react(RtmpPublishState::Connected, SessionOutput::ConnectionAccepted, None);
    assert_eq!(state, RtmpPublishState::Closed);
    assert!(reactions.actions.is_empty());
    assert_eq!(reactions.failure, Some(PublishError::Session));

    let (state, reactions) = react(
        RtmpPublishState::PublishRequested,
        SessionOutput::PublishAccepted,
        Some(SessionOutput::OtherEvent),
    );
    assert_eq!(state, RtmpPublishState::Closed);
    assert!(reactions.actions.is_empty());
    assert_eq!(reactions.failure, Some(PublishError::NotOutbound));
}

#[test]
fn acceptance_out_of_turn_closes_the_session() {
    for state in all_states() {
        if state == RtmpPublishState::Connected {
            continue;
        }
        let (next, reactions) = react(
            state,
            SessionOutput::ConnectionAccepted,
            Some(SessionOutput::Outbound(vec![1])),
        );
        assert_eq!(next, RtmpPublishState::Closed);
        assert!(reactions.actions.is_empty());
        assert_eq!(reactions.failure, Some(PublishError::UnexpectedEvent));
    }
    for state in all_states() {
        if state == RtmpPublishState::PublishRequested {
            continue;
        }
        let (next, reactions) = react(
            state,
            SessionOutput::PublishAccepted,
            Some(SessionOutput::Outbound(vec![1])),
        );
        assert_eq!(next, RtmpPublishState::Closed);
        assert!(reactions.actions.is_empty());
        assert_eq!(reactions.failure, Some(PublishError::UnexpectedEvent));
    }
}

#[test]
fn other_outputs_are_passed_over() {
    for output in [SessionOutput::OtherEvent, SessionOutput::Unhandleable] {
        let (state, reactions) = react(RtmpPublishState::Connected, output, None);
        assert_eq!(state, RtmpPublishState::Connected);
        assert!(reactions.actions.is_empty());
        assert_eq!(reactions.failure, None);
    }
}

#[test]
fn packet_of_an_answer_is_written_and_flushed() {
    for state in all_states() {
        let (next, reactions) =
            send_outbound_packet(state, Some(SessionOutput::Outbound(vec![1, 2, 3])));
        assert_eq!(next, state);
        assert_eq!(reactions.actions, vec![Action::Write(vec![1, 2, 3]), Action::Flush]);
        assert_eq!(reactions.failure, None);
    }
}

#[test]
fn answer_that_is_no_packet_closes_the_session() {
    let (next, reactions) = send_outbound_packet(RtmpPublishState::Publishing, None);
    assert_eq!(next, RtmpPublishState::Closed);
    assert!(reactions.actions.is_empty());
    assert_eq!(reactions.failure, Some(PublishError::Session));
    for output in [
        SessionOutput::ConnectionAccepted,
        SessionOutput::PublishAccepted,
        SessionOutput::OtherEvent,
        SessionOutput::Unhandleable,
    ] {
        let (next, reactions) = send_outbound_packet(RtmpPublishState::Publishing, Some(output));
        assert_eq!(next, RtmpPublishState::Closed);
        assert!(reactions.actions.is_empty());
        assert_eq!(reactions.failure, Some(PublishError::NotOutbound));
    }
}

#[test]
fn answers_to_the_connection_request() {
    let (next, reactions) = connection_answered(Some(SessionOutput::Outbound(vec![9])));
    assert_eq!(next, RtmpPublishState::Connected);
    assert_eq!(reactions.actions, vec![Action::Write(vec![9]), Action::Flush]);
    assert_eq!(reactions.failure, None);

    let (next, reactions) = connection_answered(Some(SessionOutput::OtherEvent));
    assert_eq!(next, RtmpPublishState::Connected);
    assert!(reactions.actions.is_empty());
    assert_eq!(reactions.failure, None);

    let (next, reactions) = connection_answered(None);
    assert_eq!(next, RtmpPublishState::Closed);
    assert!(reactions.actions.is_empty());
    assert_eq!(reactions.failure, Some(PublishError::Session));
}

#[test]
fn answers_of_the_handshake_are_written() {
    assert_eq!(respond(vec![], false), vec![]);
    assert_eq!(respond(vec![], true), vec![]);
    assert_eq!(respond(vec![1, 2], false), vec![Action::Write(vec![1, 2]), Action::Flush]);
    assert_eq!(respond(vec![1, 2], true), vec![Action::Write(vec![1, 2])]);
}

#[test]
fn command_clones_with_its_application() {
    let command = Command::Publish { app: String::from("live") };
    let Command::Publish { app } = command.clone();
    assert_eq!(app, "live");
    let Command::Publish { app } = command;
    assert_eq!(app, "live");
}

/// The start of a message of 5000 bytes: its header and the 4096 bytes
/// that fit the chunk size that the server has set.
fn first_chunk_of_a_long_message() -> Vec<u8> {
    let mut bytes = vec![0x03, 0, 0, 0, 0, 0x13, 0x88, 99, 0, 0, 0, 0];
    bytes.extend_from_slice(&[7; 4096]);
    bytes
}

#[test]
fn shorter_length_inside_a_message_closes_the_session() {
    let (mut publisher, _server) = connected();
    let mut bytes = first_chunk_of_a_long_message();
    bytes.extend_from_slice(&[0x43, 0, 0, 0, 0, 0, 100, 99]);
    let reactions = publisher.on_input(&bytes);
    assert_eq!(reactions.failure, Some(PublishError::Session));
    assert!(reactions.actions.is_empty());
    assert_eq!(publisher.current_state(), RtmpPublishState::Closed);
}

#[test]
fn shorter_length_in_a_later_input_closes_the_session() {
    let (mut publisher, _server) = connected();
    let reactions = publisher.on_input(&first_chunk_of_a_long_message());
    assert_eq!(reactions.failure, None);
    assert_eq!(publisher.current_state(), RtmpPublishState::Connected);
    let reactions = publisher.on_input(&[0x43, 0, 0, 0, 0, 0, 100, 99]);
    assert_eq!(reactions.failure, Some(PublishError::Session));
    assert_eq!(publisher.current_state(), RtmpPublishState::Closed);
}

#[test]
fn small_extended_timestamp_behind_a_delta_closes_the_session() {
    let (mut publisher, _server) = connected();
    let bytes = [
        0x03, 0, 0, 0, 0, 0, 1, 99, 0, 0, 0, 0, 0xaa, 0x43, 0xff, 0xff, 0xff, 0, 0, 1, 99, 0, 0,
        0, 5,
    ];
    let reactions = publisher.on_input(&bytes);
    assert_eq!(reactions.failure, Some(PublishError::Session));
    assert!(reactions.actions.is_empty());
    assert_eq!(publisher.current_state(), RtmpPublishState::Closed);
}

#[test]
fn message_in_two_chunks_is_taken() {
    let (mut publisher, _server) = connected();
    let mut bytes = first_chunk_of_a_long_message();
    bytes.push(0xc3);
    bytes.extend_from_slice(&[7; 904]);
    let reactions = publisher.on_input(&bytes);
    assert_eq!(reactions.failure, None);
    assert_eq!(reactions.actions, vec![Action::Flush]);
    assert_eq!(publisher.current_state(), RtmpPublishState::Connected);
}

#[test]
fn bytes_behind_the_handshake_that_may_not_be_given_close_the_session() {
    let mut publisher = RtmpPublisher::new();
    let mut server = Server::new();
    let first = publisher.begin_handshake();
    let mut to_client = server.take(&written(&first));
    to_client.extend_from_slice(&[0x03, 0, 0, 0, 0, 0, 200, 9, 0, 0, 0, 0]);
    to_client.extend_from_slice(&[7; 128]);
    to_client.extend_from_slice(&[0x43, 0, 0, 0, 0, 0, 100, 9]);
    let reactions = publisher.on_handshake_bytes(&to_client);
    assert_eq!(shape(&reactions), "w");
    assert_eq!(reactions.failure, Some(PublishError::Session));
    assert_eq!(publisher.current_state(), RtmpPublishState::Closed);
}

#[test]
fn what_the_session_is_told_of_the_stream() {
    assert_eq!(target_url(), "rtmp://localhost/live");
    assert_eq!(stream_key(), "gengteng");
    let announced = stream_metadata();
    assert_eq!(announced.encoder, "rtc2rtmp/0.1.0");
    assert_eq!(announced.video_width, 320);
    assert_eq!(announced.video_height, 240);
    assert_eq!(announced.video_codec_id, 7);
}

#[test]
fn video_message_carries_the_bytes_at_the_realigned_timestamp() {
    let mut aligner = TimestampAligner::new();
    let message =
        video_message(&mut aligner, H264Data::new(5000, Bytes::from_static(&[1, 2]))).unwrap();
    assert_eq!(message.data.as_ref(), &[1, 2]);
    assert_eq!(message.timestamp, 0);
    assert!(message.can_be_dropped);
    let message =
        video_message(&mut aligner, H264Data::new(5040, Bytes::from_static(&[3]))).unwrap();
    assert_eq!(message.data.as_ref(), &[3]);
    assert_eq!(message.timestamp, 40);
    assert!(message.can_be_dropped);
    assert_eq!(aligner.current(), 40);
    let message = video_message(&mut aligner, H264Data::new(5039, Bytes::new())).unwrap();
    assert_eq!(message.timestamp, 39);
}

#[test]
fn configuration_makes_no_video_message() {
    let mut aligner = TimestampAligner::new();
    assert!(video_message(&mut aligner, H264Data::new(10, Bytes::new())).is_some());
    let before = aligner;
    let record = AVCDecoderConfigurationRecord::new(0x42, 0x15);
    let made =
        video_message(&mut aligner, H264Data::configuration(Bytes::from_static(&[1]), record));
    assert!(made.is_none());
    assert_eq!(aligner, before);
}

#[test]
fn long_message_in_amf_closes_the_session() {
    let (mut publisher, _server) = connected();
    let mut bytes = vec![0x03, 0, 0, 0, 0, 0x10, 0x01, 20, 0, 0, 0, 0];
    bytes.extend_from_slice(&[0x0a; 4096]);
    bytes.push(0xc3);
    bytes.push(0x0a);
    let reactions = publisher.on_input(&bytes);
    assert_eq!(reactions.failure, Some(PublishError::Session));
    assert!(reactions.actions.is_empty());
    assert_eq!(publisher.current_state(), RtmpPublishState::Closed);
}

#[test]
fn command_without_its_values_closes_the_session() {
    for type_id in [20u8, 17] {
        let (mut publisher, _server) = connected();
        let reactions = publisher.on_input(&[0x03, 0, 0, 0, 0, 0, 0, type_id, 0, 0, 0, 0]);
        assert_eq!(reactions.failure, Some(PublishError::Session));
        assert!(reactions.actions.is_empty());
        assert_eq!(publisher.current_state(), RtmpPublishState::Closed);

        let (mut publisher, _server) = connected();
        let reactions = publisher
            .on_input(&[0x03, 0, 0, 0, 0, 0, 5, type_id, 0, 0, 0, 0, 0x02, 0, 1, 0x61, 0x05]);
        assert_eq!(reactions.failure, Some(PublishError::Session));
        assert_eq!(publisher.current_state(), RtmpPublishState::Closed);
    }
}

#[test]
fn command_behind_the_handshake_without_its_values_closes_the_session() {
    let mut publisher = RtmpPublisher::new();
    let mut server = Server::new();
    let first = publisher.begin_handshake();
    let mut to_client = server.take(&written(&first));
    to_client.extend_from_slice(&[0x03, 0, 0, 0, 0, 0, 0, 20, 0, 0, 0, 0]);
    let reactions = publisher.on_handshake_bytes(&to_client);
    assert_eq!(shape(&reactions), "w");
    assert_eq!(reactions.failure, Some(PublishError::Session));
    assert_eq!(publisher.current_state(), RtmpPublishState::Closed);
}

#[test]
fn command_that_the_session_does_not_know_is_handed_on() {
    let (mut publisher, _server) = connected();
    let mut bytes = vec![0x03, 0, 0, 0, 0, 0, 14, 20, 0, 0, 0, 0];
    bytes.extend_from_slice(&[0x02, 0, 1, 0x61, 0x00, 0, 0, 0, 0, 0, 0, 0, 0, 0x05]);
    let reactions = publisher.on_input(&bytes);
    assert_eq!(reactions.failure, None);
    assert_eq!(publisher.current_state(), RtmpPublishState::Connected);
}
