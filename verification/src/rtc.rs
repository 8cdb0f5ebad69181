//! The ingestion of one video track: from RTP payloads to the units that go
//! down the pipeline.
//!
//! Payloads are dropped until one announces a key frame. That one must be a
//! STAP-A aggregation; its parameter sets make the configuration of the
//! stream, which goes out once and first. Every later payload goes through
//! the depacketizer, and what it completes goes out as coded data.
//!
//! Coded data is stamped with the RTP timestamp divided by the clock rate,
//! that is in whole seconds: the division discards what lies between two
//! seconds, so that at a clock rate of 90000 all frames of one second carry
//! the same timestamp.

use crate::buffer::{bytes_as_slice, bytes_view};
use crate::error::NegotiationError;
use crate::h264::{AVCDecoderConfigurationRecord, H264Data, RecordModel, UnitModel};
use crate::nal::{
    announces_key_frame, is_key_frame, nalu_type, parse_key_frame, parsed_key_frame, stap_units,
    units_well_formed,
};
use bytes::Bytes;
use vstd::prelude::*;
use vstd::slice::slice_subrange;
use webrtc::rtp::codecs::h264::H264Packet;
use webrtc::rtp::packetizer::Depacketizer;

verus! {

/// `rtp::codecs::h264::H264Packet` as `webrtc` hands it on: the depacketizer
/// of an H.264 track, with the fragments that it has kept. Opaque to the
/// verifier.
#[verifier::external_type_specification]
#[verifier::external_body]
pub struct ExH264Packet(H264Packet);

/// `rtp::Error` as `webrtc` hands it on: why the depacketizer refused a
/// payload. Opaque to the verifier.
#[verifier::external_type_specification]
#[verifier::external_body]
pub struct ExRtpError(webrtc::rtp::Error);

/// The payloads that the depacketizer may be given: one of type STAP-A must
/// divide into units behind its header byte. (On an aggregation that ends
/// inside a length the depacketizer reads past the end of the payload.)
pub open spec fn depacketizer_accepts(payload: Seq<u8>) -> bool {
    payload.len() > 0 && nalu_type(payload[0]) == 24 ==> stap_units(payload.skip(1)).is_some()
}

/// `H264Packet::default()`: a depacketizer that has seen no payload.
#[verifier::external_body]
fn new_depacketizer() -> H264Packet {
    H264Packet::default()
}

/// `<H264Packet as Depacketizer>::depacketize`. What comes back depends on
/// the fragments that the depacketizer has kept from earlier payloads, so
/// nothing is claimed of it; the precondition keeps away the payloads on
/// which it does not return.
#[verifier::external_body]
fn depacketize(depacketizer: &mut H264Packet, payload: &Bytes) -> (unit: Result<
    Bytes,
    webrtc::rtp::Error,
>)
    requires
        depacketizer_accepts(bytes_view(*payload)),
{
    depacketizer.depacketize(payload)
}

/// What the depacketizer answered, as a mathematical value.
pub open spec fn answer_model(depacketized: Option<Bytes>) -> Option<Seq<u8>> {
    match depacketized {
        Some(bytes) => Some(bytes_view(bytes)),
        None => None,
    }
}

/// Where the ingestion of a track stands.
#[derive(Debug, Clone, Copy, PartialEq, Eq, Structural)]
pub enum IngestState {
    /// No key frame has been seen; payloads are dropped.
    AwaitingKeyFrame,
    /// The configuration has gone out; coded data follows.
    Streaming,
    /// The track has been given up.
    Terminated,
}

/// Why a track is given up.
#[derive(Debug, Clone, Copy, PartialEq, Eq, Structural)]
pub enum IngestError {
    /// The first key frame does not hold a usable configuration.
    Negotiation(NegotiationError),
    /// The depacketizer refused a payload.
    Depacketize,
    /// The track had been given up before.
    Terminated,
}

/// What a payload led to.
#[derive(Debug)]
pub enum Ingested {
    /// Nothing goes out.
    Dropped,
    /// This unit goes out.
    Unit(H264Data),
    /// The track is given up.
    Fatal(IngestError),
}

/// What a payload led to, as a mathematical value.
pub enum IngestedModel {
    Dropped,
    Unit(UnitModel),
    Fatal(IngestError),
}

impl View for Ingested {
    type V = IngestedModel;

    open spec fn view(&self) -> IngestedModel {
        match *self {
            Ingested::Dropped => IngestedModel::Dropped,
            Ingested::Unit(unit) => IngestedModel::Unit(unit@),
            Ingested::Fatal(e) => IngestedModel::Fatal(e),
        }
    }
}

/// What is decided for a payload before the depacketizer is asked.
pub enum Plan {
    /// The payload is dropped.
    Drop,
    /// The track is given up.
    Fail(IngestError),
    /// The payload is the first key frame; the depacketizer gives the bytes
    /// that go out with this record.
    Configure(RecordModel),
    /// The depacketizer gives the coded data that goes out.
    Forward,
}

/// The plan for a payload in a given state.
pub open spec fn planned(state: IngestState, profile: u8, level: u8, payload: Seq<u8>) -> Plan {
    match state {
        IngestState::Terminated => Plan::Fail(IngestError::Terminated),
        IngestState::AwaitingKeyFrame => if !announces_key_frame(payload) {
            Plan::Drop
        } else {
            match parsed_key_frame(payload, profile, level) {
                Err(e) => Plan::Fail(IngestError::Negotiation(e)),
                Ok(record) => Plan::Configure(record),
            }
        },
        IngestState::Streaming => if depacketizer_accepts(payload) {
            Plan::Forward
        } else {
            Plan::Fail(IngestError::Depacketize)
        },
    }
}

/// The state after a payload and what the payload led to, given what the
/// depacketizer made of it (`None`: it refused) where the plan asks it.
pub open spec fn concluded(
    state: IngestState,
    plan: Plan,
    clock_rate: u32,
    timestamp: u32,
    depacketized: Option<Seq<u8>>,
) -> (IngestState, IngestedModel) {
    match plan {
        Plan::Drop => (state, IngestedModel::Dropped),
        Plan::Fail(e) => (IngestState::Terminated, IngestedModel::Fatal(e)),
        Plan::Configure(record) => match depacketized {
            None => (IngestState::Terminated, IngestedModel::Fatal(IngestError::Depacketize)),
            Some(raw) => (
                IngestState::Streaming,
                IngestedModel::Unit(UnitModel::Configuration { raw, record }),
            ),
        },
        Plan::Forward => match depacketized {
            None => (IngestState::Terminated, IngestedModel::Fatal(IngestError::Depacketize)),
            Some(data) => if data.len() == 0 {
                (state, IngestedModel::Dropped)
            } else {
                (
                    state,
                    IngestedModel::Unit(
                        UnitModel::Data { timestamp: timestamp / clock_rate, data },
                    ),
                )
            },
        },
    }
}

/// One step of the ingestion: the state after a payload and what the payload
/// led to.
pub open spec fn step(
    state: IngestState,
    profile: u8,
    level: u8,
    clock_rate: u32,
    payload: Seq<u8>,
    timestamp: u32,
    depacketized: Option<Seq<u8>>,
) -> (IngestState, IngestedModel) {
    concluded(state, planned(state, profile, level, payload), clock_rate, timestamp, depacketized)
}

/// Whether a step asks the depacketizer.
pub open spec fn consults_depacketizer(
    state: IngestState,
    profile: u8,
    level: u8,
    payload: Seq<u8>,
) -> bool {
    match planned(state, profile, level, payload) {
        Plan::Configure(_) => true,
        Plan::Forward => true,
        _ => false,
    }
}

/// A first key frame that holds a configuration may be given to the
/// depacketizer.
proof fn lemma_key_frame_accepted(payload: Seq<u8>, profile: u8, level: u8)
    requires
        parsed_key_frame(payload, profile, level).is_ok(),
    ensures
        depacketizer_accepts(payload),
{
}

/// The plan of a step, with the record of a first key frame.
enum Planned {
    Drop,
    Fail(IngestError),
    Configure(AVCDecoderConfigurationRecord),
    Forward,
}

impl Planned {
    spec fn model(&self) -> Plan {
        match *self {
            Planned::Drop => Plan::Drop,
            Planned::Fail(e) => Plan::Fail(e),
            Planned::Configure(record) => Plan::Configure(record@),
            Planned::Forward => Plan::Forward,
        }
    }
}

/// Whether the depacketizer may be given the payload.
fn accepted_by_depacketizer(payload: &[u8]) -> (ok: bool)
    ensures
        ok == depacketizer_accepts(payload@),
{
    if payload.len() > 0 && payload[0] & 0x1F == 24 {
        let body = slice_subrange(payload, 1, payload.len());
        assert(body@ =~= payload@.skip(1));
        units_well_formed(body)
    } else {
        true
    }
}

fn plan(state: IngestState, profile: u8, level: u8, payload: &[u8]) -> (plan: Planned)
    ensures
        plan.model() == planned(state, profile, level, payload@),
{
    match state {
        IngestState::Terminated => Planned::Fail(IngestError::Terminated),
        IngestState::AwaitingKeyFrame => {
            if !is_key_frame(payload) {
                Planned::Drop
            } else {
                match parse_key_frame(payload, profile, level) {
                    Err(e) => Planned::Fail(IngestError::Negotiation(e)),
                    Ok(record) => Planned::Configure(record),
                }
            }
        },
        IngestState::Streaming => {
            if accepted_by_depacketizer(payload) {
                Planned::Forward
            } else {
                Planned::Fail(IngestError::Depacketize)
            }
        },
    }
}

fn conclude(
    state: IngestState,
    plan: Planned,
    clock_rate: u32,
    timestamp: u32,
    depacketized: Option<Bytes>,
) -> (next: (IngestState, Ingested))
    requires
        clock_rate > 0,
    ensures
        (next.0, next.1@) == concluded(
            state,
            plan.model(),
            clock_rate,
            timestamp,
            answer_model(depacketized),
        ),
{
    match plan {
        Planned::Drop => (state, Ingested::Dropped),
        Planned::Fail(e) => (IngestState::Terminated, Ingested::Fatal(e)),
        Planned::Configure(record) => match depacketized {
            None => (IngestState::Terminated, Ingested::Fatal(IngestError::Depacketize)),
            Some(raw) => (
                IngestState::Streaming,
                Ingested::Unit(H264Data::configuration(raw, record)),
            ),
        },
        Planned::Forward => match depacketized {
            None => (IngestState::Terminated, Ingested::Fatal(IngestError::Depacketize)),
            Some(data) => {
                if bytes_as_slice(&data).len() == 0 {
                    (state, Ingested::Dropped)
                } else {
                    (state, Ingested::Unit(H264Data::new(timestamp / clock_rate, data)))
                }
            },
        },
    }
}

/// One step of the ingestion on plain values: `depacketized` is what the
/// depacketizer made of the payload (`None`: it refused). It is looked at
/// only where the step asks the depacketizer.
pub fn advance(
    state: IngestState,
    profile: u8,
    level: u8,
    clock_rate: u32,
    payload: &[u8],
    timestamp: u32,
    depacketized: Option<Bytes>,
) -> (next: (IngestState, Ingested))
    requires
        clock_rate > 0,
    ensures
        (next.0, next.1@) == step(
            state,
            profile,
            level,
            clock_rate,
            payload@,
            timestamp,
            answer_model(depacketized),
        ),
{
    let plan = plan(state, profile, level, payload);
    conclude(state, plan, clock_rate, timestamp, depacketized)
}

/// What the ingestion of a track knows of it.
struct Track {
    state: IngestState,
    profile_indication: u8,
    level_indication: u8,
    clock_rate: u32,
}

impl Track {
    /// The clock makes at least one tick in a second.
    #[verifier::type_invariant]
    spec fn inv(self) -> bool {
        self.clock_rate > 0
    }
}

/// The ingestion of one video track.
pub struct RtpIngestion {
    track: Track,
    depacketizer: H264Packet,
}

impl RtpIngestion {
    /// Where the ingestion stands.
    pub closed spec fn state(self) -> IngestState {
        self.track.state
    }

    /// The negotiated profile indication.
    pub closed spec fn profile_indication(self) -> u8 {
        self.track.profile_indication
    }

    /// The negotiated level indication.
    pub closed spec fn level_indication(self) -> u8 {
        self.track.level_indication
    }

    /// The number of RTP clock ticks in a second.
    pub closed spec fn clock_rate(self) -> u32 {
        self.track.clock_rate
    }

    /// The ingestion of a track that was negotiated with the given profile
    /// and level and whose RTP clock makes `clock_rate` ticks in a second.
    pub fn new(profile_indication: u8, level_indication: u8, clock_rate: u32) -> (ingestion: Self)
        requires
            clock_rate > 0,
        ensures
            ingestion.state() == IngestState::AwaitingKeyFrame,
            ingestion.profile_indication() == profile_indication,
            ingestion.level_indication() == level_indication,
            ingestion.clock_rate() == clock_rate,
    {
        RtpIngestion {
            track: Track {
                state: IngestState::AwaitingKeyFrame,
                profile_indication,
                level_indication,
                clock_rate,
            },
            depacketizer: new_depacketizer(),
        }
    }

    /// Where the ingestion stands.
    pub fn current_state(&self) -> (state: IngestState)
        ensures
            state == self.state(),
    {
        self.track.state
    }

    /// Takes the payload of one RTP packet and the timestamp of its header.
    ///
    /// What comes back is one step of the ingestion. Where the step does
    /// not ask the depacketizer, it is determined by the payload alone;
    /// where it does, it is the step for what the depacketizer answered.
    pub fn on_packet(&mut self, payload: &Bytes, timestamp: u32) -> (out: Ingested)
        ensures
            final(self).profile_indication() == old(self).profile_indication(),
            final(self).level_indication() == old(self).level_indication(),
            final(self).clock_rate() == old(self).clock_rate(),
            exists|depacketized: Option<Seq<u8>>|
                (final(self).state(), out@) == step(
                    old(self).state(),
                    old(self).profile_indication(),
                    old(self).level_indication(),
                    old(self).clock_rate(),
                    bytes_view(*payload),
                    timestamp,
                    depacketized,
                ),
            !consults_depacketizer(
                old(self).state(),
                old(self).profile_indication(),
                old(self).level_indication(),
                bytes_view(*payload),
            ) ==> (final(self).state(), out@) == step(
                old(self).state(),
                old(self).profile_indication(),
                old(self).level_indication(),
                old(self).clock_rate(),
                bytes_view(*payload),
                timestamp,
                None,
            ),
    {
        proof {
            use_type_invariant(&self.track);
        }
        let bytes = bytes_as_slice(payload);
        let plan = plan(
            self.track.state,
            self.track.profile_indication,
            self.track.level_indication,
            bytes,
        );
        let asks = match plan {
            Planned::Configure(_) => true,
            Planned::Forward => true,
            _ => false,
        };
        let depacketized = if asks {
            proof {
                if plan.model() is Configure {
                    lemma_key_frame_accepted(
                        bytes@,
                        self.track.profile_indication,
                        self.track.level_indication,
                    );
                }
            }
            match depacketize(&mut self.depacketizer, payload) {
                Ok(unit) => Some(unit),
                Err(_) => None,
            }
        } else {
            None
        };
        let ghost answer = answer_model(depacketized);
        let (next, out) = conclude(
            self.track.state,
            plan,
            self.track.clock_rate,
            timestamp,
            depacketized,
        );
        self.track.state = next;
        assert((next, out@) == step(
            old(self).state(),
            old(self).profile_indication(),
            old(self).level_indication(),
            old(self).clock_rate(),
            bytes_view(*payload),
            timestamp,
            answer,
        ));
        out
    }
}

/// One payload as the ingestion meets it: what the packet held, and what the
/// depacketizer makes of it if it is asked.
pub struct Arrival {
    pub payload: Seq<u8>,
    pub timestamp: u32,
    pub depacketized: Option<Seq<u8>>,
}

/// The units that go out, in order, while the payloads of `arrivals` come in
/// one after the other.
pub open spec fn units_emitted(
    state: IngestState,
    profile: u8,
    level: u8,
    clock_rate: u32,
    arrivals: Seq<Arrival>,
) -> Seq<UnitModel>
    decreases arrivals.len(),
{
    if arrivals.len() == 0 {
        Seq::empty()
    } else {
        let first = arrivals[0];
        let (next, out) = step(
            state,
            profile,
            level,
            clock_rate,
            first.payload,
            first.timestamp,
            first.depacketized,
        );
        let head = match out {
            IngestedModel::Unit(unit) => seq![unit],
            _ => Seq::empty(),
        };
        head + units_emitted(next, profile, level, clock_rate, arrivals.skip(1))
    }
}

/// A configuration stands first and nowhere else.
pub open spec fn gated(units: Seq<UnitModel>) -> bool {
    forall|i: int| 0 <= i < units.len() ==> ((#[trigger] units[i]) is Configuration <==> i == 0)
}

/// Nothing but coded data.
pub open spec fn only_data(units: Seq<UnitModel>) -> bool {
    forall|i: int| 0 <= i < units.len() ==> (#[trigger] units[i]) is Data
}

/// A track that has been given up sends nothing.
pub proof fn lemma_terminated_is_silent(
    profile: u8,
    level: u8,
    clock_rate: u32,
    arrivals: Seq<Arrival>,
)
    ensures
        units_emitted(IngestState::Terminated, profile, level, clock_rate, arrivals).len() == 0,
    decreases arrivals.len(),
{
    if arrivals.len() > 0 {
        lemma_terminated_is_silent(profile, level, clock_rate, arrivals.skip(1));
    }
}

/// Once the configuration has gone out, only coded data follows.
pub proof fn lemma_only_data_after_key_frame(
    profile: u8,
    level: u8,
    clock_rate: u32,
    arrivals: Seq<Arrival>,
)
    ensures
        only_data(units_emitted(IngestState::Streaming, profile, level, clock_rate, arrivals)),
    decreases arrivals.len(),
{
    if arrivals.len() > 0 {
        let first = arrivals[0];
        let (next, out) = step(
            IngestState::Streaming,
            profile,
            level,
            clock_rate,
            first.payload,
            first.timestamp,
            first.depacketized,
        );
        if next == IngestState::Streaming {
            lemma_only_data_after_key_frame(profile, level, clock_rate, arrivals.skip(1));
        } else {
            lemma_terminated_is_silent(profile, level, clock_rate, arrivals.skip(1));
        }
    }
}

/// The key frame gate: whatever payloads come in, and whatever the
/// depacketizer makes of them, the units that go out are one configuration
/// followed by coded data, or nothing at all. No coded data goes out before
/// the configuration, and no second configuration follows.
pub proof fn lemma_key_frame_gate(
    profile: u8,
    level: u8,
    clock_rate: u32,
    arrivals: Seq<Arrival>,
)
    ensures
        gated(
            units_emitted(IngestState::AwaitingKeyFrame, profile, level, clock_rate, arrivals),
        ),
    decreases arrivals.len(),
{
    if arrivals.len() > 0 {
        let first = arrivals[0];
        let rest = arrivals.skip(1);
        let (next, out) = step(
            IngestState::AwaitingKeyFrame,
            profile,
            level,
            clock_rate,
            first.payload,
            first.timestamp,
            first.depacketized,
        );
        let units = units_emitted(
            IngestState::AwaitingKeyFrame,
            profile,
            level,
            clock_rate,
            arrivals,
        );
        let tail = units_emitted(next, profile, level, clock_rate, rest);
        match next {
            IngestState::AwaitingKeyFrame => {
                lemma_key_frame_gate(profile, level, clock_rate, rest);
                assert(units =~= tail);
            },
            IngestState::Streaming => {
                lemma_only_data_after_key_frame(profile, level, clock_rate, rest);
                assert(out is Unit && out->Unit_0 is Configuration);
                assert(units =~= seq![out->Unit_0] + tail);
                assert forall|i: int| 0 <= i < units.len() implies ((#[trigger] units[i])
                    is Configuration <==> i == 0) by {
                    if i > 0 {
                        assert(units[i] == tail[i - 1]);
                    }
                }
            },
            IngestState::Terminated => {
                lemma_terminated_is_silent(profile, level, clock_rate, rest);
                assert(units =~= Seq::<UnitModel>::empty());
            },
        }
    }
}

/// A first key frame with a truncated aggregation ends the track: nothing
/// goes out for it, whatever the depacketizer would have made of it.
pub proof fn lemma_truncated_key_frame_is_fatal(
    payload: Seq<u8>,
    profile: u8,
    level: u8,
    clock_rate: u32,
    timestamp: u32,
    depacketized: Option<Seq<u8>>,
)
    requires
        announces_key_frame(payload),
        payload[0] == 0x78,
        stap_units(payload.skip(1)).is_none(),
    ensures
        step(
            IngestState::AwaitingKeyFrame,
            profile,
            level,
            clock_rate,
            payload,
            timestamp,
            depacketized,
        ) == (
            IngestState::Terminated,
            IngestedModel::Fatal(IngestError::Negotiation(NegotiationError::TruncatedStapA)),
        ),
        !consults_depacketizer(IngestState::AwaitingKeyFrame, profile, level, payload),
{
}

} // verus!
