//! NAL unit headers, and the STAP-A aggregation that carries the parameter
//! sets of a stream in its first key frame.
//!
//! A first key frame looks like this (23 bytes):
//!
//! ```text
//! 78 | 00 0e | 67 42 c0 15 8c 8d 40 a0 f9 00 f0 88 46 a0 | 00 04 | 68 ce 3c 80
//! hdr| len   | sequence parameter set                    | len   | picture p. s.
//! ```
//!
//! `0x78` is `0 11 11000`: forbidden bit 0, reference 3, type 24 (STAP-A).
//! `0x67` is `0 11 00111`: type 7, a sequence parameter set.

use crate::error::NegotiationError;
use crate::h264::{
    u16_be, AVCDecoderConfigurationRecord, RecordModel, MAX_PARAMETER_SET_LEN,
    MAX_PICTURE_PARAMETER_SETS, MAX_SEQUENCE_PARAMETER_SETS,
};
use vstd::prelude::*;
use vstd::slice::{slice_subrange, slice_to_vec};

verus! {

pub const NALU_TYPE_STAP_A: u32 = 24;

pub const NALU_TYPE_SPS: u32 = 7;

pub const NALU_TYPE_BITMASK: u32 = 0x1F;

/// The header byte of the aggregation that a first key frame must start with.
pub const STAP_A_MARKER: u8 = 0x78;

/// The header byte of a sequence parameter set.
pub const SPS_HEADER: u8 = 0x67;

/// The header byte of a picture parameter set.
pub const PPS_HEADER: u8 = 0x68;

/// The type of a NAL unit: the low five bits of its header byte.
pub open spec fn nalu_type(header: u8) -> u8 {
    header & 0x1F
}

/// A payload announces a key frame if it has four bytes or more and either
/// is a sequence parameter set, or is a STAP-A aggregation whose first unit
/// (its header stands behind the two length bytes) is one.
pub open spec fn announces_key_frame(data: Seq<u8>) -> bool {
    data.len() >= 4 && (nalu_type(data[0]) == 7 || (nalu_type(data[0]) == 24 && nalu_type(data[3])
        == 7))
}

proof fn lemma_word_types(b0: u8, b1: u8, b2: u8, b3: u8)
    by (bit_vector)
    ensures
        ((((b0 as u32) << 24 | (b1 as u32) << 16 | (b2 as u32) << 8 | (b3 as u32)) >> 24) & 0x1Fu32)
            == (b0 & 0x1F) as u32,
        (((b0 as u32) << 24 | (b1 as u32) << 16 | (b2 as u32) << 8 | (b3 as u32)) & 0x1Fu32) == (b3
            & 0x1F) as u32,
{
}

/// Whether a payload announces a key frame.
pub fn is_key_frame(data: &[u8]) -> (key: bool)
    ensures
        key == announces_key_frame(data@),
{
    if data.len() < 4 {
        false
    } else {
        let word: u32 = (data[0] as u32) << 24 | (data[1] as u32) << 16 | (data[2] as u32) << 8 | (
        data[3] as u32);
        let nalu_type: u32 = (word >> 24) & NALU_TYPE_BITMASK;
        proof {
            lemma_word_types(data[0], data[1], data[2], data[3]);
        }
        (nalu_type == NALU_TYPE_STAP_A && (word & NALU_TYPE_BITMASK) == NALU_TYPE_SPS) || (nalu_type
            == NALU_TYPE_SPS)
    }
}

/// The length that two bytes declare, most significant byte first.
pub open spec fn declared_len(high: u8, low: u8) -> int {
    high as int * 256 + low as int
}

/// The units of an aggregation, in order: each stands behind the two bytes
/// that declare its length. `None` if a unit declares more bytes than are
/// left, or if a single byte is left where a length should stand.
pub open spec fn stap_units(body: Seq<u8>) -> Option<Seq<Seq<u8>>>
    decreases body.len(),
{
    if body.len() == 0 {
        Some(Seq::empty())
    } else if body.len() < 2 {
        None
    } else {
        let len = declared_len(body[0], body[1]);
        if body.len() - 2 < len {
            None
        } else {
            match stap_units(body.skip(2 + len)) {
                Some(rest) => Some(seq![body.subrange(2, 2 + len)] + rest),
                None => None,
            }
        }
    }
}

/// What one unit of the aggregation does to the record: a sequence or a
/// picture parameter set is appended, any other unit is passed over. `None`
/// if the record has no room for the parameter set.
pub open spec fn absorb(record: RecordModel, unit: Seq<u8>) -> Option<RecordModel> {
    if unit.len() > 0 && unit[0] == SPS_HEADER {
        if record.has_room_for_sps() {
            Some(record.with_sps(unit))
        } else {
            None
        }
    } else if unit.len() > 0 && unit[0] == PPS_HEADER {
        if record.has_room_for_pps() {
            Some(record.with_pps(unit))
        } else {
            None
        }
    } else {
        Some(record)
    }
}

/// What the units do to the record, one after the other.
pub open spec fn absorb_all(record: RecordModel, units: Seq<Seq<u8>>) -> Option<RecordModel>
    decreases units.len(),
{
    if units.len() == 0 {
        Some(record)
    } else {
        match absorb(record, units[0]) {
            Some(next) => absorb_all(next, units.skip(1)),
            None => None,
        }
    }
}

/// What a first key frame yields for a stream of the given profile and level.
pub open spec fn parsed_key_frame(payload: Seq<u8>, profile: u8, level: u8) -> Result<
    RecordModel,
    NegotiationError,
> {
    if payload.len() == 0 || payload[0] != STAP_A_MARKER {
        Err(NegotiationError::NotStapA)
    } else {
        match stap_units(payload.skip(1)) {
            None => Err(NegotiationError::TruncatedStapA),
            Some(units) => match absorb_all(RecordModel::empty(profile, level), units) {
                None => Err(NegotiationError::TooManyParameterSets),
                Some(record) => Ok(record),
            },
        }
    }
}

/// Whether the bytes behind the header of an aggregation divide into units.
pub fn units_well_formed(body: &[u8]) -> (ok: bool)
    ensures
        ok == stap_units(body@).is_some(),
{
    let mut offset: usize = 0;
    assert(body@.skip(0) =~= body@);
    while offset < body.len()
        invariant
            offset <= body.len(),
            stap_units(body@).is_some() == stap_units(body@.skip(offset as int)).is_some(),
        decreases body.len() - offset,
    {
        let ghost rest = body@.skip(offset as int);
        if body.len() - offset < 2 {
            return false;
        }
        let len: usize = body[offset] as usize * 256 + body[offset + 1] as usize;
        assert(len == declared_len(rest[0], rest[1]));
        if body.len() - offset - 2 < len {
            return false;
        }
        assert(rest.skip(2 + len) =~= body@.skip(offset + 2 + len));
        offset = offset + 2 + len;
    }
    assert(body@.skip(offset as int) =~= Seq::<u8>::empty());
    true
}

/// Appends the parameter sets of a well-formed aggregation to `record`.
/// Returns `false` if the record ran out of room.
fn collect_parameter_sets(body: &[u8], record: &mut AVCDecoderConfigurationRecord) -> (ok: bool)
    requires
        stap_units(body@).is_some(),
        old(record)@.wf(),
    ensures
        ok == absorb_all(old(record)@, stap_units(body@).unwrap()).is_some(),
        ok ==> final(record)@ == absorb_all(old(record)@, stap_units(body@).unwrap()).unwrap(),
        final(record)@.wf(),
{
    let mut offset: usize = 0;
    assert(body@.skip(0) =~= body@);
    while offset < body.len()
        invariant
            offset <= body.len(),
            record@.wf(),
            stap_units(body@).is_some(),
            stap_units(body@.skip(offset as int)).is_some(),
            absorb_all(old(record)@, stap_units(body@).unwrap()) == absorb_all(
                record@,
                stap_units(body@.skip(offset as int)).unwrap(),
            ),
        decreases body.len() - offset,
    {
        let ghost rest = body@.skip(offset as int);
        let ghost units = stap_units(rest).unwrap();
        let len: usize = body[offset] as usize * 256 + body[offset + 1] as usize;
        assert(len == declared_len(rest[0], rest[1]));
        assert(rest.skip(2 + len) =~= body@.skip(offset + 2 + len));
        let unit = slice_subrange(body, offset + 2, offset + 2 + len);
        assert(unit@ =~= rest.subrange(2, 2 + len));
        assert(units[0] == unit@);
        assert(units.skip(1) =~= stap_units(rest.skip(2 + len)).unwrap());
        if len > 0 && unit[0] == SPS_HEADER {
            if record.num_of_sequence_parameter_sets >= MAX_SEQUENCE_PARAMETER_SETS {
                return false;
            }
            record.add_sps(slice_to_vec(unit));
        } else if len > 0 && unit[0] == PPS_HEADER {
            if record.num_of_picture_parameter_sets >= MAX_PICTURE_PARAMETER_SETS {
                return false;
            }
            record.add_pps(slice_to_vec(unit));
        }
        offset = offset + 2 + len;
    }
    assert(body@.skip(offset as int) =~= Seq::<u8>::empty());
    true
}

/// Reads the parameter sets out of a first key frame, into a new record for
/// the given profile and level.
pub fn parse_key_frame(payload: &[u8], profile: u8, level: u8) -> (parsed: Result<
    AVCDecoderConfigurationRecord,
    NegotiationError,
>)
    ensures
        match parsed {
            Ok(record) => parsed_key_frame(payload@, profile, level) == Ok::<
                RecordModel,
                NegotiationError,
            >(record@) && record@.wf(),
            Err(e) => parsed_key_frame(payload@, profile, level) == Err::<
                RecordModel,
                NegotiationError,
            >(e),
        },
{
    if payload.len() == 0 || payload[0] != STAP_A_MARKER {
        return Err(NegotiationError::NotStapA);
    }
    let body = slice_subrange(payload, 1, payload.len());
    assert(body@ =~= payload@.skip(1));
    if !units_well_formed(body) {
        return Err(NegotiationError::TruncatedStapA);
    }
    let mut record = AVCDecoderConfigurationRecord::new(profile, level);
    if collect_parameter_sets(body, &mut record) {
        Ok(record)
    } else {
        Err(NegotiationError::TooManyParameterSets)
    }
}

/// The bytes behind the header of an aggregation that holds these units:
/// each unit behind the two bytes that declare its length.
pub open spec fn aggregation(units: Seq<Seq<u8>>) -> Seq<u8>
    decreases units.len(),
{
    if units.len() == 0 {
        Seq::empty()
    } else {
        u16_be(units[0].len() as u16) + units[0] + aggregation(units.skip(1))
    }
}

/// No unit is longer than two bytes can declare.
pub open spec fn units_fit(units: Seq<Seq<u8>>) -> bool {
    forall|i: int| 0 <= i < units.len() ==> (#[trigger] units[i]).len() <= MAX_PARAMETER_SET_LEN
}

/// An aggregation divides into the units that it was made of.
pub proof fn lemma_units_of_aggregation(units: Seq<Seq<u8>>)
    requires
        units_fit(units),
    ensures
        stap_units(aggregation(units)) == Some(units),
    decreases units.len(),
{
    if units.len() > 0 {
        let body = aggregation(units);
        let first = units[0];
        let others = units.skip(1);
        let len = first.len() as int;
        assert(body[0] == ((len as u16) / 256) as u8);
        assert(body[1] == ((len as u16) % 256) as u8);
        assert(declared_len(body[0], body[1]) == len);
        assert(body.subrange(2, 2 + len) =~= first);
        assert(body.skip(2 + len) =~= aggregation(others));
        assert(units_fit(others)) by {
            assert forall|i: int| 0 <= i < others.len() implies (#[trigger] others[i]).len()
                <= MAX_PARAMETER_SET_LEN by {
                assert(others[i] == units[i + 1]);
            }
        }
        lemma_units_of_aggregation(others);
        assert(seq![first] + others =~= units);
    }
}

/// Extraction of the parameter sets: a first key frame that aggregates one
/// sequence parameter set and one picture parameter set yields a record
/// that holds exactly these two, byte for byte.
pub proof fn lemma_key_frame_with_one_sps_and_pps(
    sps: Seq<u8>,
    pps: Seq<u8>,
    profile: u8,
    level: u8,
)
    requires
        0 < sps.len() <= MAX_PARAMETER_SET_LEN,
        0 < pps.len() <= MAX_PARAMETER_SET_LEN,
        sps[0] == SPS_HEADER,
        pps[0] == PPS_HEADER,
    ensures
        parsed_key_frame(seq![STAP_A_MARKER] + aggregation(seq![sps, pps]), profile, level) == Ok::<
            RecordModel,
            NegotiationError,
        >(RecordModel::empty(profile, level).with_sps(sps).with_pps(pps)),
        RecordModel::empty(profile, level).with_sps(sps).with_pps(pps).sequence_parameter_sets
            == seq![(sps.len() as u16, sps)],
        RecordModel::empty(profile, level).with_sps(sps).with_pps(pps).picture_parameter_sets
            == seq![(pps.len() as u16, pps)],
{
    let units = seq![sps, pps];
    let payload = seq![STAP_A_MARKER] + aggregation(units);
    assert(payload.skip(1) =~= aggregation(units));
    lemma_units_of_aggregation(units);
    let empty = RecordModel::empty(profile, level);
    assert(absorb(empty, units[0]) == Some(empty.with_sps(sps)));
    assert(units.skip(1) =~= seq![pps]);
    assert(units.skip(1).skip(1) =~= Seq::<Seq<u8>>::empty());
    assert(absorb_all(empty.with_sps(sps).with_pps(pps), units.skip(1).skip(1)) == Some(
        empty.with_sps(sps).with_pps(pps),
    ));
    assert(absorb_all(empty.with_sps(sps), units.skip(1)) == Some(
        empty.with_sps(sps).with_pps(pps),
    ));
    assert(empty.with_sps(sps).with_pps(pps).sequence_parameter_sets =~= seq![
        (sps.len() as u16, sps),
    ]);
    assert(empty.with_sps(sps).with_pps(pps).picture_parameter_sets =~= seq![
        (pps.len() as u16, pps),
    ]);
}

/// A truncated aggregation is refused: where a unit behind whole units
/// declares more bytes than follow its length, the key frame yields no
/// record but the error of truncation, whatever its other units hold.
pub proof fn lemma_truncated_aggregation_is_refused(
    units: Seq<Seq<u8>>,
    high: u8,
    low: u8,
    rest: Seq<u8>,
    profile: u8,
    level: u8,
)
    requires
        units_fit(units),
        declared_len(high, low) > rest.len(),
    ensures
        stap_units(aggregation(units) + seq![high, low] + rest).is_none(),
        parsed_key_frame(
            seq![STAP_A_MARKER] + (aggregation(units) + seq![high, low] + rest),
            profile,
            level,
        ) == Err::<RecordModel, NegotiationError>(NegotiationError::TruncatedStapA),
    decreases units.len(),
{
    let tail = seq![high, low] + rest;
    let body = aggregation(units) + seq![high, low] + rest;
    if units.len() == 0 {
        assert(body =~= tail);
        assert(body[0] == high && body[1] == low);
    } else {
        let first = units[0];
        let others = units.skip(1);
        let len = first.len() as int;
        assert(body[0] == ((len as u16) / 256) as u8);
        assert(body[1] == ((len as u16) % 256) as u8);
        assert(declared_len(body[0], body[1]) == len);
        assert(body.skip(2 + len) =~= aggregation(others) + seq![high, low] + rest);
        assert(units_fit(others)) by {
            assert forall|i: int| 0 <= i < others.len() implies (#[trigger] others[i]).len()
                <= MAX_PARAMETER_SET_LEN by {
                assert(others[i] == units[i + 1]);
            }
        }
        lemma_truncated_aggregation_is_refused(others, high, low, rest, profile, level);
    }
    assert((seq![STAP_A_MARKER] + body).skip(1) =~= body);
}

} // verus!
