//! The units that travel between the stages, and the AVC decoder
//! configuration record with its byte layout.
//!
//! ```text
//! aligned(8) class AVCDecoderConfigurationRecord {
//!     unsigned int(8) configurationVersion = 1;
//!     unsigned int(8) AVCProfileIndication;
//!     unsigned int(8) profile_compatibility;
//!     unsigned int(8) AVCLevelIndication;
//!     bit(6) reserved = '111111'b;
//!     unsigned int(2) lengthSizeMinusOne;
//!     bit(3) reserved = '111'b;
//!     unsigned int(5) numOfSequenceParameterSets;
//!     for (i = 0; i < numOfSequenceParameterSets; i++) {
//!         unsigned int(16) sequenceParameterSetLength;
//!         bit(8 * sequenceParameterSetLength) sequenceParameterSetNALUnit;
//!     }
//!     unsigned int(8) numOfPictureParameterSets;
//!     for (i = 0; i < numOfPictureParameterSets; i++) {
//!         unsigned int(16) pictureParameterSetLength;
//!         bit(8 * pictureParameterSetLength) pictureParameterSetNALUnit;
//!     }
//! }
//! ```

use crate::buffer::bytes_view;
use bytes::Bytes;
use vstd::prelude::*;

verus! {

/// Largest number of sequence parameter sets that the 5-bit count can declare.
pub const MAX_SEQUENCE_PARAMETER_SETS: u8 = 31;

/// Largest number of picture parameter sets that the 8-bit count can declare.
pub const MAX_PICTURE_PARAMETER_SETS: u8 = 255;

/// Largest parameter set that a 16-bit length can declare.
pub const MAX_PARAMETER_SET_LEN: usize = 0xFFFF;

/// The decoder configuration of one stream. Each parameter set is kept with
/// the 16-bit length that is written in front of it.
#[derive(Debug)]
pub struct AVCDecoderConfigurationRecord {
    pub configuration_version: u8,
    pub profile_indication: u8,
    pub profile_compatibility: u8,
    pub level_indication: u8,
    /// Two bits; the six bits above them are reserved.
    pub length_size_minus_one: u8,
    /// Five bits; the three bits above them are reserved.
    pub num_of_sequence_parameter_sets: u8,
    pub sequence_parameter_sets: Vec<(u16, Vec<u8>)>,
    pub num_of_picture_parameter_sets: u8,
    pub picture_parameter_sets: Vec<(u16, Vec<u8>)>,
}

/// The record as a mathematical value.
pub struct RecordModel {
    pub configuration_version: u8,
    pub profile_indication: u8,
    pub profile_compatibility: u8,
    pub level_indication: u8,
    pub length_size_minus_one: u8,
    pub num_of_sequence_parameter_sets: u8,
    pub sequence_parameter_sets: Seq<(u16, Seq<u8>)>,
    pub num_of_picture_parameter_sets: u8,
    pub picture_parameter_sets: Seq<(u16, Seq<u8>)>,
}

/// The parameter sets of a list, each with its bytes as a sequence.
pub open spec fn sets_model(sets: Seq<(u16, Vec<u8>)>) -> Seq<(u16, Seq<u8>)> {
    Seq::new(sets.len(), |i: int| (sets[i].0, sets[i].1@))
}

impl View for AVCDecoderConfigurationRecord {
    type V = RecordModel;

    open spec fn view(&self) -> RecordModel {
        RecordModel {
            configuration_version: self.configuration_version,
            profile_indication: self.profile_indication,
            profile_compatibility: self.profile_compatibility,
            level_indication: self.level_indication,
            length_size_minus_one: self.length_size_minus_one,
            num_of_sequence_parameter_sets: self.num_of_sequence_parameter_sets,
            sequence_parameter_sets: sets_model(self.sequence_parameter_sets@),
            num_of_picture_parameter_sets: self.num_of_picture_parameter_sets,
            picture_parameter_sets: sets_model(self.picture_parameter_sets@),
        }
    }
}

/// Every parameter set of the list carries its own length.
pub open spec fn lengths_exact(sets: Seq<(u16, Seq<u8>)>) -> bool {
    forall|i: int| 0 <= i < sets.len() ==> (#[trigger] sets[i]).0 == sets[i].1.len()
}

impl RecordModel {
    /// The record that `new` makes.
    pub open spec fn empty(profile_indication: u8, level_indication: u8) -> RecordModel {
        RecordModel {
            configuration_version: 1,
            profile_indication,
            profile_compatibility: 0,
            level_indication,
            length_size_minus_one: 3,
            num_of_sequence_parameter_sets: 0,
            sequence_parameter_sets: Seq::empty(),
            num_of_picture_parameter_sets: 0,
            picture_parameter_sets: Seq::empty(),
        }
    }

    /// The counts equal the lengths of the lists and fit their bit fields, and
    /// every parameter set carries its exact length.
    pub open spec fn wf(self) -> bool {
        &&& self.configuration_version == 1
        &&& self.length_size_minus_one <= 3
        &&& self.num_of_sequence_parameter_sets <= MAX_SEQUENCE_PARAMETER_SETS
        &&& self.num_of_sequence_parameter_sets == self.sequence_parameter_sets.len()
        &&& self.num_of_picture_parameter_sets == self.picture_parameter_sets.len()
        &&& lengths_exact(self.sequence_parameter_sets)
        &&& lengths_exact(self.picture_parameter_sets)
    }

    /// Whether one more sequence parameter set can be declared.
    pub open spec fn has_room_for_sps(self) -> bool {
        self.num_of_sequence_parameter_sets < MAX_SEQUENCE_PARAMETER_SETS
    }

    /// Whether one more picture parameter set can be declared.
    pub open spec fn has_room_for_pps(self) -> bool {
        self.num_of_picture_parameter_sets < MAX_PICTURE_PARAMETER_SETS
    }

    /// The record with `data` appended to its sequence parameter sets.
    pub open spec fn with_sps(self, data: Seq<u8>) -> RecordModel {
        RecordModel {
            num_of_sequence_parameter_sets: (self.num_of_sequence_parameter_sets + 1) as u8,
            sequence_parameter_sets: self.sequence_parameter_sets.push((data.len() as u16, data)),
            ..self
        }
    }

    /// The record with `data` appended to its picture parameter sets.
    pub open spec fn with_pps(self, data: Seq<u8>) -> RecordModel {
        RecordModel {
            num_of_picture_parameter_sets: (self.num_of_picture_parameter_sets + 1) as u8,
            picture_parameter_sets: self.picture_parameter_sets.push((data.len() as u16, data)),
            ..self
        }
    }
}

/// A 16-bit number, most significant byte first.
pub open spec fn u16_be(n: u16) -> Seq<u8> {
    seq![(n / 256) as u8, (n % 256) as u8]
}

/// One parameter set on the wire: its declared length, then its bytes.
pub open spec fn set_bytes(set: (u16, Seq<u8>)) -> Seq<u8> {
    u16_be(set.0) + set.1
}

/// The parameter sets of a list on the wire, one after the other.
pub open spec fn sets_bytes(sets: Seq<(u16, Seq<u8>)>) -> Seq<u8>
    decreases sets.len(),
{
    if sets.len() == 0 {
        Seq::empty()
    } else {
        set_bytes(sets[0]) + sets_bytes(sets.skip(1))
    }
}

/// The six bytes in front of the first sequence parameter set.
pub open spec fn header_bytes(r: RecordModel) -> Seq<u8> {
    seq![
        r.configuration_version,
        r.profile_indication,
        r.profile_compatibility,
        r.level_indication,
        0b1111_1100u8 | r.length_size_minus_one,
        0b1110_0000u8 | r.num_of_sequence_parameter_sets,
    ]
}

/// The record on the wire.
pub open spec fn record_bytes(r: RecordModel) -> Seq<u8> {
    header_bytes(r) + sets_bytes(r.sequence_parameter_sets) + seq![
        r.num_of_picture_parameter_sets,
    ] + sets_bytes(r.picture_parameter_sets)
}

/// Appending one parameter set to a list appends its bytes to the list's bytes.
pub proof fn lemma_sets_bytes_push(sets: Seq<(u16, Seq<u8>)>, set: (u16, Seq<u8>))
    ensures
        sets_bytes(sets.push(set)) == sets_bytes(sets) + set_bytes(set),
    decreases sets.len(),
{
    if sets.len() == 0 {
        assert(sets.push(set).skip(1) =~= sets);
        assert(sets_bytes(sets) =~= Seq::<u8>::empty());
        assert(sets_bytes(sets.push(set)) =~= sets_bytes(sets) + set_bytes(set));
    } else {
        lemma_sets_bytes_push(sets.skip(1), set);
        assert(sets.push(set).skip(1) =~= sets.skip(1).push(set));
        assert(sets.push(set)[0] == sets[0]);
        assert(sets_bytes(sets.push(set)) =~= sets_bytes(sets) + set_bytes(set));
    }
}

/// The length that the two bytes in front of a parameter set declare.
pub open spec fn declared_set_len(bytes: Seq<u8>) -> int {
    bytes[0] as int * 256 + bytes[1] as int
}

/// Reads `count` parameter sets from the front of `bytes`, each behind its
/// declared length, and gives them with the bytes that are left. `None` if
/// the bytes end before the parameter sets do.
pub open spec fn read_sets(bytes: Seq<u8>, count: nat) -> Option<(Seq<(u16, Seq<u8>)>, Seq<u8>)>
    decreases count,
{
    if count == 0 {
        Some((Seq::empty(), bytes))
    } else if bytes.len() < 2 || bytes.len() < 2 + declared_set_len(bytes) {
        None
    } else {
        let len = declared_set_len(bytes);
        match read_sets(bytes.skip(2 + len), (count - 1) as nat) {
            Some((sets, rest)) => Some(
                (seq![(len as u16, bytes.subrange(2, 2 + len))] + sets, rest),
            ),
            None => None,
        }
    }
}

/// Reads a record from its bytes, by the counts and the lengths that the
/// bytes declare. `None` if the bytes end before the record does, or go on
/// behind it.
pub open spec fn read_record(bytes: Seq<u8>) -> Option<RecordModel> {
    if bytes.len() < 6 {
        None
    } else {
        let num_sps = bytes[5] & 0b0001_1111u8;
        match read_sets(bytes.skip(6), num_sps as nat) {
            None => None,
            Some((sps, rest)) => if rest.len() < 1 {
                None
            } else {
                match read_sets(rest.skip(1), rest[0] as nat) {
                    None => None,
                    Some((pps, tail)) => if tail.len() != 0 {
                        None
                    } else {
                        Some(
                            RecordModel {
                                configuration_version: bytes[0],
                                profile_indication: bytes[1],
                                profile_compatibility: bytes[2],
                                level_indication: bytes[3],
                                length_size_minus_one: bytes[4] & 0b0000_0011u8,
                                num_of_sequence_parameter_sets: num_sps,
                                sequence_parameter_sets: sps,
                                num_of_picture_parameter_sets: rest[0],
                                picture_parameter_sets: pps,
                            },
                        )
                    },
                }
            },
        }
    }
}

proof fn lemma_reserved_bits(length_size_minus_one: u8, num_sps: u8)
    by (bit_vector)
    requires
        length_size_minus_one <= 3,
        num_sps <= 31,
    ensures
        (0b1111_1100u8 | length_size_minus_one) & 0b0000_0011u8 == length_size_minus_one,
        (0b1110_0000u8 | num_sps) & 0b0001_1111u8 == num_sps,
{
}

/// Parameter sets that carry their exact lengths are read back from their
/// bytes as they were written, whatever follows them.
pub proof fn lemma_read_sets_inverts(sets: Seq<(u16, Seq<u8>)>, rest: Seq<u8>)
    requires
        lengths_exact(sets),
    ensures
        read_sets(sets_bytes(sets) + rest, sets.len()) == Some((sets, rest)),
    decreases sets.len(),
{
    let bytes = sets_bytes(sets) + rest;
    if sets.len() == 0 {
        assert(bytes =~= rest);
    } else {
        let first = sets[0];
        let others = sets.skip(1);
        let len = first.0 as int;
        assert(first.1.len() == len);
        assert(bytes[0] == (first.0 / 256) as u8);
        assert(bytes[1] == (first.0 % 256) as u8);
        assert(declared_set_len(bytes) == len);
        assert(bytes.subrange(2, 2 + len) =~= first.1);
        assert(bytes.skip(2 + len) =~= sets_bytes(others) + rest);
        assert(lengths_exact(others)) by {
            assert forall|i: int| 0 <= i < others.len() implies (#[trigger] others[i]).0
                == others[i].1.len() by {
                assert(others[i] == sets[i + 1]);
            }
        }
        lemma_read_sets_inverts(others, rest);
        assert(seq![(len as u16, bytes.subrange(2, 2 + len))] + others =~= sets);
    }
}

/// The encode round trip: the bytes of a well-formed record start with
/// version 1 and the profile, compatibility and level of the record, and
/// read by the counts and lengths that they declare, they give back the
/// record, with every parameter set at its exact length.
pub proof fn lemma_record_round_trip(record: RecordModel)
    requires
        record.wf(),
    ensures
        record_bytes(record)[0] == 1,
        record_bytes(record)[1] == record.profile_indication,
        record_bytes(record)[2] == record.profile_compatibility,
        record_bytes(record)[3] == record.level_indication,
        record_bytes(record)[5] & 0b0001_1111u8 == record.sequence_parameter_sets.len(),
        read_record(record_bytes(record)) == Some(record),
{
    let bytes = record_bytes(record);
    let sps = record.sequence_parameter_sets;
    let pps = record.picture_parameter_sets;
    let behind_sps = seq![record.num_of_picture_parameter_sets] + sets_bytes(pps);
    lemma_reserved_bits(record.length_size_minus_one, record.num_of_sequence_parameter_sets);
    assert(bytes.skip(6) =~= sets_bytes(sps) + behind_sps);
    lemma_read_sets_inverts(sps, behind_sps);
    assert(behind_sps.skip(1) =~= sets_bytes(pps) + Seq::<u8>::empty());
    lemma_read_sets_inverts(pps, Seq::empty());
}

/// Writes the parameter sets of `sets` behind what `buffer` holds.
fn write_sets(sets: &Vec<(u16, Vec<u8>)>, buffer: &mut Vec<u8>)
    ensures
        final(buffer)@ == old(buffer)@ + sets_bytes(sets_model(sets@)),
{
    let ghost model = sets_model(sets@);
    let mut i: usize = 0;
    assert(model.take(0) =~= Seq::<(u16, Seq<u8>)>::empty());
    assert(buffer@ =~= old(buffer)@ + sets_bytes(model.take(0)));
    while i < sets.len()
        invariant
            i <= sets.len(),
            model == sets_model(sets@),
            buffer@ == old(buffer)@ + sets_bytes(model.take(i as int)),
        decreases sets.len() - i,
    {
        let len: u16 = sets[i].0;
        let ghost before = buffer@;
        buffer.push((len / 256) as u8);
        buffer.push((len % 256) as u8);
        buffer.extend_from_slice(sets[i].1.as_slice());
        proof {
            assert(buffer@ =~= before + set_bytes(model[i as int]));
            lemma_sets_bytes_push(model.take(i as int), model[i as int]);
            assert(model.take(i as int + 1) =~= model.take(i as int).push(model[i as int]));
            assert(buffer@ =~= old(buffer)@ + sets_bytes(model.take(i as int + 1)));
        }
        i = i + 1;
    }
    assert(model.take(i as int) =~= model);
}

impl AVCDecoderConfigurationRecord {
    /// A record for the given profile and level that holds no parameter set yet.
    pub fn new(profile_indication: u8, level_indication: u8) -> (record: Self)
        ensures
            record@ == RecordModel::empty(profile_indication, level_indication),
            record@.wf(),
    {
        let record = Self {
            configuration_version: 1,
            profile_indication,
            profile_compatibility: 0,
            level_indication,
            length_size_minus_one: 0b11,
            num_of_sequence_parameter_sets: 0,
            sequence_parameter_sets: Vec::new(),
            num_of_picture_parameter_sets: 0,
            picture_parameter_sets: Vec::new(),
        };
        assert(record@.sequence_parameter_sets =~= Seq::empty());
        assert(record@.picture_parameter_sets =~= Seq::empty());
        record
    }

    /// Appends a sequence parameter set and counts it. The record must have
    /// room for it in its count of five bits, and the length of the
    /// parameter set must fit the sixteen bits that declare it. A
    /// well-formed record stays well-formed.
    pub fn add_sps(&mut self, data: Vec<u8>)
        requires
            old(self)@.has_room_for_sps(),
            data@.len() <= MAX_PARAMETER_SET_LEN,
        ensures
            final(self)@ == old(self)@.with_sps(data@),
            old(self)@.wf() ==> final(self)@.wf(),
    {
        let len: u16 = data.len() as u16;
        self.num_of_sequence_parameter_sets = self.num_of_sequence_parameter_sets + 1;
        self.sequence_parameter_sets.push((len, data));
        assert(self@.sequence_parameter_sets =~= old(self)@.sequence_parameter_sets.push(
            (data@.len() as u16, data@),
        ));
    }

    /// Appends a picture parameter set and counts it. The record must have
    /// room for it in its count of eight bits, and the length of the
    /// parameter set must fit the sixteen bits that declare it. A
    /// well-formed record stays well-formed.
    pub fn add_pps(&mut self, data: Vec<u8>)
        requires
            old(self)@.has_room_for_pps(),
            data@.len() <= MAX_PARAMETER_SET_LEN,
        ensures
            final(self)@ == old(self)@.with_pps(data@),
            old(self)@.wf() ==> final(self)@.wf(),
    {
        let len: u16 = data.len() as u16;
        self.num_of_picture_parameter_sets = self.num_of_picture_parameter_sets + 1;
        self.picture_parameter_sets.push((len, data));
        assert(self@.picture_parameter_sets =~= old(self)@.picture_parameter_sets.push(
            (data@.len() as u16, data@),
        ));
    }

    /// Writes the record behind what `buffer` holds.
    pub fn write_to(&self, buffer: &mut Vec<u8>)
        ensures
            final(buffer)@ == old(buffer)@ + record_bytes(self@),
    {
        buffer.push(self.configuration_version);
        buffer.push(self.profile_indication);
        buffer.push(self.profile_compatibility);
        buffer.push(self.level_indication);
        buffer.push(0b1111_1100u8 | self.length_size_minus_one);
        buffer.push(0b1110_0000u8 | self.num_of_sequence_parameter_sets);
        assert(buffer@ =~= old(buffer)@ + header_bytes(self@));
        write_sets(&self.sequence_parameter_sets, buffer);
        buffer.push(self.num_of_picture_parameter_sets);
        write_sets(&self.picture_parameter_sets, buffer);
        assert(buffer@ =~= old(buffer)@ + record_bytes(self@));
    }
}

/// What one stage hands to the next: the configuration of the stream, sent
/// once and first, or coded data with its timestamp.
#[derive(Debug)]
pub enum H264Data {
    /// The first key frame as it was received, and the record made from it.
    Configuration { raw: Bytes, record: AVCDecoderConfigurationRecord },
    /// Coded data. The timestamp counts in the units of the stage that made it.
    Data { timestamp: u32, data: Bytes },
}

/// A unit as a mathematical value.
pub enum UnitModel {
    Configuration { raw: Seq<u8>, record: RecordModel },
    Data { timestamp: u32, data: Seq<u8> },
}

impl View for H264Data {
    type V = UnitModel;

    open spec fn view(&self) -> UnitModel {
        match *self {
            H264Data::Configuration { raw, record } => UnitModel::Configuration {
                raw: bytes_view(raw),
                record: record@,
            },
            H264Data::Data { timestamp, data } => UnitModel::Data {
                timestamp,
                data: bytes_view(data),
            },
        }
    }
}

impl UnitModel {
    /// The timestamp of coded data; a configuration stands at 0.
    pub open spec fn timestamp(self) -> u32 {
        match self {
            UnitModel::Configuration { .. } => 0,
            UnitModel::Data { timestamp, .. } => timestamp,
        }
    }

    /// The bytes that the unit carries: the coded data, or the key frame of a
    /// configuration.
    pub open spec fn payload(self) -> Seq<u8> {
        match self {
            UnitModel::Configuration { raw, .. } => raw,
            UnitModel::Data { data, .. } => data,
        }
    }
}

impl H264Data {
    /// A unit of coded data.
    pub fn new(timestamp: u32, data: Bytes) -> (unit: Self)
        ensures
            unit@ == (UnitModel::Data { timestamp, data: bytes_view(data) }),
    {
        H264Data::Data { timestamp, data }
    }

    /// The unit that announces the configuration of a stream.
    pub fn configuration(raw: Bytes, record: AVCDecoderConfigurationRecord) -> (unit: Self)
        ensures
            unit@ == (UnitModel::Configuration { raw: bytes_view(raw), record: record@ }),
    {
        H264Data::Configuration { raw, record }
    }

    /// The timestamp of coded data; 0 for a configuration.
    pub fn timestamp(&self) -> (timestamp: u32)
        ensures
            timestamp == self@.timestamp(),
    {
        match self {
            H264Data::Configuration { .. } => 0,
            H264Data::Data { timestamp, .. } => *timestamp,
        }
    }

    /// The bytes that the unit carries.
    pub fn data(&self) -> (data: &Bytes)
        ensures
            bytes_view(*data) == self@.payload(),
    {
        match self {
            H264Data::Configuration { raw, .. } => raw,
            H264Data::Data { data, .. } => data,
        }
    }
}

impl From<H264Data> for Bytes {
    /// The bytes that the unit carried.
    fn from(unit: H264Data) -> (data: Bytes) {
        match unit {
            H264Data::Configuration { raw, .. } => raw,
            H264Data::Data { data, .. } => data,
        }
    }
}

impl vstd::std_specs::convert::FromSpecImpl<H264Data> for Bytes {
    open spec fn obeys_from_spec() -> bool {
        true
    }

    open spec fn from_spec(unit: H264Data) -> Bytes {
        match unit {
            H264Data::Configuration { raw, .. } => raw,
            H264Data::Data { data, .. } => data,
        }
    }
}

} // verus!
