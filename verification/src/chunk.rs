//! The framing of the RTMP chunk stream that a peer sends, as far as it
//! decides what the client session may be given.
//!
//! The session of the `rml_rtmp` crate reads the chunk stream with
//! unchecked subtractions: it stops where a chunk declares a message
//! shorter than what has been gathered of it, and where an extended
//! timestamp behind a delta is below the largest plain timestamp. The
//! monitor of this module reads the same bytes in front of the session,
//! field by field as the session's reader does, so that such bytes are
//! refused before the session meets them.
//!
//! A chunk starts with a basic header: two bits of format and a chunk
//! stream of one to three bytes. By the format follow a timestamp or delta
//! (3 bytes; formats 0 to 2), the message length and type (3 and 1 bytes;
//! formats 0 and 1) and the message stream (4 bytes; format 0). What is left
//! out is taken from the last chunk of the same chunk stream. An extended
//! timestamp (4 bytes) follows where the timestamp field is `0xFFFFFF`. Then
//! comes the payload, cut at the chunk size, which message type 1 sets.
//!
//! The session decodes the messages of types 15, 17, 18 and 20 as AMF, and
//! follows the nesting of their values by recursion, a level for every four
//! bytes at most. Such a message is refused where it is longer than
//! [`MAX_AMF_MESSAGE`], so that the recursion is no deeper than 1024 levels.
//! Of a command (types 17 and 20) the session takes the first three values:
//! it would stop on a command that holds fewer. The reader keeps the payload
//! of a message and asks the decoder of the `rml_amf0` crate, which the
//! session uses, how many values a command holds.
//!
//! Once the peer has announced its window (message type 5), the session
//! counts the bytes of every input in 32 bits until the window is reached:
//! it would stop where the count runs over.

use rml_amf0::{Amf0DeserializationError, Amf0Value};
use vstd::prelude::*;
use vstd::slice::slice_subrange;

verus! {

/// A value of `rml_amf0`, which the reader only counts.
#[verifier::external_type_specification]
#[verifier::external_body]
pub struct ExAmf0Value(Amf0Value);

/// The reason for which `rml_amf0` could not decode a payload.
#[verifier::external_type_specification]
#[verifier::external_body]
pub struct ExAmf0DeserializationError(Amf0DeserializationError);

/// The number of values that `rml_amf0` decodes a payload to; `None` where
/// it cannot decode the payload.
pub uninterp spec fn amf0_values(payload: Seq<u8>) -> Option<nat>;

/// `rml_amf0::deserialize`, on the bytes of a payload. The decoder follows
/// the nesting of the values by recursion, so the payload must be short.
#[verifier::external_body]
fn amf0_decode(payload: &[u8]) -> (decoded: Result<Vec<Amf0Value>, Amf0DeserializationError>)
    requires
        payload@.len() <= MAX_AMF_MESSAGE,
    ensures
        match decoded {
            Ok(values) => amf0_values(payload@) == Some(values@.len()),
            Err(_) => amf0_values(payload@).is_none(),
        },
{
    let mut reader: &[u8] = payload;
    rml_amf0::deserialize(&mut reader)
}

/// The chunk size before the peer sets another.
pub const INITIAL_CHUNK_SIZE: u32 = 128;

/// The timestamp field behind which an extended timestamp follows.
pub const MAX_PLAIN_TIMESTAMP: u32 = 0xFFFFFF;

/// The largest chunk size that a peer can set.
pub const MAX_CHUNK_SIZE: u32 = 0x7FFF_FFFF;

/// The type of the message that sets the chunk size.
pub const SET_CHUNK_SIZE: u8 = 1;

/// The type of the message that announces the window of the peer.
pub const WINDOW_ACKNOWLEDGEMENT: u8 = 5;

/// The type of a command in AMF.
pub const COMMAND: u8 = 20;

/// The type of a command in AMF that may stand behind a zero byte.
pub const COMMAND_BEHIND_ZERO: u8 = 17;

/// The number of values that the session takes from a command.
pub const COMMAND_VALUES: usize = 3;

/// The longest message in AMF that the session is given.
pub const MAX_AMF_MESSAGE: u32 = 4096;

/// Whether the session decodes the messages of this type as AMF.
pub open spec fn carries_amf(type_id: u8) -> bool {
    type_id == 15 || type_id == 17 || type_id == 18 || type_id == 20
}

/// What a chunk header says of its message, as far as the framing needs it.
#[derive(Debug, Clone, Copy, PartialEq, Eq, Structural)]
pub struct Header {
    pub timestamp_field: u32,
    pub message_length: u32,
    pub type_id: u8,
}

/// Where the reading of a chunk stands.
#[derive(Debug, Clone, Copy, PartialEq, Eq, Structural)]
pub enum Stage {
    /// The first byte of a chunk is awaited.
    Basic,
    /// One more byte gives the chunk stream.
    CsidOne,
    /// Two more bytes give the chunk stream, the low one first.
    CsidLow,
    /// The high byte of the chunk stream is awaited.
    CsidHigh { low: u8 },
    /// `got` of the three bytes of the timestamp are read.
    Timestamp { got: u8, high: u8, mid: u8 },
    /// `got` of the three bytes of the message length are read.
    Length { got: u8, high: u8, mid: u8 },
    /// The message type is awaited.
    TypeId,
    /// `got` of the four bytes of the message stream are read.
    StreamId { got: u8 },
    /// `got` of the four bytes of the extended timestamp are read.
    Extended { got: u8, b0: u8, b1: u8, b2: u8 },
    /// `left` bytes of the payload of the chunk are awaited.
    Payload { left: u64 },
    /// The session refuses its input from here on; it reads no further.
    Failed,
    /// The session would stop on what was read.
    Refused,
}

/// What the reader holds besides the headers of earlier chunks.
#[derive(Debug, Clone, Copy, PartialEq, Eq, Structural)]
pub struct Frame {
    pub stage: Stage,
    /// The format of the chunk that is read: 0 to 3.
    pub format: u8,
    /// The chunk stream of the chunk that is read.
    pub csid: u32,
    /// The header of the chunk that is read.
    pub header: Header,
    /// The number of payload bytes gathered for the message that is read.
    pub gathered: u64,
    /// The size at which the payload of a message is cut into chunks.
    pub chunk_size: u32,
    /// Whether the peer has announced its window.
    pub has_window: bool,
    /// The window that the peer has announced.
    pub window: u32,
    /// The bytes counted since the window was last reached.
    pub unacknowledged: u32,
}

/// The reading of a chunk stream, as a mathematical value: the frame, for
/// the chunk streams seen the header of their last chunk, and the payload
/// of the message that is read, as far as it is kept.
pub struct StreamModel {
    pub frame: Frame,
    pub previous: Seq<(u32, Header)>,
    pub body: Seq<u8>,
}

/// Three bytes as a number, most significant byte first.
pub open spec fn three_bytes(high: u8, mid: u8, low: u8) -> u32 {
    (high as u32 * 65536 + mid as u32 * 256 + low as u32) as u32
}

/// Four bytes as a number, most significant byte first.
pub open spec fn four_bytes(b0: u8, b1: u8, b2: u8, b3: u8) -> u32 {
    (b0 as u32 * 16777216 + b1 as u32 * 65536 + b2 as u32 * 256 + b3 as u32) as u32
}

/// The header of the last chunk of a chunk stream, if there was one.
pub open spec fn lookup(previous: Seq<(u32, Header)>, csid: u32) -> Option<Header>
    decreases previous.len(),
{
    if previous.len() == 0 {
        None
    } else if previous[0].0 == csid {
        Some(previous[0].1)
    } else {
        lookup(previous.skip(1), csid)
    }
}

/// The headers with that of a chunk stream set.
pub open spec fn put(previous: Seq<(u32, Header)>, csid: u32, header: Header) -> Seq<(u32, Header)>
    decreases previous.len(),
{
    if previous.len() == 0 {
        seq![(csid, header)]
    } else if previous[0].0 == csid {
        previous.update(0, (csid, header))
    } else {
        seq![previous[0]] + put(previous.skip(1), csid, header)
    }
}

impl Frame {
    /// The frame in front of the first chunk.
    pub open spec fn start() -> Frame {
        Frame {
            stage: Stage::Basic,
            format: 0,
            csid: 0,
            header: Header { timestamp_field: 0, message_length: 0, type_id: 0 },
            gathered: 0,
            chunk_size: INITIAL_CHUNK_SIZE,
            has_window: false,
            window: 0,
            unacknowledged: 0,
        }
    }

    /// While a payload is awaited, at least one byte of it is, and no more
    /// than a message can grow by.
    pub open spec fn wf(self) -> bool {
        self.stage matches Stage::Payload { left } ==> left >= 1 && self.gathered + left
            <= 0x2_0000_0000
    }

    /// The frame at another stage.
    pub open spec fn at(self, stage: Stage) -> Frame {
        Frame { stage, ..self }
    }

    /// The frame in front of an input of `len` bytes. Once the peer has
    /// announced its window, the session adds the length, cut to 32 bits,
    /// to its count, on which it would stop if the count ran over, and
    /// starts again from 0 where the window is reached.
    pub open spec fn counted(self, len: usize) -> Frame {
        let count = self.unacknowledged + len as int % 0x1_0000_0000;
        if !self.has_window {
            self
        } else if count > u32::MAX {
            self.at(Stage::Refused)
        } else if count >= self.window {
            Frame { unacknowledged: 0, ..self }
        } else {
            Frame { unacknowledged: count as u32, ..self }
        }
    }
}

/// The payload of a command as the session decodes it: that of type 17
/// without a zero byte in front of it.
pub open spec fn command_payload(type_id: u8, body: Seq<u8>) -> Seq<u8> {
    if type_id == COMMAND_BEHIND_ZERO && body.len() > 0 && body[0] == 0 {
        body.skip(1)
    } else {
        body
    }
}

impl StreamModel {
    /// The reading in front of the first chunk.
    pub open spec fn start() -> StreamModel {
        StreamModel { frame: Frame::start(), previous: Seq::empty(), body: Seq::empty() }
    }

    /// The frame is well-formed, and the payload is kept up to the length
    /// of the longest message in AMF.
    pub open spec fn wf(self) -> bool {
        self.frame.wf() && self.body.len() <= MAX_AMF_MESSAGE
    }

    /// The reading with one more byte of payload gathered, and kept while
    /// there is room.
    pub open spec fn gathering(self, byte: u8) -> StreamModel {
        StreamModel {
            frame: Frame { gathered: (self.frame.gathered + 1) as u64, ..self.frame },
            body: if self.body.len() < MAX_AMF_MESSAGE {
                self.body.push(byte)
            } else {
                self.body
            },
            ..self
        }
    }

    /// The reading behind the last chunk of a message: the session handles
    /// the message.
    ///
    /// A message in AMF must not be longer than the session is given. A
    /// command must decode, or the session refuses it, and must hold the
    /// values that the session takes from it, or the session would stop. A
    /// message that sets the chunk size or announces the window must hold
    /// four bytes, and the chunk size must be one that a peer can set, or
    /// the session refuses the message.
    pub open spec fn handled(self) -> StreamModel {
        let type_id = self.frame.header.type_id;
        let fresh = StreamModel {
            frame: Frame { gathered: 0, ..self.frame },
            body: Seq::empty(),
            ..self
        };
        if carries_amf(type_id) && self.frame.header.message_length > MAX_AMF_MESSAGE {
            fresh.at(Stage::Refused)
        } else if type_id == COMMAND || type_id == COMMAND_BEHIND_ZERO {
            match amf0_values(command_payload(type_id, self.body)) {
                None => fresh.at(Stage::Failed),
                Some(count) => if count < COMMAND_VALUES {
                    fresh.at(Stage::Refused)
                } else {
                    fresh
                },
            }
        } else if type_id == SET_CHUNK_SIZE {
            if self.body.len() < 4 {
                fresh.at(Stage::Failed)
            } else if four_bytes(self.body[0], self.body[1], self.body[2], self.body[3])
                > MAX_CHUNK_SIZE {
                fresh.at(Stage::Failed)
            } else {
                StreamModel {
                    frame: Frame {
                        chunk_size: four_bytes(
                            self.body[0],
                            self.body[1],
                            self.body[2],
                            self.body[3],
                        ),
                        ..fresh.frame
                    },
                    ..fresh
                }
            }
        } else if type_id == WINDOW_ACKNOWLEDGEMENT {
            if self.body.len() < 4 {
                fresh.at(Stage::Failed)
            } else {
                StreamModel {
                    frame: Frame {
                        has_window: true,
                        window: four_bytes(
                            self.body[0],
                            self.body[1],
                            self.body[2],
                            self.body[3],
                        ),
                        ..fresh.frame
                    },
                    ..fresh
                }
            }
        } else {
            fresh
        }
    }

    /// The reading at another stage.
    pub open spec fn at(self, stage: Stage) -> StreamModel {
        StreamModel { frame: self.frame.at(stage), ..self }
    }

    /// Behind the payload of a chunk: if the message is whole, the session
    /// handles it; the header is kept for its chunk stream, and the next
    /// chunk is awaited.
    pub open spec fn completed(self) -> StreamModel {
        let done = if self.frame.gathered == self.frame.header.message_length {
            self.handled()
        } else {
            self
        };
        StreamModel {
            frame: if done.frame.stage == Stage::Failed || done.frame.stage == Stage::Refused {
                done.frame
            } else {
                done.frame.at(Stage::Basic)
            },
            previous: put(self.previous, self.frame.csid, self.frame.header),
            body: done.body,
        }
    }

    /// Behind the header of a chunk. The session takes what is gathered of
    /// the message from its declared length: it would stop on a length
    /// below that. A message longer than the chunk size is read in chunks
    /// of that size at most.
    pub open spec fn entered_payload(self) -> StreamModel {
        let length = self.frame.header.message_length;
        if length < self.frame.gathered {
            self.at(Stage::Refused)
        } else {
            let remaining = (length - self.frame.gathered) as u64;
            let left: u64 = if length > self.frame.chunk_size {
                if remaining < self.frame.chunk_size {
                    remaining
                } else {
                    self.frame.chunk_size as u64
                }
            } else {
                length as u64
            };
            if left == 0 {
                self.completed()
            } else {
                self.at(Stage::Payload { left })
            }
        }
    }

    /// Behind the plain fields of a header: an extended timestamp follows
    /// where the timestamp field is the largest.
    pub open spec fn entered_extended(self) -> StreamModel {
        if self.frame.header.timestamp_field < MAX_PLAIN_TIMESTAMP {
            self.entered_payload()
        } else {
            self.at(Stage::Extended { got: 0, b0: 0, b1: 0, b2: 0 })
        }
    }

    /// Behind the extended timestamp. Behind a delta, at the start of a
    /// message, the session takes the largest plain timestamp from it: it
    /// would stop on a smaller one.
    pub open spec fn extended(self, timestamp: u32) -> StreamModel {
        if self.frame.format != 0 && self.frame.gathered == 0 && timestamp < MAX_PLAIN_TIMESTAMP {
            self.at(Stage::Refused)
        } else {
            self.entered_payload()
        }
    }

    /// Behind the timestamp field: formats 0 and 1 go on with the message
    /// length.
    pub open spec fn timestamped(self, timestamp_field: u32) -> StreamModel {
        let read = StreamModel {
            frame: Frame {
                header: Header { timestamp_field, ..self.frame.header },
                ..self.frame
            },
            ..self
        };
        if self.frame.format == 0 || self.frame.format == 1 {
            read.at(Stage::Length { got: 0, high: 0, mid: 0 })
        } else {
            read.entered_extended()
        }
    }

    /// Behind the message length.
    pub open spec fn measured(self, message_length: u32) -> StreamModel {
        StreamModel {
            frame: Frame {
                stage: Stage::TypeId,
                header: Header { message_length, ..self.frame.header },
                ..self.frame
            },
            ..self
        }
    }

    /// Behind the message type: format 0 goes on with the message stream.
    pub open spec fn typed(self, type_id: u8) -> StreamModel {
        let read = StreamModel {
            frame: Frame { header: Header { type_id, ..self.frame.header }, ..self.frame },
            ..self
        };
        if self.frame.format == 0 {
            read.at(Stage::StreamId { got: 0 })
        } else {
            read.entered_extended()
        }
    }

    /// Behind the basic header. Format 0 starts a new header; the others
    /// go on from the last chunk of the chunk stream, without which the
    /// session refuses the chunk. Format 3 has no field of its own.
    pub open spec fn began(self, csid: u32) -> StreamModel {
        if self.frame.format == 0 {
            StreamModel {
                frame: Frame {
                    stage: Stage::Timestamp { got: 0, high: 0, mid: 0 },
                    csid,
                    header: Header { timestamp_field: 0, message_length: 0, type_id: 0 },
                    ..self.frame
                },
                ..self
            }
        } else {
            match lookup(self.previous, csid) {
                None => self.at(Stage::Failed),
                Some(header) => {
                    let taken = StreamModel {
                        frame: Frame { csid, header, ..self.frame },
                        ..self
                    };
                    if self.frame.format == 3 {
                        taken.entered_extended()
                    } else {
                        taken.at(Stage::Timestamp { got: 0, high: 0, mid: 0 })
                    }
                },
            }
        }
    }

    /// Behind the first byte of a chunk: the format in its two high bits,
    /// the chunk stream in the other six, where 0 and 1 stand for a chunk
    /// stream in one or two more bytes.
    pub open spec fn opened(self, byte: u8) -> StreamModel {
        let formatted = StreamModel { frame: Frame { format: byte >> 6, ..self.frame }, ..self };
        if byte & 0x3F == 0 {
            formatted.at(Stage::CsidOne)
        } else if byte & 0x3F == 1 {
            formatted.at(Stage::CsidLow)
        } else {
            formatted.began((byte & 0x3F) as u32)
        }
    }

    /// The reading behind one more byte.
    pub open spec fn fed(self, byte: u8) -> StreamModel {
        match self.frame.stage {
            Stage::Basic => self.opened(byte),
            Stage::CsidOne => self.began((byte as u32 + 64) as u32),
            Stage::CsidLow => self.at(Stage::CsidHigh { low: byte }),
            Stage::CsidHigh { low } => self.began((byte as u32 * 256 + low as u32 + 64) as u32),
            Stage::Timestamp { got, high, mid } => if got == 0 {
                self.at(Stage::Timestamp { got: 1, high: byte, mid })
            } else if got == 1 {
                self.at(Stage::Timestamp { got: 2, high, mid: byte })
            } else {
                self.timestamped(three_bytes(high, mid, byte))
            },
            Stage::Length { got, high, mid } => if got == 0 {
                self.at(Stage::Length { got: 1, high: byte, mid })
            } else if got == 1 {
                self.at(Stage::Length { got: 2, high, mid: byte })
            } else {
                self.measured(three_bytes(high, mid, byte))
            },
            Stage::TypeId => self.typed(byte),
            Stage::StreamId { got } => if got >= 3 {
                self.entered_extended()
            } else {
                self.at(Stage::StreamId { got: (got + 1) as u8 })
            },
            Stage::Extended { got, b0, b1, b2 } => if got == 0 {
                self.at(Stage::Extended { got: 1, b0: byte, b1, b2 })
            } else if got == 1 {
                self.at(Stage::Extended { got: 2, b0, b1: byte, b2 })
            } else if got == 2 {
                self.at(Stage::Extended { got: 3, b0, b1, b2: byte })
            } else {
                self.extended(four_bytes(b0, b1, b2, byte))
            },
            Stage::Payload { left } => {
                let gathered = self.gathering(byte);
                if left <= 1 {
                    gathered.completed()
                } else {
                    gathered.at(Stage::Payload { left: (left - 1) as u64 })
                }
            },
            Stage::Failed => self,
            Stage::Refused => self,
        }
    }

    /// The reading behind these bytes.
    pub open spec fn scanned(self, bytes: Seq<u8>) -> StreamModel
        decreases bytes.len(),
    {
        if bytes.len() == 0 {
            self
        } else {
            self.scanned(bytes.drop_last()).fed(bytes.last())
        }
    }

    /// The reading behind one more input: the session counts it, and
    /// reads its bytes.
    pub open spec fn read(self, bytes: Seq<u8>) -> StreamModel {
        StreamModel { frame: self.frame.counted(bytes.len() as usize), ..self }.scanned(bytes)
    }

    /// The reading behind these inputs, one after the other.
    pub open spec fn read_all(self, inputs: Seq<Seq<u8>>) -> StreamModel
        decreases inputs.len(),
    {
        if inputs.len() == 0 {
            self
        } else {
            self.read_all(inputs.drop_last()).read(inputs.last())
        }
    }

    /// Whether the session may be given these bytes as its next input: it
    /// has not refused its input, and it would not stop on them.
    pub open spec fn admits(self, bytes: Seq<u8>) -> bool {
        self.frame.stage != Stage::Failed && self.frame.stage != Stage::Refused && self.read(
            bytes,
        ).frame.stage != Stage::Refused
    }
}

/// The reader of a chunk stream.
#[derive(Debug)]
pub struct ChunkMonitor {
    frame: Frame,
    previous: Vec<(u32, Header)>,
    body: Vec<u8>,
}

impl View for ChunkMonitor {
    type V = StreamModel;

    closed spec fn view(&self) -> StreamModel {
        StreamModel { frame: self.frame, previous: self.previous@, body: self.body@ }
    }
}

fn three(high: u8, mid: u8, low: u8) -> (value: u32)
    ensures
        value == three_bytes(high, mid, low),
{
    high as u32 * 65536 + mid as u32 * 256 + low as u32
}

fn four(b0: u8, b1: u8, b2: u8, b3: u8) -> (value: u32)
    ensures
        value == four_bytes(b0, b1, b2, b3),
{
    b0 as u32 * 16777216 + b1 as u32 * 65536 + b2 as u32 * 256 + b3 as u32
}

fn find(previous: &Vec<(u32, Header)>, csid: u32) -> (header: Option<Header>)
    ensures
        header == lookup(previous@, csid),
{
    let mut i: usize = 0;
    assert(previous@.skip(0) =~= previous@);
    while i < previous.len()
        invariant
            i <= previous.len(),
            lookup(previous@, csid) == lookup(previous@.skip(i as int), csid),
        decreases previous.len() - i,
    {
        if previous[i].0 == csid {
            return Some(previous[i].1);
        }
        assert(previous@.skip(i as int).skip(1) =~= previous@.skip(i + 1));
        i = i + 1;
    }
    None
}

fn keep(previous: &mut Vec<(u32, Header)>, csid: u32, header: Header)
    ensures
        final(previous)@ == put(old(previous)@, csid, header),
{
    let mut i: usize = 0;
    assert(previous@.skip(0) =~= previous@);
    assert(previous@.take(0) + put(previous@, csid, header) =~= put(previous@, csid, header));
    while i < previous.len()
        invariant
            i <= previous.len(),
            previous@ == old(previous)@,
            put(previous@, csid, header) == previous@.take(i as int) + put(
                previous@.skip(i as int),
                csid,
                header,
            ),
        decreases previous.len() - i,
    {
        let ghost rest = previous@.skip(i as int);
        if previous[i].0 == csid {
            previous[i] = (csid, header);
            assert(previous@ =~= old(previous)@.take(i as int) + rest.update(0, (csid, header)));
            return ;
        }
        assert(rest.skip(1) =~= previous@.skip(i + 1));
        assert(previous@.take(i as int) + (seq![rest[0]] + put(rest.skip(1), csid, header))
            =~= previous@.take(i + 1) + put(previous@.skip(i + 1), csid, header));
        i = i + 1;
    }
    assert(previous@.skip(i as int) =~= Seq::<(u32, Header)>::empty());
    assert(previous@.take(i as int) =~= previous@);
    previous.push((csid, header));
    assert(previous@ =~= old(previous)@ + seq![(csid, header)]);
}

impl ChunkMonitor {
    /// Whether the reading is well-formed.
    pub closed spec fn wf(self) -> bool {
        self@.wf()
    }

    /// A reader in front of the first chunk.
    pub fn new() -> (monitor: Self)
        ensures
            monitor@ == StreamModel::start(),
            monitor.wf(),
    {
        ChunkMonitor {
            frame: Frame {
                stage: Stage::Basic,
                format: 0,
                csid: 0,
                header: Header { timestamp_field: 0, message_length: 0, type_id: 0 },
                gathered: 0,
                chunk_size: INITIAL_CHUNK_SIZE,
                has_window: false,
                window: 0,
                unacknowledged: 0,
            },
            previous: Vec::new(),
            body: Vec::new(),
        }
    }

    /// Where the reading stands.
    pub fn stage(&self) -> (stage: Stage)
        ensures
            stage == self@.frame.stage,
    {
        self.frame.stage
    }

    /// The size at which the peer cuts its messages.
    pub fn chunk_size(&self) -> (size: u32)
        ensures
            size == self@.frame.chunk_size,
    {
        self.frame.chunk_size
    }

    /// The window that the peer has announced, if it has.
    pub fn window(&self) -> (window: Option<u32>)
        ensures
            window == (if self@.frame.has_window {
                Some(self@.frame.window)
            } else {
                None
            }),
    {
        if self.frame.has_window {
            Some(self.frame.window)
        } else {
            None
        }
    }

    fn handle(&mut self)
        requires
            old(self)@.body.len() <= MAX_AMF_MESSAGE,
        ensures
            final(self)@ == old(self)@.handled(),
    {
        let type_id: u8 = self.frame.header.type_id;
        let mut body: Vec<u8> = Vec::new();
        core::mem::swap(&mut self.body, &mut body);
        self.frame.gathered = 0;
        if (type_id == 15 || type_id == 17 || type_id == 18 || type_id == 20)
            && self.frame.header.message_length > MAX_AMF_MESSAGE {
            self.frame.stage = Stage::Refused;
        } else if type_id == COMMAND || type_id == COMMAND_BEHIND_ZERO {
            let payload = if type_id == COMMAND_BEHIND_ZERO && body.len() > 0 && body[0] == 0 {
                slice_subrange(body.as_slice(), 1, body.len())
            } else {
                body.as_slice()
            };
            assert(payload@ =~= command_payload(type_id, body@));
            match amf0_decode(payload) {
                Err(_) => {
                    self.frame.stage = Stage::Failed;
                },
                Ok(values) => {
                    if values.len() < COMMAND_VALUES {
                        self.frame.stage = Stage::Refused;
                    }
                },
            }
        } else if type_id == SET_CHUNK_SIZE {
            if body.len() < 4 {
                self.frame.stage = Stage::Failed;
            } else {
                let size: u32 = four(body[0], body[1], body[2], body[3]);
                if size > MAX_CHUNK_SIZE {
                    self.frame.stage = Stage::Failed;
                } else {
                    self.frame.chunk_size = size;
                }
            }
        } else if type_id == WINDOW_ACKNOWLEDGEMENT {
            if body.len() < 4 {
                self.frame.stage = Stage::Failed;
            } else {
                self.frame.has_window = true;
                self.frame.window = four(body[0], body[1], body[2], body[3]);
            }
        }
    }

    fn complete(&mut self)
        requires
            old(self)@.body.len() <= MAX_AMF_MESSAGE,
        ensures
            final(self)@ == old(self)@.completed(),
            final(self).wf(),
    {
        let csid: u32 = self.frame.csid;
        let header = self.frame.header;
        if self.frame.gathered == self.frame.header.message_length as u64 {
            self.handle();
        }
        if self.frame.stage != Stage::Failed && self.frame.stage != Stage::Refused {
            self.frame.stage = Stage::Basic;
        }
        keep(&mut self.previous, csid, header);
    }

    fn enter_payload(&mut self)
        requires
            old(self)@.body.len() <= MAX_AMF_MESSAGE,
        ensures
            final(self)@ == old(self)@.entered_payload(),
            final(self).wf(),
    {
        let length: u32 = self.frame.header.message_length;
        if (length as u64) < self.frame.gathered {
            self.frame.stage = Stage::Refused;
        } else {
            let remaining: u64 = length as u64 - self.frame.gathered;
            let left: u64 = if length > self.frame.chunk_size {
                if remaining < self.frame.chunk_size as u64 {
                    remaining
                } else {
                    self.frame.chunk_size as u64
                }
            } else {
                length as u64
            };
            if left == 0 {
                self.complete();
            } else {
                self.frame.stage = Stage::Payload { left };
            }
        }
    }

    fn enter_extended(&mut self)
        requires
            old(self)@.body.len() <= MAX_AMF_MESSAGE,
        ensures
            final(self)@ == old(self)@.entered_extended(),
            final(self).wf(),
    {
        if self.frame.header.timestamp_field < MAX_PLAIN_TIMESTAMP {
            self.enter_payload();
        } else {
            self.frame.stage = Stage::Extended { got: 0, b0: 0, b1: 0, b2: 0 };
        }
    }

    fn begin(&mut self, csid: u32)
        requires
            old(self)@.body.len() <= MAX_AMF_MESSAGE,
        ensures
            final(self)@ == old(self)@.began(csid),
            final(self).wf(),
    {
        if self.frame.format == 0 {
            self.frame.csid = csid;
            self.frame.header = Header { timestamp_field: 0, message_length: 0, type_id: 0 };
            self.frame.stage = Stage::Timestamp { got: 0, high: 0, mid: 0 };
        } else {
            match find(&self.previous, csid) {
                None => {
                    self.frame.stage = Stage::Failed;
                },
                Some(header) => {
                    self.frame.csid = csid;
                    self.frame.header = header;
                    if self.frame.format == 3 {
                        self.enter_extended();
                    } else {
                        self.frame.stage = Stage::Timestamp { got: 0, high: 0, mid: 0 };
                    }
                },
            }
        }
    }

    /// Reads one more byte.
    pub fn feed(&mut self, byte: u8)
        requires
            old(self).wf(),
        ensures
            final(self)@ == old(self)@.fed(byte),
            final(self).wf(),
    {
        match self.frame.stage {
            Stage::Basic => {
                self.frame.format = byte >> 6;
                if byte & 0x3F == 0 {
                    self.frame.stage = Stage::CsidOne;
                } else if byte & 0x3F == 1 {
                    self.frame.stage = Stage::CsidLow;
                } else {
                    self.begin((byte & 0x3F) as u32);
                }
            },
            Stage::CsidOne => {
                self.begin(byte as u32 + 64);
            },
            Stage::CsidLow => {
                self.frame.stage = Stage::CsidHigh { low: byte };
            },
            Stage::CsidHigh { low } => {
                self.begin(byte as u32 * 256 + low as u32 + 64);
            },
            Stage::Timestamp { got, high, mid } => {
                if got == 0 {
                    self.frame.stage = Stage::Timestamp { got: 1, high: byte, mid };
                } else if got == 1 {
                    self.frame.stage = Stage::Timestamp { got: 2, high, mid: byte };
                } else {
                    self.frame.header.timestamp_field = three(high, mid, byte);
                    if self.frame.format == 0 || self.frame.format == 1 {
                        self.frame.stage = Stage::Length { got: 0, high: 0, mid: 0 };
                    } else {
                        self.enter_extended();
                    }
                }
            },
            Stage::Length { got, high, mid } => {
                if got == 0 {
                    self.frame.stage = Stage::Length { got: 1, high: byte, mid };
                } else if got == 1 {
                    self.frame.stage = Stage::Length { got: 2, high, mid: byte };
                } else {
                    self.frame.header.message_length = three(high, mid, byte);
                    self.frame.stage = Stage::TypeId;
                }
            },
            Stage::TypeId => {
                self.frame.header.type_id = byte;
                if self.frame.format == 0 {
                    self.frame.stage = Stage::StreamId { got: 0 };
                } else {
                    self.enter_extended();
                }
            },
            Stage::StreamId { got } => {
                if got >= 3 {
                    self.enter_extended();
                } else {
                    self.frame.stage = Stage::StreamId { got: got + 1 };
                }
            },
            Stage::Extended { got, b0, b1, b2 } => {
                if got == 0 {
                    self.frame.stage = Stage::Extended { got: 1, b0: byte, b1, b2 };
                } else if got == 1 {
                    self.frame.stage = Stage::Extended { got: 2, b0, b1: byte, b2 };
                } else if got == 2 {
                    self.frame.stage = Stage::Extended { got: 3, b0, b1, b2: byte };
                } else {
                    let timestamp: u32 = four(b0, b1, b2, byte);
                    if self.frame.format != 0 && self.frame.gathered == 0 && timestamp
                        < MAX_PLAIN_TIMESTAMP {
                        self.frame.stage = Stage::Refused;
                    } else {
                        self.enter_payload();
                    }
                }
            },
            Stage::Payload { left } => {
                if self.body.len() < MAX_AMF_MESSAGE as usize {
                    self.body.push(byte);
                }
                self.frame.gathered = self.frame.gathered + 1;
                if left <= 1 {
                    self.complete();
                } else {
                    self.frame.stage = Stage::Payload { left: left - 1 };
                }
            },
            Stage::Failed => {},
            Stage::Refused => {},
        }
    }

    /// Reads these bytes, one after the other.
    pub fn feed_all(&mut self, bytes: &[u8])
        requires
            old(self).wf(),
        ensures
            final(self)@ == old(self)@.scanned(bytes@),
            final(self).wf(),
    {
        let mut i: usize = 0;
        assert(bytes@.take(0) =~= Seq::<u8>::empty());
        while i < bytes.len()
            invariant
                i <= bytes.len(),
                self.wf(),
                self@ == old(self)@.scanned(bytes@.take(i as int)),
            decreases bytes.len() - i,
        {
            self.feed(bytes[i]);
            assert(bytes@.take(i + 1).drop_last() =~= bytes@.take(i as int));
            i = i + 1;
        }
        assert(bytes@.take(i as int) =~= bytes@);
    }

    /// Counts an input of `len` bytes as the session does.
    fn count(&mut self, len: usize)
        requires
            old(self).wf(),
        ensures
            final(self)@ == (StreamModel { frame: old(self)@.frame.counted(len), ..old(self)@ }),
            final(self)@.body.len() <= MAX_AMF_MESSAGE,
    {
        if self.frame.has_window {
            let counted: u64 = self.frame.unacknowledged as u64 + len as u64 % 0x1_0000_0000;
            if counted > 0xFFFF_FFFF {
                self.frame.stage = Stage::Refused;
            } else if counted >= self.frame.window as u64 {
                self.frame.unacknowledged = 0;
            } else {
                self.frame.unacknowledged = counted as u32;
            }
        }
    }

    /// Reads these bytes as the next input of the session, if the session
    /// may be given them. Tells whether it may; if not, the reading is at
    /// an end.
    pub fn accept(&mut self, bytes: &[u8]) -> (accepted: bool)
        requires
            old(self).wf(),
        ensures
            accepted == old(self)@.admits(bytes@),
            accepted ==> final(self)@ == old(self)@.read(bytes@),
            final(self).wf(),
    {
        if self.frame.stage == Stage::Failed || self.frame.stage == Stage::Refused {
            return false;
        }
        self.count(bytes.len());
        if self.frame.stage == Stage::Refused {
            proof {
                lemma_refused_stays(self@, bytes@);
            }
            return false;
        }
        self.feed_all(bytes);
        self.frame.stage != Stage::Refused
    }
}

/// What has been refused stays refused.
proof fn lemma_refused_stays(model: StreamModel, bytes: Seq<u8>)
    requires
        model.frame.stage == Stage::Refused,
    ensures
        model.scanned(bytes) == model,
    decreases bytes.len(),
{
    if bytes.len() > 0 {
        lemma_refused_stays(model, bytes.drop_last());
    }
}

} // verus!
