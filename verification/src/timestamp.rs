//! The realignment of source timestamps to the clock of an RTMP stream.
//!
//! The first unit of a stream goes out at 0. Each later one goes out as far
//! behind its predecessor as its source timestamp is behind that of its
//! predecessor, whatever the origin of the source clock was. Timestamps
//! count in 32 bits and wrap, as those of RTMP do: a source timestamp below
//! that of its predecessor is one that has wrapped.

use vstd::prelude::*;

verus! {

/// What the realignment remembers: the source timestamp of the last unit,
/// once there has been one, and the RTMP timestamp that it went out with.
#[derive(Debug, Clone, Copy, PartialEq, Eq)]
pub struct TimestampAligner {
    previous: Option<u32>,
    rtmp: u32,
}

/// The realignment as a mathematical value.
pub struct AlignerModel {
    pub previous: Option<u32>,
    pub rtmp: u32,
}

/// How far `source` is behind `previous` on a clock of 32 bits.
pub open spec fn distance(source: u32, previous: u32) -> u32 {
    if source - previous < 0 {
        (source - previous + 0x1_0000_0000) as u32
    } else {
        (source - previous) as u32
    }
}

/// The timestamp that is `offset` behind `rtmp` on a clock of 32 bits.
pub open spec fn moved(rtmp: u32, offset: u32) -> u32 {
    if rtmp + offset > u32::MAX {
        (rtmp + offset - 0x1_0000_0000) as u32
    } else {
        (rtmp + offset) as u32
    }
}

impl AlignerModel {
    /// Before the first unit.
    pub open spec fn start() -> AlignerModel {
        AlignerModel { previous: None, rtmp: 0 }
    }

    /// The RTMP timestamp that a unit with this source timestamp goes out with.
    pub open spec fn aligned(self, source: u32) -> u32 {
        match self.previous {
            Some(previous) => moved(self.rtmp, distance(source, previous)),
            None => self.rtmp,
        }
    }

    /// The realignment after a unit with this source timestamp.
    pub open spec fn after(self, source: u32) -> AlignerModel {
        AlignerModel { previous: Some(source), rtmp: self.aligned(source) }
    }
}

impl View for TimestampAligner {
    type V = AlignerModel;

    closed spec fn view(&self) -> AlignerModel {
        AlignerModel { previous: self.previous, rtmp: self.rtmp }
    }
}

impl TimestampAligner {
    /// The realignment of a stream that has sent no unit.
    pub fn new() -> (aligner: Self)
        ensures
            aligner@ == AlignerModel::start(),
    {
        TimestampAligner { previous: None, rtmp: 0 }
    }

    /// The RTMP timestamp of the last unit; 0 before the first.
    pub fn current(&self) -> (rtmp: u32)
        ensures
            rtmp == self@.rtmp,
    {
        self.rtmp
    }

    /// Takes the source timestamp of the next unit and gives the RTMP
    /// timestamp that the unit goes out with.
    pub fn advance(&mut self, source: u32) -> (rtmp: u32)
        ensures
            rtmp == old(self)@.aligned(source),
            final(self)@ == old(self)@.after(source),
    {
        match self.previous {
            None => {},
            Some(previous) => {
                let offset: u32 = source.wrapping_sub(previous);
                self.rtmp = self.rtmp.wrapping_add(offset);
            },
        }
        self.previous = Some(source);
        self.rtmp
    }
}

/// The realignment after the units with these source timestamps, in order.
pub open spec fn aligner_after(sources: Seq<u32>) -> AlignerModel
    decreases sources.len(),
{
    if sources.len() == 0 {
        AlignerModel::start()
    } else {
        aligner_after(sources.drop_last()).after(sources.last())
    }
}

/// The RTMP timestamps that the units with these source timestamps go out
/// with, in order.
pub open spec fn realigned(sources: Seq<u32>) -> Seq<u32> {
    Seq::new(sources.len(), |i: int| aligner_after(sources.take(i)).aligned(sources[i]))
}

/// Each timestamp is greater than the one before it.
pub open spec fn strictly_increasing(sources: Seq<u32>) -> bool {
    forall|i: int, j: int| 0 <= i < j < sources.len() ==> sources[i] < sources[j]
}

/// After a run of increasing source timestamps the RTMP timestamp is the
/// distance of the last one from the first.
pub proof fn lemma_aligner_after(sources: Seq<u32>)
    requires
        strictly_increasing(sources),
        sources.len() > 0,
    ensures
        aligner_after(sources).previous == Some(sources.last()),
        aligner_after(sources).rtmp == sources.last() - sources[0],
    decreases sources.len(),
{
    let front = sources.drop_last();
    if front.len() == 0 {
        assert(aligner_after(front) == AlignerModel::start());
    } else {
        assert(strictly_increasing(front));
        lemma_aligner_after(front);
        assert(front.last() == sources[sources.len() - 2]);
        assert(front[0] == sources[0]);
    }
}

/// Timestamp monotonicity: for source timestamps that increase strictly,
/// the first unit goes out at 0, each goes out at the distance of its
/// source timestamp from the first, and so the RTMP timestamps never
/// decrease and lie as far apart as the source timestamps.
pub proof fn lemma_realignment_keeps_spacing(sources: Seq<u32>)
    requires
        strictly_increasing(sources),
    ensures
        realigned(sources).len() == sources.len(),
        forall|i: int|
            0 <= i < sources.len() ==> #[trigger] realigned(sources)[i] == sources[i] - sources[0],
        forall|i: int, j: int|
            0 <= i <= j < sources.len() ==> realigned(sources)[i] <= realigned(sources)[j],
        forall|i: int, j: int|
            0 <= i <= j < sources.len() ==> realigned(sources)[j] - realigned(sources)[i]
                == sources[j] - sources[i],
{
    assert forall|i: int| 0 <= i < sources.len() implies #[trigger] realigned(sources)[i]
        == sources[i] - sources[0] by {
        let front = sources.take(i);
        if i > 0 {
            assert(strictly_increasing(front));
            lemma_aligner_after(front);
            assert(front.last() == sources[i - 1]);
            assert(front[0] == sources[0]);
        }
    }
}

/// Independence of the origin: two source clocks that stand a constant
/// apart, on a clock of 32 bits, give the same RTMP timestamps.
pub proof fn lemma_origin_does_not_matter(sources: Seq<u32>, shifted: Seq<u32>, shift: u32)
    requires
        shifted.len() == sources.len(),
        forall|i: int| 0 <= i < sources.len() ==> shifted[i] == moved(sources[i], shift),
    ensures
        aligner_after(shifted).rtmp == aligner_after(sources).rtmp,
        sources.len() > 0 ==> aligner_after(sources).previous == Some(sources.last())
            && aligner_after(shifted).previous == Some(shifted.last()),
    decreases sources.len(),
{
    if sources.len() > 0 {
        lemma_origin_does_not_matter(sources.drop_last(), shifted.drop_last(), shift);
        if sources.len() > 1 {
            assert(sources.drop_last().last() == sources[sources.len() - 2]);
            assert(shifted.drop_last().last() == shifted[shifted.len() - 2]);
        }
    }
}

} // verus!
