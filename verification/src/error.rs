//! Why a stream is given up.

use vstd::prelude::*;

verus! {

/// What can be wrong with the configuration that a sender negotiated or sent.
/// Each of these ends the track it was found on.
#[derive(Debug, Clone, Copy, PartialEq, Eq, Structural)]
pub enum NegotiationError {
    /// The session description names no `profile-level-id`.
    MissingProfileLevelId,
    /// What follows `profile-level-id=` is not six characters with hexadecimal
    /// digits for the profile and the level.
    MalformedProfileLevelId,
    /// The first key frame does not start with the STAP-A marker.
    NotStapA,
    /// A unit of the aggregation declares more bytes than are left, or the
    /// aggregation ends inside a length.
    TruncatedStapA,
    /// The aggregation holds more parameter sets than a record can declare.
    TooManyParameterSets,
}

} // verus!
