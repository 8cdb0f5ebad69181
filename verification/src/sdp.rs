//! The profile and level that a session description negotiates.
//!
//! The answer of the remote side names them in its format parameters as
//! `profile-level-id=XXYYZZ`: six hexadecimal digits, of which `XX` is the
//! profile indication and `ZZ` the level indication.

use crate::error::NegotiationError;
use vstd::prelude::*;
use vstd::string::StringSliceAdditionalSpecFns;

verus! {

/// What stands in front of the six digits.
pub const PROFILE_PREFIX: &'static str = "profile-level-id=";

/// The bytes of [`PROFILE_PREFIX`].
pub open spec fn prefix_bytes() -> Seq<u8> {
    PROFILE_PREFIX.spec_bytes()
}

/// Whether the prefix stands in `text` at position `at`.
pub open spec fn prefix_at(text: Seq<u8>, at: int) -> bool {
    0 <= at && at + prefix_bytes().len() <= text.len() && text.subrange(
        at,
        at + prefix_bytes().len(),
    ) == prefix_bytes()
}

/// The first position at or behind `from` where the prefix stands.
pub open spec fn prefix_position(text: Seq<u8>, from: int) -> Option<int>
    decreases text.len() - from,
{
    if from < 0 || from >= text.len() || from + prefix_bytes().len() > text.len() {
        None
    } else if prefix_at(text, from) {
        Some(from)
    } else {
        prefix_position(text, from + 1)
    }
}

/// The value of a hexadecimal digit, in either case.
pub open spec fn hex_value(digit: u8) -> Option<u8> {
    if 0x30 <= digit <= 0x39 {
        Some((digit - 0x30) as u8)
    } else if 0x61 <= digit <= 0x66 {
        Some((digit - 0x61 + 10) as u8)
    } else if 0x41 <= digit <= 0x46 {
        Some((digit - 0x41 + 10) as u8)
    } else {
        None
    }
}

/// The byte that two hexadecimal digits stand for.
pub open spec fn hex_byte(high: u8, low: u8) -> Option<u8> {
    match (hex_value(high), hex_value(low)) {
        (Some(h), Some(l)) => Some((h * 16 + l) as u8),
        _ => None,
    }
}

/// The profile and the level indication that the text negotiates: the first
/// and the third pair of the six characters behind the first occurrence of
/// the prefix. The pair between them is not looked at.
pub open spec fn negotiated_profile_level(text: Seq<u8>) -> Result<(u8, u8), NegotiationError> {
    match prefix_position(text, 0) {
        None => Err(NegotiationError::MissingProfileLevelId),
        Some(at) => {
            let start = at + prefix_bytes().len();
            if text.len() < start + 6 {
                Err(NegotiationError::MalformedProfileLevelId)
            } else {
                match (
                    hex_byte(text[start], text[start + 1]),
                    hex_byte(text[start + 4], text[start + 5]),
                ) {
                    (Some(profile), Some(level)) => Ok((profile, level)),
                    _ => Err(NegotiationError::MalformedProfileLevelId),
                }
            }
        },
    }
}

/// The prefix is seventeen bytes long.
pub proof fn lemma_prefix_len()
    ensures
        prefix_bytes().len() == 17,
{
    reveal_strlit("profile-level-id=");
    assert(vstd::string::is_ascii("profile-level-id="));
}

fn hex_digit(digit: u8) -> (value: Option<u8>)
    ensures
        value == hex_value(digit),
{
    if 0x30 <= digit && digit <= 0x39 {
        Some(digit - 0x30)
    } else if 0x61 <= digit && digit <= 0x66 {
        Some(digit - 0x61 + 10)
    } else if 0x41 <= digit && digit <= 0x46 {
        Some(digit - 0x41 + 10)
    } else {
        None
    }
}

fn hex_pair(high: u8, low: u8) -> (value: Option<u8>)
    ensures
        value == hex_byte(high, low),
{
    match (hex_digit(high), hex_digit(low)) {
        (Some(h), Some(l)) => Some(h * 16 + l),
        _ => None,
    }
}

/// Whether `prefix` stands in `text` at position `at`.
fn stands_at(text: &[u8], at: usize, prefix: &[u8]) -> (found: bool)
    requires
        at + prefix@.len() <= text@.len(),
    ensures
        found == (text@.subrange(at as int, at + prefix@.len()) == prefix@),
{
    let mut i: usize = 0;
    while i < prefix.len()
        invariant
            i <= prefix.len(),
            at + prefix.len() <= text.len(),
            forall|k: int| 0 <= k < i ==> text@[at + k] == prefix@[k],
        decreases prefix.len() - i,
    {
        if text[at + i] != prefix[i] {
            assert(text@.subrange(at as int, at + prefix@.len())[i as int] != prefix@[i as int]);
            return false;
        }
        i = i + 1;
    }
    assert(text@.subrange(at as int, at + prefix@.len()) =~= prefix@);
    true
}

/// Where the prefix first stands in `text`.
fn find_prefix(text: &[u8]) -> (position: Option<usize>)
    ensures
        match position {
            Some(at) => prefix_position(text@, 0) == Some(at as int) && prefix_at(text@, at as int),
            None => prefix_position(text@, 0).is_none(),
        },
{
    let prefix = PROFILE_PREFIX.as_bytes();
    proof {
        lemma_prefix_len();
    }
    if text.len() < prefix.len() {
        return None;
    }
    let last: usize = text.len() - prefix.len();
    let mut at: usize = 0;
    while at <= last
        invariant
            prefix@ == prefix_bytes(),
            prefix.len() == 17,
            last + prefix.len() == text.len(),
            at <= last + 1,
            prefix_position(text@, 0) == prefix_position(text@, at as int),
        decreases last + 1 - at,
    {
        if stands_at(text, at, prefix) {
            return Some(at);
        }
        at = at + 1;
    }
    None
}

/// Reads the negotiated profile and level indication out of a session
/// description.
pub fn parse_profile_level_id(sdp: &str) -> (parsed: Result<(u8, u8), NegotiationError>)
    ensures
        parsed == negotiated_profile_level(sdp.spec_bytes()),
{
    let text = sdp.as_bytes();
    match find_prefix(text) {
        None => Err(NegotiationError::MissingProfileLevelId),
        Some(at) => {
            let prefix = PROFILE_PREFIX.as_bytes();
            assert(at + prefix@.len() <= text.len());
            let start: usize = at + prefix.len();
            if text.len() - start < 6 {
                return Err(NegotiationError::MalformedProfileLevelId);
            }
            match (hex_pair(text[start], text[start + 1]), hex_pair(
                text[start + 4],
                text[start + 5],
            )) {
                (Some(profile), Some(level)) => Ok((profile, level)),
                _ => Err(NegotiationError::MalformedProfileLevelId),
            }
        },
    }
}

} // verus!
