//! The play interface of the media server: where it stands, and what it
//! answers.

use crate::error::NegotiationError;
use crate::sdp::{negotiated_profile_level, parse_profile_level_id};
use vstd::prelude::*;
use vstd::string::StringExecFns;
use vstd::utf8::encode_utf8;

verus! {

/// The answer to a play request.
#[derive(Debug)]
pub struct PlayResult {
    pub code: i32,
    pub server: Option<String>,
    /// The session description of the remote side.
    pub sdp: String,
    pub session_id: String,
}

impl PlayResult {
    /// The profile and the level indication that the answer negotiates.
    pub fn profile_level(&self) -> (parsed: Result<(u8, u8), NegotiationError>)
        ensures
            parsed == negotiated_profile_level(encode_utf8(self.sdp@)),
    {
        parse_profile_level_id(self.sdp.as_str())
    }
}

/// The character of a decimal digit.
pub open spec fn digit_char(digit: nat) -> char {
    if digit == 0 {
        '0'
    } else if digit == 1 {
        '1'
    } else if digit == 2 {
        '2'
    } else if digit == 3 {
        '3'
    } else if digit == 4 {
        '4'
    } else if digit == 5 {
        '5'
    } else if digit == 6 {
        '6'
    } else if digit == 7 {
        '7'
    } else if digit == 8 {
        '8'
    } else {
        '9'
    }
}

/// A number in decimal digits, without leading zeros.
pub open spec fn decimal(number: nat) -> Seq<char>
    decreases number,
{
    if number < 10 {
        seq![digit_char(number)]
    } else {
        decimal(number / 10).push(digit_char(number % 10))
    }
}

/// The address of the play interface of a server.
pub open spec fn play_url(host: Seq<char>, port: u16) -> Seq<char> {
    "https://"@ + host + ":"@ + decimal(port as nat) + "/rtc/v1/play/"@
}

fn digit_text(digit: u16) -> (text: &'static str)
    requires
        digit < 10,
    ensures
        text@ == seq![digit_char(digit as nat)],
{
    proof {
        reveal_strlit("0");
        reveal_strlit("1");
        reveal_strlit("2");
        reveal_strlit("3");
        reveal_strlit("4");
        reveal_strlit("5");
        reveal_strlit("6");
        reveal_strlit("7");
        reveal_strlit("8");
        reveal_strlit("9");
    }
    let text = if digit == 0 {
        "0"
    } else if digit == 1 {
        "1"
    } else if digit == 2 {
        "2"
    } else if digit == 3 {
        "3"
    } else if digit == 4 {
        "4"
    } else if digit == 5 {
        "5"
    } else if digit == 6 {
        "6"
    } else if digit == 7 {
        "7"
    } else if digit == 8 {
        "8"
    } else {
        "9"
    };
    assert(text@ =~= seq![digit_char(digit as nat)]);
    text
}

fn decimal_text(number: u16) -> (text: String)
    ensures
        text@ == decimal(number as nat),
    decreases number,
{
    if number < 10 {
        String::from_str(digit_text(number))
    } else {
        let mut text = decimal_text(number / 10);
        let last = digit_text(number % 10);
        text.append(last);
        assert(text@ =~= decimal((number / 10) as nat).push(digit_char((number % 10) as nat)));
        text
    }
}

/// The address of the play interface of the server at `host` and `port`.
pub fn api_url(host: &str, port: u16) -> (url: String)
    ensures
        url@ == play_url(host@, port),
{
    let mut url = String::from_str("https://");
    url.append(host);
    url.append(":");
    let number = decimal_text(port);
    url.append(number.as_str());
    url.append("/rtc/v1/play/");
    url
}

} // verus!
