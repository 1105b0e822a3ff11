//! The sysex payload as the caller supplies it: hexadecimal text decoded
//! into raw bytes before any native call is attempted.

use vstd::prelude::*;
use crate::error::Error;

verus! {

/// True of the sixteen digit characters, either case.
pub open spec fn is_hex_digit(c: char) -> bool {
    ('0' <= c && c <= '9') || ('a' <= c && c <= 'f') || ('A' <= c && c <= 'F')
}

/// The numeric value of one hexadecimal digit.
pub open spec fn hex_digit_value(c: char) -> int {
    if '0' <= c && c <= '9' {
        c as int - '0' as int
    } else if 'a' <= c && c <= 'f' {
        10 + c as int - 'a' as int
    } else {
        10 + c as int - 'A' as int
    }
}

/// True of text that decodes: an even count of characters, every one a
/// hexadecimal digit.
pub open spec fn valid_hex(s: Seq<char>) -> bool {
    s.len() % 2 == 0 && (forall|i: int| 0 <= i < s.len() ==> is_hex_digit(s[i]))
}

/// The bytes valid hexadecimal text decodes to, one byte per digit pair,
/// high digit first.
pub open spec fn hex_bytes(s: Seq<char>) -> Seq<u8> {
    Seq::new((s.len() / 2) as nat, |i: int| (16 * hex_digit_value(s[2 * i]) + hex_digit_value(s[2 * i + 1])) as u8)
}

/// Relies on `hex::decode`: an even count of hexadecimal digits (either
/// case) decodes pairwise to bytes; an odd count or any other character
/// fails.
#[verifier::external_body]
fn hex_decode(s: &str) -> (r: Option<Vec<u8>>)
    ensures
        r is Some <==> valid_hex(s@),
        r matches Some(v) ==> v@ == hex_bytes(s@),
{
    hex::decode(s).ok()
}

/// A raw sysex payload, the bytes a hexadecimal text token decoded to.
/// The core imposes no length restriction and does not validate framing.
#[derive(Clone, Debug, PartialEq)]
pub struct HexData(pub Vec<u8>);

impl HexData {
    /// Decodes a hexadecimal text token into a payload. `Err(Input)`
    /// exactly when the text is malformed: an odd digit count or a
    /// character that is no hexadecimal digit.
    pub fn from_str(s: &str) -> (r: Result<HexData, Error>)
        ensures
            r is Ok <==> valid_hex(s@),
            r matches Ok(h) ==> h.0@ == hex_bytes(s@),
            r matches Err(e) ==> e == Error::Input,
    {
        match hex_decode(s) {
            Some(v) => Ok(HexData(v)),
            None => Err(Error::Input),
        }
    }
}

} // verus!
