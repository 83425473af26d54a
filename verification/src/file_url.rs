//! Decoding of file-reference payloads.
//!
//! A file-reference pasteboard entry carries the UTF-8 text of a
//! `file://`-scheme URL with percent-encoded path segments.  The backend
//! strips the scheme, percent-decodes the rest, and hands the resulting path
//! to its caller; a payload with a different scheme, or one whose decoded
//! bytes are not valid UTF-8, is a malformed reference.

use vstd::prelude::*;
use vstd::utf8::{decode_utf8, valid_utf8};

use crate::errors::Error;

verus! {

/// Whether `b` is an ASCII hexadecimal digit.
pub open spec fn is_hex_digit(b: u8) -> bool {
    (48 <= b && b <= 57) || (65 <= b && b <= 70) || (97 <= b && b <= 102)
}

/// The value of an ASCII hexadecimal digit.
pub open spec fn hex_value(b: u8) -> u8 {
    if 48 <= b && b <= 57 {
        (b - 48) as u8
    } else if 65 <= b && b <= 70 {
        (b - 65 + 10) as u8
    } else {
        (b - 97 + 10) as u8
    }
}

/// Percent-decoding of a byte string: every `%XY` escape with two
/// hexadecimal digits becomes the byte with value `0xXY`; a `%` that is not
/// followed by two hexadecimal digits is kept as it stands, as is everything
/// else.
pub open spec fn percent_decoded(s: Seq<u8>) -> Seq<u8>
    decreases s.len(),
{
    if s.len() == 0 {
        Seq::empty()
    } else if s[0] != 37 {
        seq![s[0]] + percent_decoded(s.drop_first())
    } else if s.len() < 3 {
        s
    } else if is_hex_digit(s[1]) && is_hex_digit(s[2]) {
        seq![(hex_value(s[1]) * 16 + hex_value(s[2])) as u8] + percent_decoded(
            s.subrange(3, s.len() as int),
        )
    } else if !is_hex_digit(s[1]) {
        seq![37] + percent_decoded(s.drop_first())
    } else {
        seq![37, s[1]] + percent_decoded(s.subrange(2, s.len() as int))
    }
}

/// Relies on `urlencoding::decode_binary`: it decodes every `%XY` escape
/// with two hexadecimal digits to the byte `0xXY` and keeps every other
/// byte, including a `%` without a well-formed escape, as it stands.
#[verifier::external_body]
fn percent_decode(b: &Vec<u8>) -> (r: Vec<u8>)
    ensures
        r@ == percent_decoded(b@),
{
    urlencoding::decode_binary(b.as_slice()).into_owned()
}

/// Relies on `String::from_utf8`: it succeeds exactly on valid UTF-8 bytes
/// and returns the string those bytes encode.
#[verifier::external_body]
pub(crate) fn utf8_string(b: Vec<u8>) -> (r: Option<String>)
    ensures
        r is Some <==> valid_utf8(b@),
        r matches Some(s) ==> s@ == decode_utf8(b@),
{
    match String::from_utf8(b) {
        Ok(s) => Some(s),
        Err(_) => None,
    }
}

/// The bytes of the `file://` scheme prefix.
pub open spec fn file_scheme() -> Seq<u8> {
    seq![102, 105, 108, 101, 58, 47, 47]
}

/// Whether the payload starts with the `file://` scheme.
pub open spec fn has_file_scheme(payload: Seq<u8>) -> bool {
    payload.len() >= 7 && payload.subrange(0, 7) == file_scheme()
}

/// The percent-decoded bytes of the payload after the scheme prefix.
pub open spec fn reference_path_bytes(payload: Seq<u8>) -> Seq<u8> {
    percent_decoded(payload.subrange(7, payload.len() as int))
}

/// The path a file-reference payload points at, if the payload is a
/// well-formed reference: the scheme must be `file://` and the
/// percent-decoded remainder must be valid UTF-8.
pub open spec fn file_reference_target(payload: Seq<u8>) -> Option<Seq<char>> {
    if has_file_scheme(payload) && valid_utf8(reference_path_bytes(payload)) {
        Some(decode_utf8(reference_path_bytes(payload)))
    } else {
        None
    }
}

/// Whether the payload starts with the `file://` scheme.
fn scheme_check(payload: &Vec<u8>) -> (r: bool)
    ensures
        r == has_file_scheme(payload@),
{
    if payload.len() < 7 {
        return false;
    }
    let ok = payload[0] == 102 && payload[1] == 105 && payload[2] == 108 && payload[3] == 101
        && payload[4] == 58 && payload[5] == 47 && payload[6] == 47;
    proof {
        assert(forall|i: int|
            0 <= i < 7 ==> payload@.subrange(0, 7)[i] == payload@[i]);
        if ok {
            assert(payload@.subrange(0, 7) =~= file_scheme());
        } else if payload@.subrange(0, 7) == file_scheme() {
            assert(payload@[0] == file_scheme()[0]);
            assert(payload@[1] == file_scheme()[1]);
            assert(payload@[2] == file_scheme()[2]);
            assert(payload@[3] == file_scheme()[3]);
            assert(payload@[4] == file_scheme()[4]);
            assert(payload@[5] == file_scheme()[5]);
            assert(payload@[6] == file_scheme()[6]);
            assert(false);
        }
    }
    ok
}

/// Decodes a file-reference payload into the path it points at.
///
/// Returns the percent-decoded path exactly when the payload is a
/// well-formed `file://` reference, and `InvalidReference` otherwise — both
/// when the scheme prefix is absent and when the decoded path bytes are not
/// valid UTF-8.
pub fn parse_file_reference(payload: &Vec<u8>) -> (r: Result<String, Error>)
    ensures
        r is Ok <==> file_reference_target(payload@) is Some,
        r matches Ok(path) ==> file_reference_target(payload@) == Some(path@),
        r matches Err(e) ==> e is InvalidReference,
{
    if !scheme_check(payload) {
        return Err(Error::InvalidReference);
    }
    let tail = vstd::slice::slice_to_vec(
        vstd::slice::slice_subrange(payload.as_slice(), 7, payload.len()),
    );
    let decoded = percent_decode(&tail);
    match utf8_string(decoded) {
        Some(path) => Ok(path),
        None => Err(Error::InvalidReference),
    }
}

} // verus!
