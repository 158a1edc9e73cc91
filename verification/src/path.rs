//! Decoding of the path that a foreign caller hands over as bytes.

use crate::error::ParseError;
use vstd::prelude::*;
use vstd::string::StringSliceAdditionalSpecFns;
use vstd::utf8::{decode_utf8, encode_utf8, encode_utf8_decode_utf8, valid_utf8};

verus! {

/// Reads `bytes` as UTF-8 text with `std::str::from_utf8`.
///
/// Trusted: the standard library accepts a slice exactly when it is valid
/// UTF-8, and the text it returns then has these bytes as its encoding.
#[verifier::external_body]
fn utf8_text(bytes: &[u8]) -> (text: Option<&str>)
    ensures
        text is Some <==> valid_utf8(bytes@),
        text matches Some(t) ==> t.spec_bytes() == bytes@,
{
    match std::str::from_utf8(bytes) {
        Ok(text) => Some(text),
        Err(_) => None,
    }
}

/// Decodes the path of a recipe document from the bytes of a foreign string,
/// taken without their terminator.
///
/// An empty path is refused as an invalid argument, and bytes that are not
/// UTF-8 as a path encoding error; any other path is returned as text.
pub fn decode_path(raw: &[u8]) -> (result: Result<String, ParseError>)
    ensures
        raw@.len() == 0 ==> result == Err::<String, ParseError>(ParseError::InvalidArgument),
        raw@.len() > 0 && !valid_utf8(raw@) ==> result == Err::<String, ParseError>(
            ParseError::PathEncoding,
        ),
        raw@.len() > 0 && valid_utf8(raw@) ==> ({
            &&& result matches Ok(path)
            &&& path@ == decode_utf8(raw@)
            &&& encode_utf8(path@) == raw@
        }),
{
    if raw.len() == 0 {
        return Err(ParseError::InvalidArgument);
    }
    match utf8_text(raw) {
        Some(text) => {
            proof {
                encode_utf8_decode_utf8(text@);
            }
            Ok(text.to_owned())
        },
        None => Err(ParseError::PathEncoding),
    }
}

} // verus!
