//! Decoding of the wire payload: standard base64 text to raw bytes.

use crate::error::DriverError;
use base64::Engine;
use vstd::prelude::*;

verus! {

/// What the standard base64 alphabet with canonical padding makes of `text`:
/// the decoded bytes, or, where `text` is not valid base64, the decoder's
/// description of what is wrong with it.
pub uninterp spec fn standard_base64_decoding(text: Seq<char>) -> Result<Seq<u8>, Seq<char>>;

/// Decodes `text` with `Engine::decode` of
/// `base64::engine::general_purpose::STANDARD`, and describes a failure
/// through the `Display` impl of `base64::DecodeError`.
///
/// Trusted: the outcome depends on `text` alone, so it is the named decoding
/// of `text`. Nothing is claimed of which texts are valid, of the bytes they
/// hold, or of the wording of a description.
#[verifier::external_body]
fn decode_standard(text: &str) -> (decoded: Result<Vec<u8>, String>)
    ensures
        match decoded {
            Ok(bytes) => standard_base64_decoding(text@) == Ok::<Seq<u8>, Seq<char>>(bytes@),
            Err(description) => standard_base64_decoding(text@) == Err::<Seq<u8>, Seq<char>>(
                description@,
            ),
        },
{
    match base64::engine::general_purpose::STANDARD.decode(text) {
        Ok(bytes) => Ok(bytes),
        Err(error) => Err(error.to_string()),
    }
}

/// Decodes a base64 payload into the raw bytes it stands for.
///
/// Succeeds exactly on valid standard base64; any other text is a
/// [`DriverError::Decode`] holding the decoder's description.
pub fn decode_payload(text: &str) -> (decoded: Result<Vec<u8>, DriverError>)
    ensures
        match standard_base64_decoding(text@) {
            Ok(bytes) => decoded is Ok && decoded->Ok_0@ == bytes,
            Err(description) => decoded matches Err(DriverError::Decode(reported))
                && reported@ == description,
        },
{
    match decode_standard(text) {
        Ok(bytes) => Ok(bytes),
        Err(description) => Err(DriverError::Decode(description)),
    }
}

} // verus!
