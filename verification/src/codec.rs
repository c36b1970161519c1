//! Payload encoding and decoding for the text transport: base64 for the
//! wire, UTF-8 for display. The outside encoder and decoder stand behind
//! trusted declarations; everything built on them is verified, including the
//! round trip of an arbitrary byte payload.

use vstd::prelude::*;
use base64::Engine;
use crate::errors::ClientError;

verus! {

/// The base64 rendering (standard alphabet, padded) of a byte sequence.
pub uninterp spec fn b64_of(b: Seq<u8>) -> Seq<char>;

/// What base64 decoding (standard alphabet, padded) yields on a character
/// sequence: the bytes it encodes, or `None` where it is not a valid
/// encoding.
pub uninterp spec fn b64_decoded(s: Seq<char>) -> Option<Seq<u8>>;

/// What `String::from_utf8_lossy` yields on a byte sequence; it depends on
/// the bytes alone.
pub uninterp spec fn utf8_lossy_of(b: Seq<u8>) -> Seq<char>;

/// Relies on base64's `Engine::encode` with the standard padded engine: the
/// result depends on the input bytes alone, and decoding it with the same
/// engine restores the input. The length bound keeps the encoder's output
/// size computation from overflowing.
#[verifier::external_body]
pub(crate) fn b64_encode(bytes: &[u8]) -> (r: String)
    requires
        bytes@.len() <= usize::MAX / 4,
    ensures
        r@ == b64_of(bytes@),
        b64_decoded(r@) == Some(bytes@),
{
    base64::engine::general_purpose::STANDARD.encode(bytes)
}

/// Declares base64's `DecodeError` so the decoder's wrapper can return it;
/// verified code maps it to this library's own error class.
#[verifier::external_type_specification]
#[verifier::external_body]
pub struct ExB64DecodeError(base64::DecodeError);

/// Relies on base64's `Engine::decode` with the standard padded engine: it
/// returns the bytes a valid encoding stands for and rejects anything else.
#[verifier::external_body]
fn b64_try_decode(s: &str) -> (r: Result<Vec<u8>, base64::DecodeError>)
    ensures
        match r {
            Ok(v) => b64_decoded(s@) == Some(v@),
            Err(_) => b64_decoded(s@) is None,
        },
{
    base64::engine::general_purpose::STANDARD.decode(s)
}

/// Relies on `String::from_utf8_lossy`: deterministic in the bytes, and on
/// ASCII input each byte becomes the character with the same value.
#[verifier::external_body]
fn utf8_lossy(bytes: &[u8]) -> (r: String)
    ensures
        r@ == utf8_lossy_of(bytes@),
        (forall|i: int| 0 <= i < bytes@.len() ==> bytes@[i] < 128) ==> (r@.len() == bytes@.len()
            && (forall|i: int| 0 <= i < bytes@.len() ==> r@[i] == bytes@[i] as char)),
{
    String::from_utf8_lossy(bytes).to_string()
}

/// Decodes a base64 payload to its bytes, or reports which error class the
/// failure falls under.
pub fn decode_bytes(payload: &str) -> (r: Result<Vec<u8>, ClientError>)
    ensures
        match r {
            Ok(v) => b64_decoded(payload@) == Some(v@),
            Err(e) => b64_decoded(payload@) is None && e == ClientError::DecodeError,
        },
{
    match b64_try_decode(payload) {
        Ok(v) => Ok(v),
        Err(_) => Err(ClientError::DecodeError),
    }
}

/// What `decode_payload` yields: a valid base64 payload is decoded and read
/// as UTF-8; anything else degrades to the raw text unchanged.
pub open spec fn spec_decode_payload(s: Seq<char>) -> Seq<char> {
    match b64_decoded(s) {
        Some(b) => utf8_lossy_of(b),
        None => s,
    }
}

/// Decodes a polled payload for display: base64-decode, then read the bytes
/// as UTF-8; a payload that is not valid base64 passes through as it came.
pub fn decode_payload(payload: &str) -> (r: String)
    ensures
        r@ == spec_decode_payload(payload@),
{
    match b64_try_decode(payload) {
        Ok(bytes) => utf8_lossy(bytes.as_slice()),
        Err(_) => payload.to_owned(),
    }
}

/// Law: a payload survives the round trip through the text transport —
/// base64-encoding any byte sequence and decoding the result yields exactly
/// the original bytes.
pub fn payload_round_trip(payload: &[u8]) -> (r: Vec<u8>)
    requires
        payload@.len() <= usize::MAX / 4,
    ensures
        r@ == payload@,
{
    let encoded = b64_encode(payload);
    match b64_try_decode(encoded.as_str()) {
        Ok(v) => v,
        Err(_) => {
            proof {
                assert(false);
            }
            Vec::new()
        },
    }
}

} // verus!
