//! What this library takes for granted about decoding text and structured
//! values from bytes.
//!
//! Nothing here is proved. The standard library decides what is valid UTF-8
//! and words its own complaint; `serde_json` decides what is a well-formed
//! value.

use vstd::prelude::*;
use vstd::utf8::{decode_utf8, valid_utf8};
use std::string::FromUtf8Error;
use serde_json::Error as JsonError;

verus! {

/// `std::string::FromUtf8Error`, what `String::from_utf8` returns for bytes
/// that are not UTF-8.
#[verifier::external_type_specification]
#[verifier::external_body]
pub struct ExFromUtf8Error(std::string::FromUtf8Error);

/// `serde_json::Error`, what `serde_json` returns for bytes that it cannot
/// decode into the value asked for.
#[verifier::external_type_specification]
#[verifier::external_body]
pub struct ExJsonError(JsonError);

/// `String::from_utf8` accepts exactly the valid UTF-8 encodings, and the
/// string it makes holds the characters that the bytes encode.
#[verifier::external_body]
pub(crate) fn string_from_utf8(bytes: Vec<u8>) -> (r: Result<String, FromUtf8Error>)
    ensures
        r is Ok <==> valid_utf8(bytes@),
        r is Ok ==> r->Ok_0@ == decode_utf8(bytes@),
{
    String::from_utf8(bytes)
}

/// The text that a `FromUtf8Error` displays. Nothing is claimed of it.
#[verifier::external_body]
pub(crate) fn utf8_error_text(error: &FromUtf8Error) -> String {
    format!("{}", error)
}

/// `serde_json::from_slice` decodes a value from JSON text. Nothing is
/// claimed of what it accepts or returns.
#[verifier::external_body]
pub(crate) fn json_from_slice<T: serde::de::DeserializeOwned>(bytes: &[u8]) -> Result<
    T,
    JsonError,
> {
    serde_json::from_slice::<T>(bytes)
}

/// The text that a `serde_json::Error` displays. Nothing is claimed of it.
#[verifier::external_body]
pub(crate) fn json_error_text(error: &JsonError) -> String {
    format!("{}", error)
}

} // verus!
