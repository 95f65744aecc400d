//! Decoding of server text into UTF-8.

use vstd::prelude::*;
use vstd::utf8::{decode_utf8, valid_utf8};

verus! {

/// The text encoding negotiated with the server.
#[derive(Clone, Copy, Debug, PartialEq, Eq, Structural)]
pub enum Encoding {
    Utf8String,
    CompoundText,
    /// Neither was negotiated.
    Unknown,
}

/// The bytes that the conversion routine handed back, if it succeeded.
pub open spec fn converted_view(converted: Option<&[u8]>) -> Option<Seq<u8>> {
    match converted {
        Some(c) => Some(c@),
        None => None,
    }
}

/// The UTF-8 bytes of `input`, under the negotiated encoding. For compound
/// text they are what the conversion routine made of it; a failed conversion
/// gives empty text.
pub open spec fn decoded(encoding: Encoding, input: Seq<u8>, converted: Option<Seq<u8>>) -> Seq<u8> {
    match encoding {
        Encoding::Utf8String => input,
        Encoding::CompoundText => match converted {
            Some(c) => c,
            None => Seq::empty(),
        },
        Encoding::Unknown => Seq::empty(),
    }
}

/// The characters of UTF-8 bytes; bytes that are not valid UTF-8 give empty
/// text.
pub open spec fn utf8_text(bytes: Seq<u8>) -> Seq<char> {
    if valid_utf8(bytes) {
        decode_utf8(bytes)
    } else {
        Seq::empty()
    }
}

/// Decode text that the server delivered.
///
/// UTF-8 text is copied unchanged. Compound text is what the conversion
/// routine made of it, passed here as `converted`; a failed conversion
/// (`None`) gives empty text. Any other encoding gives empty text too.
pub fn decode_text(encoding: Encoding, input: &[u8], converted: Option<&[u8]>) -> (r: Vec<u8>)
    ensures
        r@ == decoded(encoding, input@, converted_view(converted)),
{
    match encoding {
        Encoding::Utf8String => vstd::slice::slice_to_vec(input),
        Encoding::CompoundText => match converted {
            Some(c) => vstd::slice::slice_to_vec(c),
            None => Vec::new(),
        },
        Encoding::Unknown => Vec::new(),
    }
}

/// Relies on `String::from_utf8`: it succeeds exactly when the bytes are
/// valid UTF-8, and the string then holds the characters they encode.
#[verifier::external_body]
fn string_from_utf8(bytes: Vec<u8>) -> (r: Option<String>)
    ensures
        r is Some <==> valid_utf8(bytes@),
        r matches Some(s) ==> s@ == decode_utf8(bytes@),
{
    match String::from_utf8(bytes) {
        Ok(s) => Some(s),
        Err(_) => None,
    }
}

/// Decode text that the server delivered into a string (see `decode_text`).
/// Bytes that are not valid UTF-8 give an empty string.
pub fn decode_string(encoding: Encoding, input: &[u8], converted: Option<&[u8]>) -> (r: String)
    ensures
        r@ == utf8_text(decoded(encoding, input@, converted_view(converted))),
{
    let bytes = decode_text(encoding, input, converted);
    match string_from_utf8(bytes) {
        Some(s) => s,
        None => String::new(),
    }
}

} // verus!
