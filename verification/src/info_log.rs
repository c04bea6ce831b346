//! Info logs: what the driver has to say about a shader or a program that it
//! rejected.
//!
//! The driver reports a log's length with the terminating NUL included, so a
//! log of reported length `n` holds `n - 1` bytes of text.

use vstd::prelude::*;
use vstd::utf8::{decode_utf8, valid_utf8};

verus! {

/// The number of text bytes in a log of reported length `length`, where the
/// driver keeps a log at all.
pub open spec fn text_len_of(length: i32) -> Option<usize> {
    if length >= 1 {
        Some((length - 1) as usize)
    } else {
        None
    }
}

/// The number of text bytes to fetch for a log of reported length `length`;
/// `None` where the driver keeps no log, that is, reports a length below
/// one, and there is nothing to fetch.
pub fn text_len(length: i32) -> (n: Option<usize>)
    ensures
        n == text_len_of(length),
{
    if length >= 1 {
        Some((length - 1) as usize)
    } else {
        None
    }
}

/// Decodes the text bytes of a log with `String::from_utf8`.
///
/// Trusted: the result is `Some` exactly when the bytes are well-formed
/// UTF-8, and then holds the characters that they encode.
#[verifier::external_body]
pub(crate) fn decode(bytes: Vec<u8>) -> (text: Option<String>)
    ensures
        text is Some <==> valid_utf8(bytes@),
        text matches Some(s) ==> s@ == decode_utf8(bytes@),
{
    match String::from_utf8(bytes) {
        Ok(s) => Some(s),
        Err(_) => None,
    }
}

/// Well-formed text of at least one byte decodes to at least one character.
pub proof fn lemma_text_is_nonempty(bytes: Seq<u8>)
    requires
        valid_utf8(bytes),
        bytes.len() > 0,
    ensures
        decode_utf8(bytes).len() > 0,
{
}

} // verus!
