//! The ingestion side: what becomes of the body of an inbound request.

use crate::document::{json_document, read_document};
use vstd::prelude::*;
use vstd::string::{StringExecFns, StringSliceAdditionalSpecFns};
use vstd::utf8::{decode_utf8, encode_utf8_decode_utf8, valid_utf8};

verus! {

/// Calls `std::str::from_utf8` and drops the error. Taken on trust: the call
/// succeeds exactly on valid UTF-8, and the text then consists of the very
/// same bytes.
#[verifier::external_body]
fn utf8_text(bytes: &[u8]) -> (text: Option<&str>)
    ensures
        text.is_some() == valid_utf8(bytes@),
        text matches Some(decoded) ==> decoded.spec_bytes() == bytes@,
{
    std::str::from_utf8(bytes).ok()
}

/// The event text that a request body stands for: the body's own text, as it
/// was received. A body that is not UTF-8, or that the library does not read as
/// JSON, stands for none.
pub open spec fn accepted(body: Seq<u8>) -> Option<Seq<char>> {
    if valid_utf8(body) && json_document(decode_utf8(body)).is_some() {
        Some(decode_utf8(body))
    } else {
        None
    }
}

/// Turns the body of an inbound request into the event text to enqueue, or
/// `None` where the request is to be rejected. The body is parsed only to see
/// that it is JSON; the event is the body as received.
pub fn accept_body(body: &[u8]) -> (event: Option<String>)
    ensures
        event.deep_view() == accepted(body@),
{
    match utf8_text(body) {
        None => None,
        Some(text) => {
            proof {
                encode_utf8_decode_utf8(text@);
            }
            match read_document(text) {
                Some(_) => Some(String::from_str(text)),
                None => None,
            }
        },
    }
}

} // verus!
