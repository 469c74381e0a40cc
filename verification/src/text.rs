//! Inbound text: byte buffers that the caller hands over, read as UTF-8.

use vstd::prelude::*;
use vstd::utf8::{decode_utf8, valid_utf8};

verus! {

/// The message with which the standard library describes why `bytes` are not
/// valid UTF-8. It is a function of the bytes alone; its wording is the
/// standard library's and is not restated here.
pub uninterp spec fn utf8_error_text(bytes: Seq<u8>) -> Seq<char>;

/// Calls `String::from_utf8` and, where it fails, `to_string` on its error.
///
/// Trusted: the call succeeds exactly on valid UTF-8 and then yields the
/// characters that the bytes encode; otherwise the message is the one that
/// [`utf8_error_text`] names.
#[verifier::external_body]
pub(crate) fn string_from_utf8(buffer: Vec<u8>) -> (r: Result<String, String>)
    ensures
        r matches Ok(s) ==> valid_utf8(buffer@) && s@ == decode_utf8(buffer@),
        r matches Err(m) ==> !valid_utf8(buffer@) && m@ == utf8_error_text(buffer@),
{
    match String::from_utf8(buffer) {
        Ok(s) => Ok(s),
        Err(e) => Err(e.to_string()),
    }
}

} // verus!
