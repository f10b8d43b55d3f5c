//! Reading the parts of a cheatcode call.

use crate::error::HintError;
use vstd::prelude::*;
use vstd::utf8::{decode_utf8, valid_utf8};

verus! {

/// The words of the error for a selector that is no text.
pub open spec fn selector_error_text() -> Seq<char> {
    "Failed to parse the cheatcode selector"@
}

/// The text that the bytes encode in UTF-8, by `String::from_utf8` of the
/// standard library: there is one exactly where the bytes are valid UTF-8.
#[verifier::external_body]
fn string_from_utf8(bytes: &[u8]) -> (text: Option<String>)
    ensures
        text is Some <==> valid_utf8(bytes@),
        text matches Some(s) ==> s@ == decode_utf8(bytes@),
{
    String::from_utf8(bytes.to_vec()).ok()
}

/// Reads the selector of a cheatcode call, which names the operation: the
/// big-endian bytes of the selector are the name in UTF-8. Bytes that are no
/// valid UTF-8 are an error.
pub fn parse_selector(selector: &[u8]) -> (parsed: Result<String, HintError>)
    ensures
        valid_utf8(selector@) ==> (parsed matches Ok(name) && name@ == decode_utf8(selector@)),
        !valid_utf8(selector@) ==> (parsed matches Err(error) && error.text()
            == selector_error_text()),
{
    match string_from_utf8(selector) {
        Some(name) => Ok(name),
        None => Err(HintError::custom("Failed to parse the cheatcode selector")),
    }
}

} // verus!
