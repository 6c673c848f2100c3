//! JSON text, as far as the receiver writes it.

use crate::text::text_model;
use vstd::prelude::*;

verus! {

/// The JSON string literal that `serde_json` writes for a piece of text,
/// quotes and escapes included; `None` where it reports an error.
pub uninterp spec fn json_string(text: Seq<char>) -> Option<Seq<char>>;

/// Calls `serde_json::to_string` on a string slice. Nothing is proved about
/// the call: its result is taken to be `json_string` of the text, which only
/// says that the outcome is determined by the text alone.
#[verifier::external_body]
pub(crate) fn quote(text: &str) -> (quoted: Option<String>)
    ensures
        text_model(quoted) == json_string(text@),
{
    serde_json::to_string(text).ok()
}

} // verus!
