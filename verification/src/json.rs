//! JSON text of plain values, as `serde_json` writes it.

use vstd::prelude::*;

verus! {

/// The error of `serde_json`.
#[verifier::external_type_specification]
#[verifier::external_body]
pub struct ExJsonError(serde_json::Error);

/// The JSON text of a list of strings: an array of JSON strings, as
/// `serde_json` writes it in its compact form.
pub uninterp spec fn json_array_text(items: Seq<Seq<char>>) -> Seq<char>;

/// `serde_json::to_string` on a list of strings. Believed of it: the text
/// that it gives is a function of the strings alone.
#[verifier::external_body]
pub(crate) fn string_array(items: &Vec<String>) -> (r: Result<String, serde_json::Error>)
    ensures
        r matches Ok(s) ==> s@ == json_array_text(items.deep_view()),
{
    serde_json::to_string(items)
}

} // verus!
