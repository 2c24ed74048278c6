//! JSON texts, as the gateway sees them: opaque payloads that are parsed
//! only to check validity and to put them into canonical written form.

use vstd::prelude::*;

verus! {

/// Whether a text is valid JSON, as the parser of the `serde_json` crate
/// decides it.
pub uninterp spec fn is_json(s: Seq<char>) -> bool;

/// The canonical re-serialization of a JSON text: the text of its parsed
/// value, written back without insignificant whitespace. Meaningful only
/// where `is_json` holds.
pub uninterp spec fn canonical_json(s: Seq<char>) -> Seq<char>;

/// Relies on `serde_json::from_str::<Value>`, which succeeds exactly on
/// valid JSON text, and on `serde_json::to_string`, which writes the parsed
/// value back; both results depend on the input text alone.
#[verifier::external_body]
pub(crate) fn canonicalize(s: &str) -> (r: Option<String>)
    ensures
        r is Some <==> is_json(s@),
        r matches Some(c) ==> c@ == canonical_json(s@),
{
    match serde_json::from_str::<serde_json::Value>(s) {
        Ok(v) => Some(serde_json::to_string(&v).unwrap_or_else(|_| String::new())),
        Err(_) => None,
    }
}

} // verus!
