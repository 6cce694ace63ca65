use vstd::prelude::*;

verus! {

/// The error type of `serde_json`. Nothing is known of what it holds.
#[verifier::external_type_specification]
#[verifier::external_body]
pub struct ExJsonError(serde_json::Error);

/// Calls `to_string` on a `serde_json::Error`, which prints the error through
/// its `Display` impl: the kind of failure and, where known, the line and
/// column. The text depends on the error alone; nothing is claimed of it.
#[verifier::external_body]
pub(crate) fn json_error_text(error: &serde_json::Error) -> (text: String) {
    error.to_string()
}

} // verus!
