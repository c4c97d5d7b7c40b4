use vstd::prelude::*;

verus! {

/// A raw JSON value of the serde_json crate. The library carries such
/// values through opaquely: one stands for each conversation record in a
/// successful payload, whose shape is outside this component.
#[verifier::external_type_specification]
#[verifier::external_body]
pub struct ExValue(serde_json::Value);

/// The serde_json parse error, carried verbatim inside the
/// malformed-response variant of the error taxonomy.
#[verifier::external_type_specification]
#[verifier::external_body]
pub struct ExError(serde_json::Error);

/// The parse diagnostic of a serde_json error, as its `Display`
/// implementation renders it. Relies on serde_json's `Error` alone;
/// nothing is promised of the text.
#[verifier::external_body]
pub(crate) fn json_error_message(e: &serde_json::Error) -> String {
    format!("{}", e)
}

} // verus!
