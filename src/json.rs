//! The JSON values that a constraint's right operand holds, and the two
//! calls into serde_json that the editors make: parsing typed text and
//! rendering a value as text.
use vstd::prelude::*;

verus! {

#[verifier::external_type_specification]
#[verifier::external_body]
pub struct ExJsonValue(serde_json::Value);

/// Relies on the derived `Clone` of `serde_json::Value`, which copies the value
/// structurally.
pub assume_specification[ <serde_json::Value as Clone>::clone ](v: &serde_json::Value) -> (r:
    serde_json::Value)
    ensures
        r == *v,
;

/// The value that serde_json parses from a text, or `None` when the text is
/// not a JSON document.
pub uninterp spec fn json_parse(text: Seq<char>) -> Option<serde_json::Value>;

/// The compact JSON text that serde_json renders for a value.
pub uninterp spec fn json_text(value: serde_json::Value) -> Seq<char>;

/// Relies on `serde_json::from_str::<serde_json::Value>`: the outcome depends on
/// the text alone.
#[verifier::external_body]
pub(crate) fn parse_json(text: &str) -> (r: Option<serde_json::Value>)
    ensures
        r == json_parse(text@),
{
    serde_json::from_str::<serde_json::Value>(text).ok()
}

/// Relies on the `Display` impl of `serde_json::Value`, which writes the value
/// as compact JSON; the text depends on the value alone.
#[verifier::external_body]
pub(crate) fn render_json(value: &serde_json::Value) -> (r: String)
    ensures
        r@ == json_text(*value),
{
    value.to_string()
}

/// Relies on `serde_json::Value::Null`, the value that serde_json parses from
/// the text `null`.
#[verifier::external_body]
pub(crate) fn json_null() -> (r: serde_json::Value)
    ensures
        json_parse("null"@) == Some(r),
{
    serde_json::Value::Null
}

} // verus!
