use vstd::prelude::*;

verus! {

#[verifier::external_type_specification]
#[verifier::external_body]
pub struct ExJsonValue(serde_json::Value);

#[verifier::external_type_specification]
#[verifier::external_body]
pub struct ExJsonError(serde_json::Error);

/// The 128-bit value of the UUID that `s` spells, if it spells one.
pub uninterp spec fn uuid_of(s: Seq<char>) -> Option<u128>;

/// Whether `s` is syntactically valid JSON text.
pub uninterp spec fn json_parses(s: Seq<char>) -> bool;

/// Relies on uuid::Uuid::try_parse (with Uuid::as_u128): parses the
/// simple, hyphenated, braced and URN forms, and its outcome depends on the
/// text alone.
#[verifier::external_body]
pub(crate) fn parse_uuid(s: &str) -> (r: Option<u128>)
    ensures
        r == uuid_of(s@),
{
    match uuid::Uuid::try_parse(s) {
        Ok(u) => Some(u.as_u128()),
        Err(_) => None,
    }
}

/// Relies on serde_json::from_str into serde_json::Value: succeeds exactly
/// on syntactically valid JSON text.
#[verifier::external_body]
pub(crate) fn parse_json(s: &str) -> (r: Result<serde_json::Value, serde_json::Error>)
    ensures
        r is Ok <==> json_parses(s@),
{
    serde_json::from_str::<serde_json::Value>(s)
}

} // verus!
