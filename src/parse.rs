use vstd::prelude::*;
use crate::json::{Json, JsonNumber};
use crate::response::{info_decodes, results_decodes, Info, QueryResults};

verus! {

#[verifier::external_type_specification]
#[verifier::external_body]
pub struct ExJsonValue(serde_json::Value);

/// The JSON value that serde_json reads from a text, or `None` where it refuses the text.
pub uninterp spec fn parsed_json(text: Seq<char>) -> Option<Json>;

/// Relies on serde_json::Value's variants and on Number::as_u64 / as_i64 / to_string:
/// carries a parsed value over into `Json`, variant for variant, integers kept as integers
/// and other numbers as their text. It serves `parse_json` alone, whose contract names
/// the whole result.
#[verifier::external_body]
fn json_from_value(v: serde_json::Value) -> Json {
    match v {
        serde_json::Value::Null => Json::Null,
        serde_json::Value::Bool(b) => Json::Bool(b),
        serde_json::Value::Number(n) => Json::Number(match (n.as_u64(), n.as_i64()) {
            (Some(u), _) => JsonNumber::Unsigned(u),
            (None, Some(i)) => JsonNumber::Negative(i),
            (None, None) => JsonNumber::Decimal(n.to_string()),
        }),
        serde_json::Value::String(s) => Json::Str(s),
        serde_json::Value::Array(a) => Json::Array(a.into_iter().map(json_from_value).collect()),
        serde_json::Value::Object(m) => Json::Object(m.into_iter().map(|(k, x)| (k, json_from_value(x))).collect()),
    }
}

/// Relies on serde_json::from_str: reads a JSON document, which depends on the text alone.
#[verifier::external_body]
fn parse_json(text: &str) -> (r: Option<Json>)
    ensures
        r == parsed_json(text@),
{
    serde_json::from_str::<serde_json::Value>(text).ok().map(json_from_value)
}

/// Reads JSON text into a value, or `None` where the text is not JSON.
pub fn json_from_text(text: &str) -> (r: Option<Json>)
    ensures
        r == parsed_json(text@),
{
    parse_json(text)
}

impl QueryResults {
    /// Decodes one response body of the statement protocol.
    pub fn from_text(text: &str) -> (r: Option<QueryResults>)
        ensures
            match parsed_json(text@) {
                Some(j) => match r {
                    Some(q) => results_decodes(j, q),
                    None => forall|q: QueryResults| !results_decodes(j, q),
                },
                None => r is None,
            },
    {
        match parse_json(text) {
            Some(j) => QueryResults::from_json(j),
            None => None,
        }
    }
}

impl Info {
    /// Decodes the body of the server's metadata endpoint.
    pub fn from_text(text: &str) -> (r: Option<Info>)
        ensures
            match parsed_json(text@) {
                Some(j) => match r {
                    Some(info) => info_decodes(j, info),
                    None => forall|info: Info| !info_decodes(j, info),
                },
                None => r is None,
            },
    {
        match parse_json(text) {
            Some(j) => Info::from_json(j),
            None => None,
        }
    }
}

} // verus!
