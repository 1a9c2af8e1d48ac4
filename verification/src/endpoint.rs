//! The request endpoint layer's compute side: parse a raw query text and
//! translate the condition, degrading to the empty document when the parser
//! rejects the text. Parse failure is never surfaced as an error to the
//! caller; only an error message to log is handed back alongside the body.

use vstd::prelude::*;

use crate::condition::Condition;
use crate::es_dsl::{empty_object_view, es_dsl_json, es_dsl_of, JsonValue};
use crate::generic::{empty_generic, generic_of, json, ConditionJson};
use crate::parser::{parse_condition, parse_of};

verus! {

/// The generic endpoint's dispatch on a parse outcome: translate on success,
/// degrade to the empty document and hand the error message back on failure.
pub fn generic_response_of(parsed: Result<Condition, String>) -> (r: (
    ConditionJson,
    Option<String>,
))
    ensures
        r.0@ == (match parsed {
            Ok(c) => generic_of(c@),
            Err(_) => empty_generic(),
        }),
        (match parsed {
            Ok(_) => r.1 is None,
            Err(e) => r.1 == Some(e),
        }),
{
    match parsed {
        Ok(c) => (json(&c), None),
        Err(e) => (ConditionJson::none(), Some(e)),
    }
}

/// Response body for `GET /v1/query/{text}`: the generic document for the
/// parsed condition, or the empty document when the parser rejects the text.
/// The second component is the parse error to log, if any; the body itself
/// never reports failure.
pub fn generic_response(query_string: &str) -> (r: (ConditionJson, Option<String>))
    ensures
        r.0@ == (match parse_of(query_string@) {
            Some(c) => generic_of(c),
            None => empty_generic(),
        }),
        (r.1 is Some) == (parse_of(query_string@) is None),
{
    generic_response_of(parse_condition(query_string))
}

/// The DSL endpoint's dispatch on a parse outcome: translate on success,
/// degrade to the empty object and hand the error message back on failure.
pub fn es_dsl_response_of(parsed: Result<Condition, String>) -> (r: (JsonValue, Option<String>))
    ensures
        r.0@ == (match parsed {
            Ok(c) => es_dsl_of(c@),
            Err(_) => empty_object_view(),
        }),
        (match parsed {
            Ok(_) => r.1 is None,
            Err(e) => r.1 == Some(e),
        }),
{
    match parsed {
        Ok(c) => (es_dsl_json(&c), None),
        Err(e) => (JsonValue::empty_object(), Some(e)),
    }
}

/// Response body for `GET /v1/query/{text}/es_dsl`: the boolean-DSL document
/// for the parsed condition, or the empty object when the parser rejects the
/// text. The second component is the parse error to log, if any.
pub fn es_dsl_response(query_string: &str) -> (r: (JsonValue, Option<String>))
    ensures
        r.0@ == (match parse_of(query_string@) {
            Some(c) => es_dsl_of(c),
            None => empty_object_view(),
        }),
        (r.1 is Some) == (parse_of(query_string@) is None),
{
    es_dsl_response_of(parse_condition(query_string))
}

} // verus!
