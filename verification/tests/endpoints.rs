use bool_query::condition::Condition;
use bool_query::endpoint::{
    es_dsl_response, es_dsl_response_of, generic_response, generic_response_of,
};
use bool_query::es_dsl::JsonValue;
use bool_query::generic::ConditionJson;

#[test]
fn generic_dispatch_degrades_on_parse_failure() {
    let (body, err) = generic_response_of(Err("bad query".to_string()));
    assert_eq!(body, ConditionJson::none());
    assert_eq!(err, Some("bad query".to_string()));
}

#[test]
fn es_dsl_dispatch_degrades_on_parse_failure() {
    let (body, err) = es_dsl_response_of(Err("bad query".to_string()));
    assert_eq!(body, JsonValue::Obj(vec![]));
    assert_eq!(err, Some("bad query".to_string()));
}

#[test]
fn generic_dispatch_translates_on_success() {
    let (body, err) = generic_response_of(Ok(Condition::Keyword("a".to_string())));
    assert_eq!(body, ConditionJson::keyword("a".to_string()));
    assert_eq!(err, None);
}

#[test]
fn parsed_keywords_become_and_of_keywords() {
    let (body, err) = generic_response("word1 word2");
    assert_eq!(err, None);
    assert_eq!(
        body,
        ConditionJson::and(vec![
            ConditionJson::keyword("word1".to_string()),
            ConditionJson::keyword("word2".to_string()),
        ])
    );
}

#[test]
fn parsed_negation_becomes_not() {
    let (body, err) = generic_response("-word1");
    assert_eq!(err, None);
    assert_eq!(
        body,
        ConditionJson::not(ConditionJson::keyword("word1".to_string()))
    );
}

#[test]
fn parsed_or_becomes_should_clauses() {
    let (body, err) = es_dsl_response("word1 OR word2");
    assert_eq!(err, None);
    let expect = JsonValue::Obj(vec![(
        "bool".to_string(),
        JsonValue::Obj(vec![(
            "should".to_string(),
            JsonValue::Arr(vec![
                JsonValue::Obj(vec![(
                    "match".to_string(),
                    JsonValue::Obj(vec![(
                        "target_field".to_string(),
                        JsonValue::Str("word1".to_string()),
                    )]),
                )]),
                JsonValue::Obj(vec![(
                    "match".to_string(),
                    JsonValue::Obj(vec![(
                        "target_field".to_string(),
                        JsonValue::Str("word2".to_string()),
                    )]),
                )]),
            ]),
        )]),
    )]);
    assert_eq!(body, expect);
}

#[test]
fn blank_query_yields_empty_bodies() {
    let (body, err) = generic_response("   ");
    assert_eq!(err, None);
    assert_eq!(body, ConditionJson::none());

    let (dsl_body, dsl_err) = es_dsl_response("   ");
    assert_eq!(dsl_err, None);
    assert_eq!(dsl_body, JsonValue::Obj(vec![]));
}

#[test]
fn parsed_phrase_becomes_match_phrase() {
    let (body, err) = es_dsl_response("\"word1 word2\"");
    assert_eq!(err, None);
    let expect = JsonValue::Obj(vec![(
        "match_phrase".to_string(),
        JsonValue::Obj(vec![(
            "target_field".to_string(),
            JsonValue::Str("word1 word2".to_string()),
        )]),
    )]);
    assert_eq!(body, expect);
}

#[test]
fn distinct_queries_get_their_own_responses() {
    let (a, _) = generic_response("alpha");
    let (b, _) = generic_response("beta");
    assert_eq!(a, ConditionJson::keyword("alpha".to_string()));
    assert_eq!(b, ConditionJson::keyword("beta".to_string()));
}
