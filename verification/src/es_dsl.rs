//! The boolean-DSL translator: a condition rendered as an Elasticsearch-style
//! boolean query document over the fixed field name `target_field`, using the
//! clauses `match`, `match_phrase` and `bool` with `must` / `should` / `must_not`.

use vstd::prelude::*;

use crate::condition::{Condition, ConditionView, Operator};

verus! {

/// A JSON value as this library builds it: strings, arrays, and objects with
/// ordered fields. The transport layer turns it into wire JSON unchanged.
#[derive(Debug, PartialEq, Eq)]
pub enum JsonValue {
    Str(String),
    Arr(Vec<JsonValue>),
    Obj(Vec<(String, JsonValue)>),
}

/// Mathematical model of a [`JsonValue`]: the same value over `Seq<char>`.
#[verifier::ext_equal]
pub enum JsonView {
    Str(Seq<char>),
    Arr(Seq<JsonView>),
    Obj(Seq<(Seq<char>, JsonView)>),
}

/// The model of a [`JsonValue`], element for element, field for field.
pub open spec fn json_value_view(v: JsonValue) -> JsonView
    decreases v,
{
    match v {
        JsonValue::Str(s) => JsonView::Str(s@),
        JsonValue::Arr(items) => JsonView::Arr(
            Seq::new(
                items@.len(),
                |i: int|
                    if 0 <= i < items@.len() {
                        json_value_view(items[i])
                    } else {
                        arbitrary()
                    },
            ),
        ),
        JsonValue::Obj(fields) => JsonView::Obj(
            Seq::new(
                fields@.len(),
                |i: int|
                    if 0 <= i < fields@.len() {
                        (fields[i].0@, json_value_view(fields[i].1))
                    } else {
                        arbitrary()
                    },
            ),
        ),
    }
}

impl View for JsonValue {
    type V = JsonView;

    open spec fn view(&self) -> JsonView {
        json_value_view(*self)
    }
}

/// An object with a single field.
pub open spec fn obj1_view(key: Seq<char>, v: JsonView) -> JsonView {
    JsonView::Obj(seq![(key, v)])
}

/// The empty JSON object: the translation of `Empty` and the fallback body.
pub open spec fn empty_object_view() -> JsonView {
    JsonView::Obj(Seq::empty())
}

/// What the boolean-DSL translator returns: `match` / `match_phrase` leaves on
/// `target_field`, `bool.must_not` for negation, `bool.must` / `bool.should`
/// for conjunction / disjunction with children in input order, and the empty
/// object for `Empty`.
pub open spec fn es_dsl_of(c: ConditionView) -> JsonView
    decreases c,
{
    match c {
        ConditionView::Empty => empty_object_view(),
        ConditionView::Keyword(s) => obj1_view(
            "match"@,
            obj1_view("target_field"@, JsonView::Str(s)),
        ),
        ConditionView::PhraseKeyword(s) => obj1_view(
            "match_phrase"@,
            obj1_view("target_field"@, JsonView::Str(s)),
        ),
        ConditionView::Not(c0) => obj1_view("bool"@, obj1_view("must_not"@, es_dsl_of(*c0))),
        ConditionView::Operator(op, cs) => {
            let children = JsonView::Arr(
                Seq::new(
                    cs.len(),
                    |i: int|
                        if 0 <= i < cs.len() {
                            es_dsl_of(cs[i])
                        } else {
                            arbitrary()
                        },
                ),
            );
            match op {
                Operator::And => obj1_view("bool"@, obj1_view("must"@, children)),
                Operator::Or => obj1_view("bool"@, obj1_view("should"@, children)),
            }
        },
    }
}

impl JsonValue {
    /// The empty JSON object, `{}`.
    pub fn empty_object() -> (r: JsonValue)
        ensures
            r@ == empty_object_view(),
    {
        let r = JsonValue::Obj(Vec::new());
        proof {
            assert(r@->Obj_0 =~= Seq::<(Seq<char>, JsonView)>::empty());
        }
        r
    }

    /// An object with the single field `key`, holding `v`.
    pub fn object_with(key: &str, v: JsonValue) -> (r: JsonValue)
        ensures
            r@ == obj1_view(key@, v@),
    {
        let ghost v0 = v@;
        let mut fields: Vec<(String, JsonValue)> = Vec::new();
        fields.push((key.to_string(), v));
        let r = JsonValue::Obj(fields);
        proof {
            assert(r@->Obj_0 =~= seq![(key@, v0)]);
        }
        r
    }
}

/// The boolean-DSL translator: total over conditions, never fails.
#[verifier::loop_isolation(false)]
pub fn es_dsl_json(condition: &Condition) -> (r: JsonValue)
    ensures
        r@ == es_dsl_of(condition@),
    decreases condition,
{
    match condition {
        Condition::Empty => JsonValue::empty_object(),
        Condition::Keyword(value) => JsonValue::object_with(
            "match",
            JsonValue::object_with("target_field", JsonValue::Str(value.clone())),
        ),
        Condition::PhraseKeyword(value) => JsonValue::object_with(
            "match_phrase",
            JsonValue::object_with("target_field", JsonValue::Str(value.clone())),
        ),
        Condition::Not(c0) => JsonValue::object_with(
            "bool",
            JsonValue::object_with("must_not", es_dsl_json(c0)),
        ),
        Condition::Operator(op, cs) => {
            let mut children: Vec<JsonValue> = Vec::new();
            let mut i: usize = 0;
            while i < cs.len()
                invariant
                    i <= cs.len(),
                    children@.len() == i as int,
                    forall|j: int| 0 <= j < i as int ==> children@[j]@ == es_dsl_of(cs@[j]@),
                decreases cs.len() - i,
            {
                proof {
                    assert(decreases_to!(*condition => condition->Operator_1));
                    assert(decreases_to!(condition->Operator_1 => condition->Operator_1[i as int]));
                }
                children.push(es_dsl_json(&cs[i]));
                i = i + 1;
            }
            let arr = JsonValue::Arr(children);
            proof {
                let inner = es_dsl_of(condition@)->Obj_0[0].1->Obj_0[0].1->Arr_0;
                assert(arr@->Arr_0 =~= inner);
            }
            match op {
                Operator::And => JsonValue::object_with("bool", JsonValue::object_with("must", arr)),
                Operator::Or => JsonValue::object_with(
                    "bool",
                    JsonValue::object_with("should", arr),
                ),
            }
        },
    }
}

} // verus!
