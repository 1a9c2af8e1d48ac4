//! The generic tree translator: a condition rendered as a minimal JSON-like
//! object that mirrors the AST shape. Exactly one of the five optional fields
//! is present for every condition except `Empty`, which renders as `{}`.

use vstd::prelude::*;

use crate::condition::{Condition, ConditionView, Operator};

verus! {

/// The generic JSON-like document: all five fields optional, absence meaning
/// "not this variant". The empty object (all fields absent) is the fallback.
#[derive(Debug, PartialEq, Eq)]
pub struct ConditionJson {
    pub keyword: Option<String>,
    pub phrase_keyword: Option<String>,
    pub not: Option<Box<ConditionJson>>,
    pub and: Option<Vec<ConditionJson>>,
    pub or: Option<Vec<ConditionJson>>,
}

/// Mathematical model of a [`ConditionJson`]: the same object over `Seq<char>`.
#[verifier::ext_equal]
pub struct ConditionJsonView {
    pub keyword: Option<Seq<char>>,
    pub phrase_keyword: Option<Seq<char>>,
    pub not: Option<Box<ConditionJsonView>>,
    pub and: Option<Seq<ConditionJsonView>>,
    pub or: Option<Seq<ConditionJsonView>>,
}

/// The model of a [`ConditionJson`], field for field.
pub open spec fn condition_json_view(j: ConditionJson) -> ConditionJsonView
    decreases j,
{
    ConditionJsonView {
        keyword: match j.keyword {
            Some(s) => Some(s@),
            None => None,
        },
        phrase_keyword: match j.phrase_keyword {
            Some(s) => Some(s@),
            None => None,
        },
        not: match j.not {
            Some(b) => Some(Box::new(condition_json_view(*b))),
            None => None,
        },
        and: match j.and {
            Some(cs) => Some(
                Seq::new(
                    cs@.len(),
                    |i: int|
                        if 0 <= i < cs@.len() {
                            condition_json_view(cs[i])
                        } else {
                            arbitrary()
                        },
                ),
            ),
            None => None,
        },
        or: match j.or {
            Some(cs) => Some(
                Seq::new(
                    cs@.len(),
                    |i: int|
                        if 0 <= i < cs@.len() {
                            condition_json_view(cs[i])
                        } else {
                            arbitrary()
                        },
                ),
            ),
            None => None,
        },
    }
}

impl View for ConditionJson {
    type V = ConditionJsonView;

    open spec fn view(&self) -> ConditionJsonView {
        condition_json_view(*self)
    }
}

/// The models of a sequence of documents, element for element.
pub open spec fn json_views_of(cs: Seq<ConditionJson>) -> Seq<ConditionJsonView> {
    Seq::new(cs.len(), |i: int| cs[i]@)
}

/// The empty generic document: no field present. Both the translation of
/// `Empty` and the universal fallback.
pub open spec fn empty_generic() -> ConditionJsonView {
    ConditionJsonView { keyword: None, phrase_keyword: None, not: None, and: None, or: None }
}

/// What the generic tree translator returns: one field per variant, the empty
/// object for `Empty`; operator children in input order.
pub open spec fn generic_of(c: ConditionView) -> ConditionJsonView
    decreases c,
{
    match c {
        ConditionView::Empty => empty_generic(),
        ConditionView::Keyword(s) => ConditionJsonView { keyword: Some(s), ..empty_generic() },
        ConditionView::PhraseKeyword(s) => ConditionJsonView {
            phrase_keyword: Some(s),
            ..empty_generic()
        },
        ConditionView::Not(c0) => ConditionJsonView {
            not: Some(Box::new(generic_of(*c0))),
            ..empty_generic()
        },
        ConditionView::Operator(op, cs) => {
            let children = Seq::new(
                cs.len(),
                |i: int|
                    if 0 <= i < cs.len() {
                        generic_of(cs[i])
                    } else {
                        arbitrary()
                    },
            );
            match op {
                Operator::And => ConditionJsonView { and: Some(children), ..empty_generic() },
                Operator::Or => ConditionJsonView { or: Some(children), ..empty_generic() },
            }
        },
    }
}

impl ConditionJson {
    /// The empty document: the translation of `Empty` and the fallback body.
    pub fn none() -> (r: Self)
        ensures
            r@ == empty_generic(),
    {
        Self { keyword: None, phrase_keyword: None, not: None, and: None, or: None }
    }

    /// A document with only the `keyword` field present.
    pub fn keyword(value: String) -> (r: Self)
        ensures
            r@ == (ConditionJsonView { keyword: Some(value@), ..empty_generic() }),
    {
        Self { keyword: Some(value), phrase_keyword: None, not: None, and: None, or: None }
    }

    /// A document with only the `phraseKeyword` field present.
    pub fn phrase_keyword(value: String) -> (r: Self)
        ensures
            r@ == (ConditionJsonView { phrase_keyword: Some(value@), ..empty_generic() }),
    {
        Self { keyword: None, phrase_keyword: Some(value), not: None, and: None, or: None }
    }

    /// A document with only the `not` field present: one nested document.
    pub fn not(value: ConditionJson) -> (r: Self)
        ensures
            r@ == (ConditionJsonView { not: Some(Box::new(value@)), ..empty_generic() }),
    {
        Self { keyword: None, phrase_keyword: None, not: Some(Box::new(value)), and: None, or: None }
    }

    /// A document with only the `and` field present: children in given order.
    pub fn and(value: Vec<ConditionJson>) -> (r: Self)
        ensures
            r@ == (ConditionJsonView { and: Some(json_views_of(value@)), ..empty_generic() }),
    {
        let ghost vs = value@;
        let r = Self { keyword: None, phrase_keyword: None, not: None, and: Some(value), or: None };
        proof {
            assert(r@.and->Some_0 =~= json_views_of(vs));
        }
        r
    }

    /// A document with only the `or` field present: children in given order.
    pub fn or(value: Vec<ConditionJson>) -> (r: Self)
        ensures
            r@ == (ConditionJsonView { or: Some(json_views_of(value@)), ..empty_generic() }),
    {
        let ghost vs = value@;
        let r = Self { keyword: None, phrase_keyword: None, not: None, and: None, or: Some(value) };
        proof {
            assert(r@.or->Some_0 =~= json_views_of(vs));
        }
        r
    }
}

/// The generic tree translator: total over conditions, never fails.
#[verifier::loop_isolation(false)]
pub fn json(condition: &Condition) -> (r: ConditionJson)
    ensures
        r@ == generic_of(condition@),
    decreases condition,
{
    match condition {
        Condition::Empty => ConditionJson::none(),
        Condition::Keyword(value) => ConditionJson::keyword(value.clone()),
        Condition::PhraseKeyword(value) => ConditionJson::phrase_keyword(value.clone()),
        Condition::Not(c0) => ConditionJson::not(json(c0)),
        Condition::Operator(op, cs) => {
            let mut children: Vec<ConditionJson> = Vec::new();
            let mut i: usize = 0;
            while i < cs.len()
                invariant
                    i <= cs.len(),
                    children@.len() == i as int,
                    forall|j: int| 0 <= j < i as int ==> children@[j]@ == generic_of(cs@[j]@),
                decreases cs.len() - i,
            {
                proof {
                    assert(decreases_to!(*condition => condition->Operator_1));
                    assert(decreases_to!(condition->Operator_1 => condition->Operator_1[i as int]));
                }
                children.push(json(&cs[i]));
                i = i + 1;
            }
            proof {
                let target = generic_of(condition@);
                match op {
                    Operator::And => {
                        assert(json_views_of(children@) =~= target.and->Some_0);
                    },
                    Operator::Or => {
                        assert(json_views_of(children@) =~= target.or->Some_0);
                    },
                }
            }
            match op {
                Operator::And => ConditionJson::and(children),
                Operator::Or => ConditionJson::or(children),
            }
        },
    }
}

/// How many of the five optional fields are present.
pub open spec fn present_field_count(j: ConditionJsonView) -> int {
    (if j.keyword is Some { 1int } else { 0 }) + (if j.phrase_keyword is Some { 1int } else { 0 })
        + (if j.not is Some { 1int } else { 0 }) + (if j.and is Some { 1int } else { 0 }) + (
    if j.or is Some {
        1int
    } else {
        0
    })
}

/// Law: for every condition except `Empty`, the generic translation has
/// exactly one of the five optional fields present, and it is the field
/// that corresponds to the condition's variant.
pub proof fn lemma_generic_exactly_one_field(c: ConditionView)
    requires
        !(c is Empty),
    ensures
        present_field_count(generic_of(c)) == 1,
        (generic_of(c).keyword is Some) <==> (c is Keyword),
        (generic_of(c).phrase_keyword is Some) <==> (c is PhraseKeyword),
        (generic_of(c).not is Some) <==> (c is Not),
        (generic_of(c).and is Some) <==> (c matches ConditionView::Operator(Operator::And, _)),
        (generic_of(c).or is Some) <==> (c matches ConditionView::Operator(Operator::Or, _)),
{
    match c {
        ConditionView::Empty => {},
        ConditionView::Keyword(_) => {},
        ConditionView::PhraseKeyword(_) => {},
        ConditionView::Not(_) => {},
        ConditionView::Operator(op, _) => {
            match op {
                Operator::And => {},
                Operator::Or => {},
            }
        },
    }
}

} // verus!
