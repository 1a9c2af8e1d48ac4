//! The condition AST: a parsed boolean search query, ready for translation.

use vstd::prelude::*;

verus! {

/// Connective of a grouped condition: conjunction or disjunction.
#[derive(Clone, Copy, Debug, PartialEq, Eq, Structural)]
pub enum Operator {
    And,
    Or,
}

/// A parsed boolean search-query expression.
///
/// `Empty` is the fallback sentinel for "no condition" (an unparsable query).
/// `Not` always holds exactly one child; `Operator` children keep input order.
#[derive(Debug, PartialEq, Eq)]
pub enum Condition {
    Empty,
    Keyword(String),
    PhraseKeyword(String),
    Not(Box<Condition>),
    Operator(Operator, Vec<Condition>),
}

/// Mathematical model of a [`Condition`]: the same tree over `Seq<char>`.
pub enum ConditionView {
    Empty,
    Keyword(Seq<char>),
    PhraseKeyword(Seq<char>),
    Not(Box<ConditionView>),
    Operator(Operator, Seq<ConditionView>),
}

/// The model of a [`Condition`], child for child.
pub open spec fn condition_view(c: Condition) -> ConditionView
    decreases c,
{
    match c {
        Condition::Empty => ConditionView::Empty,
        Condition::Keyword(s) => ConditionView::Keyword(s@),
        Condition::PhraseKeyword(s) => ConditionView::PhraseKeyword(s@),
        Condition::Not(c0) => ConditionView::Not(Box::new(condition_view(*c0))),
        Condition::Operator(op, cs) => ConditionView::Operator(
            op,
            Seq::new(
                cs@.len(),
                |i: int|
                    if 0 <= i < cs@.len() {
                        condition_view(cs[i])
                    } else {
                        arbitrary()
                    },
            ),
        ),
    }
}

impl View for Condition {
    type V = ConditionView;

    open spec fn view(&self) -> ConditionView {
        condition_view(*self)
    }
}

} // verus!
