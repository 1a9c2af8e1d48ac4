//! The trusted boundary to the external query parser: the one place where the
//! library leans on `search_query_parser` instead of a proof.

use vstd::prelude::*;

use crate::condition::Condition as AstCondition;
use crate::condition::ConditionView;
use crate::condition::Operator as AstOperator;
use search_query_parser::Condition as ExtCondition;
use search_query_parser::Operator as ExtOperator;

verus! {

/// What the external query parser returns for a given query text, expressed in
/// this library's model: the parsed condition, or `None` when it rejects the
/// text. The parser is a pure function of the text, so its result bears a name.
pub uninterp spec fn parse_of(text: Seq<char>) -> Option<ConditionView>;

#[verifier::external_type_specification]
#[verifier::external_body]
pub struct ExParsedCondition(ExtCondition);

/// Rebuilds the external parser's condition tree as this library's condition,
/// variant for variant, child for child; used only by [`parse_condition`].
#[verifier::external_body]
fn convert_condition(c: ExtCondition) -> AstCondition {
    match c {
        ExtCondition::None => AstCondition::Empty,
        ExtCondition::Keyword(s) => AstCondition::Keyword(s),
        ExtCondition::PhraseKeyword(s) => AstCondition::PhraseKeyword(s),
        ExtCondition::Not(c0) => AstCondition::Not(Box::new(convert_condition(*c0))),
        ExtCondition::Operator(op, cs) => AstCondition::Operator(
            match op {
                ExtOperator::And => AstOperator::And,
                ExtOperator::Or => AstOperator::Or,
            },
            cs.into_iter().map(convert_condition).collect(),
        ),
    }
}

/// Relies on `search_query_parser::parse_query_to_condition`: a pure parser
/// whose result depends on the query text alone; `parse_of` names that result
/// in this library's model. On failure, the rendered parse error is returned
/// for the caller to log.
#[verifier::external_body]
pub(crate) fn parse_condition(text: &str) -> (r: Result<AstCondition, String>)
    ensures
        (r is Ok) == (parse_of(text@) is Some),
        r matches Ok(c) ==> Some(c@) == parse_of(text@),
{
    match search_query_parser::parse_query_to_condition(text) {
        Ok(c) => Ok(convert_condition(c)),
        Err(e) => Err(format!("{e}")),
    }
}

} // verus!
