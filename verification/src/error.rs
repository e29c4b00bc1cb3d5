//! The errors an evaluation can end in. Every error is terminal for the
//! evaluation call that produced it: the first one met in a depth-first,
//! left-to-right walk is returned to the caller unchanged.

use vstd::prelude::*;

verus! {

/// What went wrong during an evaluation, carrying the label of the item
/// at fault.
#[derive(Clone, Debug, PartialEq)]
pub enum Error {
    /// An operator node had no argument list, or an operator was given
    /// fewer operands than it requires. Carries the operator's display
    /// name.
    MissingOperands(String),
    /// A function-call node had no argument list. Carries the function
    /// name.
    NotEnoughFunctionParams(String),
    /// A variable name was unbound, or bound to a callable where a number
    /// was expected. Carries the name.
    UnresolvedVariable(String),
    /// A function name was unbound, or bound to a number where a callable
    /// was expected. Carries the name.
    UnresolvedFunction(String),
    /// A node kind the evaluator does not recognize reached the dispatch
    /// point. Carries a description of the offending token.
    CannotEvaluateToken(String),
}

/// The mathematical shadow of `Error`: the same variants over sequences
/// of characters, used by the contracts.
pub enum ErrorView {
    MissingOperands(Seq<char>),
    NotEnoughFunctionParams(Seq<char>),
    UnresolvedVariable(Seq<char>),
    UnresolvedFunction(Seq<char>),
    CannotEvaluateToken(Seq<char>),
}

impl View for Error {
    type V = ErrorView;

    open spec fn view(&self) -> ErrorView {
        match self {
            Error::MissingOperands(s) => ErrorView::MissingOperands(s@),
            Error::NotEnoughFunctionParams(s) => ErrorView::NotEnoughFunctionParams(s@),
            Error::UnresolvedVariable(s) => ErrorView::UnresolvedVariable(s@),
            Error::UnresolvedFunction(s) => ErrorView::UnresolvedFunction(s@),
            Error::CannotEvaluateToken(s) => ErrorView::CannotEvaluateToken(s@),
        }
    }
}

} // verus!
