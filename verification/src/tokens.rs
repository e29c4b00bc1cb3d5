//! The tokens an expression tree is built from. The tokenizer that produces
//! them is an outside collaborator; the evaluator only consumes them, and
//! only four of the kinds below can be evaluated.

use vstd::prelude::*;
use crate::num::NumericLiteral;

verus! {

/// The closed set of built-in operations. No custom operators exist.
#[derive(Clone, Copy, Debug, PartialEq, Eq, Structural)]
pub enum Operator {
    Add,
    Subtract,
    Multiply,
    Divide,
    Exponentiate,
    GreaterThan,
    LessThan,
    GreaterOrEqual,
    LessOrEqual,
    Equal,
    NotEqual,
    LogicalNot,
}

impl Operator {
    /// The operator's display name, as carried by arity errors.
    pub open spec fn spec_name(self) -> Seq<char> {
        match self {
            Operator::Add => "Add"@,
            Operator::Subtract => "Subtract"@,
            Operator::Multiply => "Multiply"@,
            Operator::Divide => "Divide"@,
            Operator::Exponentiate => "Exponentiate"@,
            Operator::GreaterThan => "GreaterThan"@,
            Operator::LessThan => "LessThan"@,
            Operator::GreaterOrEqual => "GreaterOrEqual"@,
            Operator::LessOrEqual => "LessOrEqual"@,
            Operator::Equal => "Equal"@,
            Operator::NotEqual => "NotEqual"@,
            Operator::LogicalNot => "LogicalNot"@,
        }
    }

    /// The operator's display name.
    pub fn name(&self) -> (r: String)
        ensures
            r@ == self.spec_name(),
    {
        match self {
            Operator::Add => "Add".to_owned(),
            Operator::Subtract => "Subtract".to_owned(),
            Operator::Multiply => "Multiply".to_owned(),
            Operator::Divide => "Divide".to_owned(),
            Operator::Exponentiate => "Exponentiate".to_owned(),
            Operator::GreaterThan => "GreaterThan".to_owned(),
            Operator::LessThan => "LessThan".to_owned(),
            Operator::GreaterOrEqual => "GreaterOrEqual".to_owned(),
            Operator::LessOrEqual => "LessOrEqual".to_owned(),
            Operator::Equal => "Equal".to_owned(),
            Operator::NotEqual => "NotEqual".to_owned(),
            Operator::LogicalNot => "LogicalNot".to_owned(),
        }
    }
}

/// One token of the expression language. A node carrying a `Number`,
/// `Operator`, `Function` or `Variable` token can be evaluated; any other
/// token reaching the evaluator is an error.
#[derive(Clone, Debug, PartialEq)]
pub enum Token {
    /// A numeric literal, as an IEEE-754 double bit pattern.
    Number(NumericLiteral),
    /// A built-in operator application.
    Operator(Operator),
    /// A call of a function bound in the scope, by name.
    Function(String),
    /// A reference to a variable bound in the scope, by name.
    Variable(String),
    /// An opening parenthesis left over from tokenizing.
    LeftParenthesis,
    /// A closing parenthesis left over from tokenizing.
    RightParenthesis,
    /// An argument separator left over from tokenizing.
    Comma,
}

impl Token {
    /// The description a `CannotEvaluateToken` error carries: the kind of
    /// the token, by name.
    pub open spec fn spec_describe(self) -> Seq<char> {
        match self {
            Token::Number(_) => "Number"@,
            Token::Operator(_) => "Operator"@,
            Token::Function(_) => "Function"@,
            Token::Variable(_) => "Variable"@,
            Token::LeftParenthesis => "LeftParenthesis"@,
            Token::RightParenthesis => "RightParenthesis"@,
            Token::Comma => "Comma"@,
        }
    }

    /// Describes the token's kind, for error reports.
    pub fn describe(&self) -> (r: String)
        ensures
            r@ == self.spec_describe(),
    {
        match self {
            Token::Number(_) => "Number".to_owned(),
            Token::Operator(_) => "Operator".to_owned(),
            Token::Function(_) => "Function".to_owned(),
            Token::Variable(_) => "Variable".to_owned(),
            Token::LeftParenthesis => "LeftParenthesis".to_owned(),
            Token::RightParenthesis => "RightParenthesis".to_owned(),
            Token::Comma => "Comma".to_owned(),
        }
    }
}

} // verus!
