//! An arithmetic-expression evaluator: given a parsed expression tree and a
//! scope binding identifiers to numbers or callables, it computes a single
//! numeric result or reports the first error met.
//!
//! Numbers are IEEE-754 double-precision values, carried everywhere as their
//! 64-bit patterns; the primitive arithmetic on those patterns is delegated
//! to outside soft-float code (see `num`), while the evaluator's own logic —
//! operator semantics, tree walking, scope resolution, error propagation —
//! is verified.

pub mod ast;
pub mod error;
pub mod eval;
pub mod laws;
pub mod num;
pub mod scope;
pub mod tokens;

pub use ast::Args;
pub use ast::Node;
pub use ast::Root;
pub use ast::resolve_fn;
pub use ast::resolve_var;
pub use error::Error;
pub use eval::EvaluationResult;
pub use eval::Evaluate;
pub use eval::eval_operator;
pub use num::NumericLiteral;
pub use scope::CustomFn;
pub use scope::NoFunction;
pub use scope::Scope;
pub use scope::Variable;
pub use tokens::Operator;
pub use tokens::Token;
