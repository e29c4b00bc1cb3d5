//! The expression tree, the root wrapper, and the resolution of free
//! identifiers against a scope.

use vstd::prelude::*;
use crate::error::Error;
use crate::error::ErrorView;
use crate::num::NumericLiteral;
use crate::scope::binds_function;
use crate::scope::binds_number;
use crate::scope::NoFunction;
use crate::scope::Scope;
use crate::scope::Variable;
use crate::tokens::Token;

verus! {

/// The ordered child list of an operator or function-call node.
pub type Args = Vec<Node>;

/// One node of the parsed expression tree. The parser guarantees that
/// `args` is present exactly for operator and function-call nodes; the
/// evaluator still checks, and turns absence into a typed error.
pub struct Node {
    /// What the node is: literal, operator, function call, variable
    /// reference, or a leftover token the evaluator rejects.
    pub token: Token,
    /// The child expressions, for operator and function-call nodes.
    pub args: Option<Args>,
}

/// A non-owning pairing of an expression tree with a default scope,
/// offering a zero-argument evaluation entry point. Outlives neither
/// referent.
pub struct Root<'a, F = NoFunction> {
    /// The expression tree to evaluate.
    pub node: &'a Node,
    /// The scope that `eval` (without arguments) evaluates against.
    pub scope: &'a Scope<F>,
}

/// What looking a variable name up must yield: the bound number, or an
/// `UnresolvedVariable` error naming the identifier, when the name is
/// unbound or bound to a callable.
pub open spec fn spec_resolve_var<F>(
    env: Map<Seq<char>, Variable<F>>,
    name: Seq<char>,
) -> Result<NumericLiteral, ErrorView> {
    if binds_number(env, name) {
        Ok(env[name]->Number_0)
    } else {
        Err(ErrorView::UnresolvedVariable(name))
    }
}

/// Resolves a variable name against the scope: a `Number` binding yields
/// its value; a missing binding, or a `Function` where a number was
/// expected, is an `UnresolvedVariable` error carrying the name.
pub fn resolve_var<F>(var_name: &str, scope: &Scope<F>) -> (r: Result<NumericLiteral, Error>)
    ensures
        (match r {
            Ok(v) => Ok::<NumericLiteral, ErrorView>(v),
            Err(e) => Err(e@),
        }) == spec_resolve_var(scope@, var_name@),
{
    match scope.get_var(var_name) {
        Some(Variable::Number(n)) => Ok(*n),
        _ => Err(Error::UnresolvedVariable(var_name.to_owned())),
    }
}

/// Resolves a function name against the scope: a `Function` binding yields
/// the callable; a missing binding, or a `Number` where a callable was
/// expected, is an `UnresolvedFunction` error carrying the name.
pub fn resolve_fn<'a, F>(fn_name: &str, scope: &'a Scope<F>) -> (r: Result<&'a F, Error>)
    ensures
        binds_function(scope@, fn_name@) ==> (r matches Ok(f) && scope@[fn_name@]->Function_0 == *f),
        !binds_function(scope@, fn_name@) ==> (r matches Err(e) && e@ == ErrorView::UnresolvedFunction(
            fn_name@,
        )),
{
    match scope.get_var(fn_name) {
        Some(Variable::Function(f)) => Ok(f),
        _ => Err(Error::UnresolvedFunction(fn_name.to_owned())),
    }
}

} // verus!
