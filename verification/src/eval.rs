//! The evaluation engine: operator semantics over ordered operand lists,
//! and the recursive tree walk that dispatches on node kind, resolves
//! identifiers, and propagates the first error met.

use vstd::prelude::*;
use crate::ast::Args;
use crate::ast::Node;
use crate::ast::Root;
use crate::ast::resolve_fn;
use crate::ast::resolve_var;
use crate::ast::spec_resolve_var;
use crate::error::Error;
use crate::error::ErrorView;
use crate::num::ABS_MASK;
use crate::num::EPSILON_BITS;
use crate::num::NumericLiteral;
use crate::num::ONE_BITS;
use crate::num::ZERO_BITS;
use crate::num::add_bits;
use crate::num::add_of;
use crate::num::div_bits;
use crate::num::div_of;
use crate::num::eq_bits;
use crate::num::eq_of;
use crate::num::le_bits;
use crate::num::le_of;
use crate::num::lt_bits;
use crate::num::lt_of;
use crate::num::mul_bits;
use crate::num::mul_of;
use crate::num::pow_bits;
use crate::num::pow_of;
use crate::num::sub_bits;
use crate::num::sub_of;
use crate::scope::CustomFn;
use crate::scope::NoFunction;
use crate::scope::Scope;
use crate::scope::Variable;
use crate::scope::binds_function;
use crate::tokens::Operator;
use crate::tokens::Token;

verus! {

/// What evaluating an expression yields: a number, or the first error met.
pub type EvaluationResult = Result<NumericLiteral, Error>;

/// An evaluation result with its error taken to the mathematical level.
pub open spec fn res_view(r: EvaluationResult) -> Result<NumericLiteral, ErrorView> {
    match r {
        Ok(v) => Ok(v),
        Err(e) => Err(e@),
    }
}

/// The left-fold sum of the operands, starting from +0.0 — the order the
/// evaluator adds in.
pub open spec fn spec_sum(s: Seq<NumericLiteral>) -> NumericLiteral
    decreases s.len(),
{
    if s.len() == 0 {
        ZERO_BITS
    } else {
        add_of(spec_sum(s.drop_last()), s.last())
    }
}

/// The left-fold product of the operands, starting from 1.0.
pub open spec fn spec_product(s: Seq<NumericLiteral>) -> NumericLiteral
    decreases s.len(),
{
    if s.len() == 0 {
        ONE_BITS
    } else {
        mul_of(spec_product(s.drop_last()), s.last())
    }
}

/// The left-fold chained power: the accumulator starts at the first
/// operand and is raised to each later operand in order, so the chain is
/// left-associative, not the conventional right-associative reading.
pub open spec fn spec_pow_fold(acc: NumericLiteral, s: Seq<NumericLiteral>) -> NumericLiteral
    decreases s.len(),
{
    if s.len() == 0 {
        acc
    } else {
        pow_of(spec_pow_fold(acc, s.drop_last()), s.last())
    }
}

/// The numeric encoding of a comparison's outcome: 1.0 for true, 0.0 for
/// false.
pub open spec fn bool_bits(b: bool) -> NumericLiteral {
    if b {
        ONE_BITS
    } else {
        ZERO_BITS
    }
}

/// The operator semantics table: what each operator yields on an ordered
/// list of already-evaluated operands.
///
/// - `Add`/`Multiply` fold the whole list (empty list: identity).
/// - `Subtract`/`Divide`/`Exponentiate` need a first operand and fold the
///   rest; an empty list is an arity error carrying the operator's name.
/// - The four order comparisons and `Equal`/`NotEqual` need two operands
///   (extra ones are ignored, as the reference behavior does); missing
///   ones are an arity error rather than an out-of-range access.
/// - `Equal` holds when the absolute difference is strictly below the
///   machine epsilon; `NotEqual` when it is strictly above. A difference
///   of exactly epsilon satisfies neither — that gap is preserved
///   deliberately.
/// - `LogicalNot` needs one operand and yields 1.0 exactly when it is an
///   IEEE zero, else 0.0.
pub open spec fn spec_eval_operator(op: Operator, args: Seq<NumericLiteral>) -> Result<
    NumericLiteral,
    ErrorView,
> {
    match op {
        Operator::Add => Ok(spec_sum(args)),
        Operator::Subtract => if args.len() == 0 {
            Err(ErrorView::MissingOperands(op.spec_name()))
        } else {
            Ok(sub_of(args.first(), spec_sum(args.drop_first())))
        },
        Operator::Multiply => Ok(spec_product(args)),
        Operator::Divide => if args.len() == 0 {
            Err(ErrorView::MissingOperands(op.spec_name()))
        } else {
            Ok(div_of(args.first(), spec_product(args.drop_first())))
        },
        Operator::Exponentiate => if args.len() == 0 {
            Err(ErrorView::MissingOperands(op.spec_name()))
        } else {
            Ok(spec_pow_fold(args.first(), args.drop_first()))
        },
        Operator::GreaterThan => if args.len() < 2 {
            Err(ErrorView::MissingOperands(op.spec_name()))
        } else {
            Ok(bool_bits(lt_of(args[1], args[0])))
        },
        Operator::LessThan => if args.len() < 2 {
            Err(ErrorView::MissingOperands(op.spec_name()))
        } else {
            Ok(bool_bits(lt_of(args[0], args[1])))
        },
        Operator::GreaterOrEqual => if args.len() < 2 {
            Err(ErrorView::MissingOperands(op.spec_name()))
        } else {
            Ok(bool_bits(le_of(args[1], args[0])))
        },
        Operator::LessOrEqual => if args.len() < 2 {
            Err(ErrorView::MissingOperands(op.spec_name()))
        } else {
            Ok(bool_bits(le_of(args[0], args[1])))
        },
        Operator::Equal => if args.len() < 2 {
            Err(ErrorView::MissingOperands(op.spec_name()))
        } else {
            Ok(bool_bits(lt_of(sub_of(args[0], args[1]) & ABS_MASK, EPSILON_BITS)))
        },
        Operator::NotEqual => if args.len() < 2 {
            Err(ErrorView::MissingOperands(op.spec_name()))
        } else {
            Ok(bool_bits(lt_of(EPSILON_BITS, sub_of(args[0], args[1]) & ABS_MASK)))
        },
        Operator::LogicalNot => if args.len() < 1 {
            Err(ErrorView::MissingOperands(op.spec_name()))
        } else {
            Ok(bool_bits(eq_of(args[0], ZERO_BITS)))
        },
    }
}

/// Encodes a truth value as a number: 1.0 for true, 0.0 for false.
fn bool_to_num(b: bool) -> (r: NumericLiteral)
    ensures
        r == bool_bits(b),
{
    if b {
        ONE_BITS
    } else {
        ZERO_BITS
    }
}

/// The logical negation: 1.0 if the operand is an IEEE zero, else 0.0.
/// It only flips zero against non-zero; a non-zero operand other than 1.0
/// is not clamped.
fn negate(n: NumericLiteral) -> (r: NumericLiteral)
    ensures
        r == bool_bits(eq_of(n, ZERO_BITS)),
{
    bool_to_num(eq_bits(n, ZERO_BITS))
}

/// The left-fold sum of `args[start..]`, starting from +0.0.
fn sum_from(args: &[NumericLiteral], start: usize) -> (r: NumericLiteral)
    requires
        start <= args@.len(),
    ensures
        r == spec_sum(args@.skip(start as int)),
{
    let mut acc: NumericLiteral = ZERO_BITS;
    let mut i: usize = start;
    while i < args.len()
        invariant
            start <= i <= args@.len(),
            acc == spec_sum(args@.subrange(start as int, i as int)),
        decreases args@.len() - i,
    {
        acc = add_bits(acc, args[i]);
        proof {
            assert(args@.subrange(start as int, i + 1).drop_last() =~= args@.subrange(
                start as int,
                i as int,
            ));
        }
        i = i + 1;
    }
    proof {
        assert(args@.subrange(start as int, args@.len() as int) =~= args@.skip(start as int));
    }
    acc
}

/// The left-fold product of `args[start..]`, starting from 1.0.
fn product_from(args: &[NumericLiteral], start: usize) -> (r: NumericLiteral)
    requires
        start <= args@.len(),
    ensures
        r == spec_product(args@.skip(start as int)),
{
    let mut acc: NumericLiteral = ONE_BITS;
    let mut i: usize = start;
    while i < args.len()
        invariant
            start <= i <= args@.len(),
            acc == spec_product(args@.subrange(start as int, i as int)),
        decreases args@.len() - i,
    {
        acc = mul_bits(acc, args[i]);
        proof {
            assert(args@.subrange(start as int, i + 1).drop_last() =~= args@.subrange(
                start as int,
                i as int,
            ));
        }
        i = i + 1;
    }
    proof {
        assert(args@.subrange(start as int, args@.len() as int) =~= args@.skip(start as int));
    }
    acc
}

/// Applies an operator to an ordered list of already-evaluated operands:
/// exactly the semantics table `spec_eval_operator`.
pub fn eval_operator(operator: &Operator, args: &[NumericLiteral]) -> (r: EvaluationResult)
    ensures
        res_view(r) == spec_eval_operator(*operator, args@),
{
    match operator {
        Operator::Add => {
            let s = sum_from(args, 0);
            proof {
                assert(args@.skip(0) =~= args@);
            }
            Ok(s)
        },
        Operator::Subtract => {
            if args.len() == 0 {
                Err(Error::MissingOperands(operator.name()))
            } else {
                let rest = sum_from(args, 1);
                proof {
                    assert(args@.skip(1) =~= args@.drop_first());
                }
                Ok(sub_bits(args[0], rest))
            }
        },
        Operator::Multiply => {
            let p = product_from(args, 0);
            proof {
                assert(args@.skip(0) =~= args@);
            }
            Ok(p)
        },
        Operator::Divide => {
            if args.len() == 0 {
                Err(Error::MissingOperands(operator.name()))
            } else {
                let rest = product_from(args, 1);
                proof {
                    assert(args@.skip(1) =~= args@.drop_first());
                }
                Ok(div_bits(args[0], rest))
            }
        },
        Operator::Exponentiate => {
            if args.len() == 0 {
                Err(Error::MissingOperands(operator.name()))
            } else {
                let mut acc: NumericLiteral = args[0];
                let mut i: usize = 1;
                while i < args.len()
                    invariant
                        1 <= i <= args@.len(),
                        acc == spec_pow_fold(args@.first(), args@.subrange(1, i as int)),
                    decreases args@.len() - i,
                {
                    acc = pow_bits(acc, args[i]);
                    proof {
                        assert(args@.subrange(1, i + 1).drop_last() =~= args@.subrange(
                            1,
                            i as int,
                        ));
                    }
                    i = i + 1;
                }
                proof {
                    assert(args@.subrange(1, args@.len() as int) =~= args@.drop_first());
                }
                Ok(acc)
            }
        },
        Operator::GreaterThan => {
            if args.len() < 2 {
                Err(Error::MissingOperands(operator.name()))
            } else {
                Ok(bool_to_num(lt_bits(args[1], args[0])))
            }
        },
        Operator::LessThan => {
            if args.len() < 2 {
                Err(Error::MissingOperands(operator.name()))
            } else {
                Ok(bool_to_num(lt_bits(args[0], args[1])))
            }
        },
        Operator::GreaterOrEqual => {
            if args.len() < 2 {
                Err(Error::MissingOperands(operator.name()))
            } else {
                Ok(bool_to_num(le_bits(args[1], args[0])))
            }
        },
        Operator::LessOrEqual => {
            if args.len() < 2 {
                Err(Error::MissingOperands(operator.name()))
            } else {
                Ok(bool_to_num(le_bits(args[0], args[1])))
            }
        },
        Operator::Equal => {
            if args.len() < 2 {
                Err(Error::MissingOperands(operator.name()))
            } else {
                let diff = sub_bits(args[0], args[1]);
                Ok(bool_to_num(lt_bits(diff & ABS_MASK, EPSILON_BITS)))
            }
        },
        Operator::NotEqual => {
            if args.len() < 2 {
                Err(Error::MissingOperands(operator.name()))
            } else {
                let diff = sub_bits(args[0], args[1]);
                Ok(bool_to_num(lt_bits(EPSILON_BITS, diff & ABS_MASK)))
            }
        },
        Operator::LogicalNot => {
            if args.len() < 1 {
                Err(Error::MissingOperands(operator.name()))
            } else {
                Ok(negate(args[0]))
            }
        },
    }
}

/// How an expression node may evaluate: `eval_rel(n, env, r)` holds of
/// exactly the results `r` that evaluating `n` under the environment `env`
/// may return.
///
/// Every case is pinned except the value a caller-supplied callable
/// returns, which the library passes through unchanged without knowing
/// anything of it.
pub open spec fn eval_rel<F>(
    n: Node,
    env: Map<Seq<char>, Variable<F>>,
    r: Result<NumericLiteral, ErrorView>,
) -> bool
    decreases n, 0int,
{
    match n.token {
        Token::Number(v) => r == Ok::<NumericLiteral, ErrorView>(v),
        Token::Operator(op) => match n.args {
            None => r == Err::<NumericLiteral, ErrorView>(
                ErrorView::MissingOperands(op.spec_name()),
            ),
            Some(children) => (exists|vals: Seq<NumericLiteral>|
                #![trigger vals.len()]
                args_ok(children@, env, vals) && r == spec_eval_operator(op, vals)) || (r matches
            Err(e) && args_first_err(children@, env, e)),
        },
        Token::Function(name) => if !binds_function(env, name@) {
            r == Err::<NumericLiteral, ErrorView>(ErrorView::UnresolvedFunction(name@))
        } else {
            match n.args {
                None => r == Err::<NumericLiteral, ErrorView>(
                    ErrorView::NotEnoughFunctionParams(name@),
                ),
                Some(children) => (exists|vals: Seq<NumericLiteral>|
                    #![trigger vals.len()]
                    args_ok(children@, env, vals)) || (r matches Err(e) && args_first_err(
                    children@,
                    env,
                    e,
                )),
            }
        },
        Token::Variable(name) => r == spec_resolve_var(env, name@),
        _ => r == Err::<NumericLiteral, ErrorView>(
            ErrorView::CannotEvaluateToken(n.token.spec_describe()),
        ),
    }
}

/// Every child of `s` can evaluate, in order, to the corresponding value
/// of `vals`.
pub open spec fn args_ok<F>(
    s: Seq<Node>,
    env: Map<Seq<char>, Variable<F>>,
    vals: Seq<NumericLiteral>,
) -> bool
    decreases s, 1int,
{
    vals.len() == s.len() && (forall|j: int|
        0 <= j < s.len() ==> eval_rel(s[j], env, Ok(#[trigger] vals[j])))
}

/// Some child of `s` can fail with `e` while every child left of it can
/// succeed: evaluation is depth-first and left-to-right, and the first
/// failure aborts the remaining siblings and is passed up unchanged.
pub open spec fn args_first_err<F>(
    s: Seq<Node>,
    env: Map<Seq<char>, Variable<F>>,
    e: ErrorView,
) -> bool
    decreases s, 1int,
{
    exists|k: int, vals: Seq<NumericLiteral>|
        #![trigger s[k], vals.len()]
        0 <= k < s.len() && vals.len() == k && eval_rel(s[k], env, Err(e)) && (forall|j: int|
            0 <= j < k ==> eval_rel(s[j], env, Ok(#[trigger] vals[j])))
}

/// Evaluates each node of a child list in order against the scope,
/// short-circuiting on the first failure.
fn eval_nodes<F: CustomFn>(nodes: &Vec<Node>, scope: &Scope<F>) -> (r: Result<
    Vec<NumericLiteral>,
    Error,
>)
    ensures
        match r {
            Ok(vals) => args_ok(nodes@, scope@, vals@),
            Err(e) => args_first_err(nodes@, scope@, e@),
        },
    decreases nodes@,
{
    let mut vals: Vec<NumericLiteral> = Vec::new();
    let mut i: usize = 0;
    while i < nodes.len()
        invariant
            i <= nodes@.len(),
            vals@.len() == i,
            forall|j: int|
                0 <= j < i ==> eval_rel(nodes@[j], scope@, Ok::<NumericLiteral, ErrorView>(
                    #[trigger] vals@[j],
                )),
        decreases nodes@.len() - i,
    {
        match eval_node(&nodes[i], scope) {
            Ok(v) => {
                vals.push(v);
            },
            Err(e) => {
                return Err(e);
            },
        }
        i = i + 1;
    }
    Ok(vals)
}

/// Evaluates a function call's argument list: an absent list is a
/// `NotEnoughFunctionParams` error carrying the function name; a present
/// one is evaluated child by child.
pub fn eval_args<F: CustomFn>(args: &Option<Args>, scope: &Scope<F>, fn_name: String) -> (r:
    Result<Vec<NumericLiteral>, Error>)
    ensures
        match *args {
            Some(children) => match r {
                Ok(vals) => args_ok(children@, scope@, vals@),
                Err(e) => args_first_err(children@, scope@, e@),
            },
            None => r matches Err(e) && e@ == ErrorView::NotEnoughFunctionParams(fn_name@),
        },
    decreases *args,
{
    match args {
        Some(children) => {
            eval_nodes(children, scope)
        },
        None => Err(Error::NotEnoughFunctionParams(fn_name)),
    }
}

/// Evaluates one expression node against a scope: dispatches on the node
/// kind, resolves identifiers, evaluates children depth-first and
/// left-to-right, and returns the first error met.
pub fn eval_node<F: CustomFn>(node: &Node, scope: &Scope<F>) -> (r: EvaluationResult)
    ensures
        eval_rel(*node, scope@, res_view(r)),
    decreases *node,
{
    match &node.token {
        Token::Operator(op) => {
            match &node.args {
                None => Err(Error::MissingOperands(op.name())),
                Some(children) => {
                    match eval_nodes(children, scope) {
                        Ok(vals) => eval_operator(op, vals.as_slice()),
                        Err(e) => Err(e),
                    }
                },
            }
        },
        Token::Function(name) => {
            match resolve_fn(name.as_str(), scope) {
                Err(e) => Err(e),
                Ok(f) => {
                    match eval_args(&node.args, scope, name.clone()) {
                        Ok(vals) => f.call(&vals),
                        Err(e) => Err(e),
                    }
                },
            }
        },
        Token::Number(num) => Ok(*num),
        Token::Variable(var) => resolve_var(var.as_str(), scope),
        _ => Err(Error::CannotEvaluateToken(node.token.describe())),
    }
}

/// Something that can be evaluated: an expression node, or a root pairing
/// a node with its default scope.
pub trait Evaluate {
    /// The expression tree this value evaluates.
    spec fn target(&self) -> Node;

    /// What the zero-argument shortcut `eval` promises of its result.
    spec fn eval_post(&self, r: Result<NumericLiteral, ErrorView>) -> bool;

    /// Evaluates the node/expression with a given variable scope.
    fn eval_with<F: CustomFn>(&self, scope: &Scope<F>) -> (r: EvaluationResult)
        ensures
            eval_rel(self.target(), scope@, res_view(r)),
    ;

    /// Evaluates the node/expression without any variables.
    ///
    /// This is just a shortcut to evaluate expressions without variables.
    fn eval(&self) -> (r: EvaluationResult)
        ensures
            self.eval_post(res_view(r)),
    ;
}

impl Evaluate for Node {
    open spec fn target(&self) -> Node {
        *self
    }

    /// A bare node's shortcut evaluates against a fresh empty scope.
    open spec fn eval_post(&self, r: Result<NumericLiteral, ErrorView>) -> bool {
        eval_rel(*self, Map::<Seq<char>, Variable<NoFunction>>::empty(), r)
    }

    fn eval_with<F: CustomFn>(&self, scope: &Scope<F>) -> (r: EvaluationResult) {
        eval_node(self, scope)
    }

    fn eval(&self) -> (r: EvaluationResult) {
        let empty: Scope<NoFunction> = Scope::new();
        eval_node(self, &empty)
    }
}

impl<'a, F2: CustomFn> Evaluate for Root<'a, F2> {
    open spec fn target(&self) -> Node {
        *self.node
    }

    /// A root's shortcut evaluates against the scope it was paired with.
    open spec fn eval_post(&self, r: Result<NumericLiteral, ErrorView>) -> bool {
        eval_rel(*self.node, self.scope@, r)
    }

    fn eval_with<F: CustomFn>(&self, scope: &Scope<F>) -> (r: EvaluationResult) {
        eval_node(self.node, scope)
    }

    fn eval(&self) -> (r: EvaluationResult) {
        eval_node(self.node, self.scope)
    }
}

} // verus!
