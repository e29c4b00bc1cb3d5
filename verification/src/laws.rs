//! General properties of the evaluator, each stated over the library's
//! contracts and proved here: what a literal yields, the arity behavior
//! of the operator table, the scope round trip, the resolution errors,
//! and that evaluation of a function-free tree admits exactly one result.

use vstd::prelude::*;
use crate::ast::Node;
use crate::error::ErrorView;
use crate::eval::args_first_err;
use crate::eval::args_ok;
use crate::eval::bool_bits;
use crate::eval::eval_rel;
use crate::eval::spec_eval_operator;
use crate::eval::spec_pow_fold;
use crate::num::ABS_MASK;
use crate::num::EPSILON_BITS;
use crate::num::NumericLiteral;
use crate::num::ONE_BITS;
use crate::num::ZERO_BITS;
use crate::num::div_of;
use crate::num::eq_of;
use crate::num::lt_of;
use crate::num::pow_of;
use crate::num::sub_of;
use crate::scope::Variable;
use crate::scope::binds_function;
use crate::scope::binds_number;
use crate::tokens::Operator;
use crate::tokens::Token;

verus! {

/// A well-formed literal node evaluates to its own value, whatever the
/// environment holds: the result is independent of the scope.
pub proof fn lemma_literal_independent_of_scope<F>(
    n: Node,
    env: Map<Seq<char>, Variable<F>>,
    r: Result<NumericLiteral, ErrorView>,
    v: NumericLiteral,
)
    requires
        n.token == Token::Number(v),
        eval_rel(n, env, r),
    ensures
        r == Ok::<NumericLiteral, ErrorView>(v),
{
}

/// An empty operand list sums to +0.0 under `Add` and multiplies to 1.0
/// under `Multiply`: the fold identities of the two total operators.
pub proof fn lemma_add_multiply_empty()
    ensures
        spec_eval_operator(Operator::Add, Seq::empty()) == Ok::<NumericLiteral, ErrorView>(
            ZERO_BITS,
        ),
        spec_eval_operator(Operator::Multiply, Seq::empty()) == Ok::<NumericLiteral, ErrorView>(
            ONE_BITS,
        ),
{
}

/// `Subtract` and `Divide` fail on an empty operand list with
/// `MissingOperands` carrying the operator's name; on a single operand
/// they subtract the empty sum +0.0, or divide by the empty product 1.0.
pub proof fn lemma_subtract_divide_arity(x: NumericLiteral)
    ensures
        spec_eval_operator(Operator::Subtract, Seq::empty()) == Err::<NumericLiteral, ErrorView>(
            ErrorView::MissingOperands("Subtract"@),
        ),
        spec_eval_operator(Operator::Divide, Seq::empty()) == Err::<NumericLiteral, ErrorView>(
            ErrorView::MissingOperands("Divide"@),
        ),
        spec_eval_operator(Operator::Subtract, seq![x]) == Ok::<NumericLiteral, ErrorView>(
            sub_of(x, ZERO_BITS),
        ),
        spec_eval_operator(Operator::Divide, seq![x]) == Ok::<NumericLiteral, ErrorView>(
            div_of(x, ONE_BITS),
        ),
{
    assert(seq![x].drop_first() =~= Seq::<NumericLiteral>::empty());
}

/// Chained exponentiation is left-associative: three operands fold as
/// `(a ^ b) ^ c`, not as `a ^ (b ^ c)`.
pub proof fn lemma_exponentiate_left_associative(
    a: NumericLiteral,
    b: NumericLiteral,
    c: NumericLiteral,
)
    ensures
        spec_eval_operator(Operator::Exponentiate, seq![a, b, c]) == Ok::<
            NumericLiteral,
            ErrorView,
        >(pow_of(pow_of(a, b), c)),
{
    reveal_with_fuel(spec_pow_fold, 4);
    let rest = seq![a, b, c].drop_first();
    assert(rest =~= seq![b, c]);
    assert(rest.drop_last() =~= seq![b]);
    assert(seq![b].drop_last() =~= Seq::<NumericLiteral>::empty());
}

/// `LogicalNot` on one operand yields 1.0 exactly when the operand is an
/// IEEE zero, else 0.0 — whatever the operand; non-zero inputs are not
/// clamped to 1.0 first.
pub proof fn lemma_logical_not(x: NumericLiteral)
    ensures
        spec_eval_operator(Operator::LogicalNot, seq![x]) == Ok::<NumericLiteral, ErrorView>(
            bool_bits(eq_of(x, ZERO_BITS)),
        ),
{
}

/// `Equal` answers 1.0 exactly when the absolute difference lies strictly
/// below the machine epsilon; `NotEqual` exactly when it lies strictly
/// above. Both comparisons are strict against the same tolerance, so a
/// pair whose difference is exactly the epsilon is reported neither equal
/// nor not-equal — the gap is deliberate.
pub proof fn lemma_equality_tolerance(a: NumericLiteral, b: NumericLiteral)
    ensures
        spec_eval_operator(Operator::Equal, seq![a, b]) == Ok::<NumericLiteral, ErrorView>(
            bool_bits(lt_of(sub_of(a, b) & ABS_MASK, EPSILON_BITS)),
        ),
        spec_eval_operator(Operator::NotEqual, seq![a, b]) == Ok::<NumericLiteral, ErrorView>(
            bool_bits(lt_of(EPSILON_BITS, sub_of(a, b) & ABS_MASK)),
        ),
{
}

/// The scope round trip: binding a name yields exactly that binding on
/// lookup, and binding the same name again overwrites the first binding —
/// last write wins, for every starting environment.
pub proof fn lemma_scope_round_trip<F>(
    env: Map<Seq<char>, Variable<F>>,
    name: Seq<char>,
    v1: Variable<F>,
    v2: Variable<F>,
)
    ensures
        env.insert(name, v1)[name] == v1,
        env.insert(name, v1).insert(name, v2)[name] == v2,
{
}

/// Evaluating a variable node whose identifier is unbound — or bound to a
/// callable where a number was expected — fails with `UnresolvedVariable`
/// carrying exactly that identifier.
pub proof fn lemma_unbound_variable<F>(
    n: Node,
    env: Map<Seq<char>, Variable<F>>,
    r: Result<NumericLiteral, ErrorView>,
    name: String,
)
    requires
        n.token == Token::Variable(name),
        !binds_number(env, name@),
        eval_rel(n, env, r),
    ensures
        r == Err::<NumericLiteral, ErrorView>(ErrorView::UnresolvedVariable(name@)),
{
}

/// Calling a function name that is unbound — or bound to a number —
/// fails with `UnresolvedFunction` carrying that name, whatever the
/// argument list holds: resolution comes first, so argument errors never
/// take precedence.
pub proof fn lemma_unresolved_function<F>(
    n: Node,
    env: Map<Seq<char>, Variable<F>>,
    r: Result<NumericLiteral, ErrorView>,
    name: String,
)
    requires
        n.token == Token::Function(name),
        !binds_function(env, name@),
        eval_rel(n, env, r),
    ensures
        r == Err::<NumericLiteral, ErrorView>(ErrorView::UnresolvedFunction(name@)),
{
}

/// True when no function-call node is evaluated anywhere in the tree:
/// the nodes whose results do not depend on a caller-supplied callable.
pub open spec fn function_free(n: Node) -> bool
    decreases n, 0int,
{
    match n.token {
        Token::Function(_) => false,
        Token::Operator(_) => match n.args {
            None => true,
            Some(children) => children_function_free(children@),
        },
        _ => true,
    }
}

/// True when every node of the child list is function-free.
pub open spec fn children_function_free(s: Seq<Node>) -> bool
    decreases s, 1int,
{
    forall|j: int| #![trigger s[j]] 0 <= j < s.len() ==> function_free(s[j])
}

/// Evaluation of a function-free tree is deterministic: the relation
/// `eval_rel` admits exactly one result, so what `eval_with` returns is
/// pinned down completely. With function calls the callable's own result
/// is the one part left open.
pub proof fn lemma_eval_deterministic<F>(
    n: Node,
    env: Map<Seq<char>, Variable<F>>,
    r1: Result<NumericLiteral, ErrorView>,
    r2: Result<NumericLiteral, ErrorView>,
)
    requires
        function_free(n),
        eval_rel(n, env, r1),
        eval_rel(n, env, r2),
    ensures
        r1 == r2,
    decreases n, 1int,
{
    match n.token {
        Token::Operator(op) => {
            match n.args {
                None => {},
                Some(children) => {
                    let s = children@;
                    if exists|vals: Seq<NumericLiteral>|
                        #![trigger vals.len()]
                        args_ok(s, env, vals) && r1 == spec_eval_operator(op, vals) {
                        let vals1 = choose|vals: Seq<NumericLiteral>|
                            #![trigger vals.len()]
                            args_ok(s, env, vals) && r1 == spec_eval_operator(op, vals);
                        if exists|vals: Seq<NumericLiteral>|
                            #![trigger vals.len()]
                            args_ok(s, env, vals) && r2 == spec_eval_operator(op, vals) {
                            let vals2 = choose|vals: Seq<NumericLiteral>|
                                #![trigger vals.len()]
                                args_ok(s, env, vals) && r2 == spec_eval_operator(op, vals);
                            lemma_args_ok_unique(s, env, vals1, vals2);
                        } else {
                            lemma_args_ok_no_err(s, env, vals1, r2->Err_0);
                        }
                    } else {
                        if exists|vals: Seq<NumericLiteral>|
                            #![trigger vals.len()]
                            args_ok(s, env, vals) && r2 == spec_eval_operator(op, vals) {
                            let vals2 = choose|vals: Seq<NumericLiteral>|
                                #![trigger vals.len()]
                                args_ok(s, env, vals) && r2 == spec_eval_operator(op, vals);
                            lemma_args_ok_no_err(s, env, vals2, r1->Err_0);
                        } else {
                            lemma_args_err_unique(s, env, r1->Err_0, r2->Err_0);
                        }
                    }
                },
            }
        },
        _ => {},
    }
}

/// Function-free children admit only one list of evaluated values.
proof fn lemma_args_ok_unique<F>(
    s: Seq<Node>,
    env: Map<Seq<char>, Variable<F>>,
    v1: Seq<NumericLiteral>,
    v2: Seq<NumericLiteral>,
)
    requires
        children_function_free(s),
        args_ok(s, env, v1),
        args_ok(s, env, v2),
    ensures
        v1 == v2,
    decreases s, 0int,
{
    assert forall|j: int| 0 <= j < s.len() implies v1[j] == v2[j] by {
        lemma_eval_deterministic(
            s[j],
            env,
            Ok::<NumericLiteral, ErrorView>(v1[j]),
            Ok::<NumericLiteral, ErrorView>(v2[j]),
        );
    }
    assert(v1 =~= v2);
}

/// Function-free children that can all succeed cannot also fail.
proof fn lemma_args_ok_no_err<F>(
    s: Seq<Node>,
    env: Map<Seq<char>, Variable<F>>,
    v: Seq<NumericLiteral>,
    e: ErrorView,
)
    requires
        children_function_free(s),
        args_ok(s, env, v),
    ensures
        !args_first_err(s, env, e),
    decreases s, 0int,
{
    if args_first_err(s, env, e) {
        let (k, p) = choose|k: int, p: Seq<NumericLiteral>|
            #![trigger s[k], p.len()]
            0 <= k < s.len() && p.len() == k && eval_rel(s[k], env, Err(e)) && (forall|j: int|
                0 <= j < k ==> eval_rel(s[j], env, Ok(#[trigger] p[j])));
        lemma_eval_deterministic(
            s[k],
            env,
            Err::<NumericLiteral, ErrorView>(e),
            Ok::<NumericLiteral, ErrorView>(v[k]),
        );
    }
}

/// Function-free children admit only one first error.
proof fn lemma_args_err_unique<F>(
    s: Seq<Node>,
    env: Map<Seq<char>, Variable<F>>,
    e1: ErrorView,
    e2: ErrorView,
)
    requires
        children_function_free(s),
        args_first_err(s, env, e1),
        args_first_err(s, env, e2),
    ensures
        e1 == e2,
    decreases s, 0int,
{
    let (k1, p1) = choose|k: int, p: Seq<NumericLiteral>|
        #![trigger s[k], p.len()]
        0 <= k < s.len() && p.len() == k && eval_rel(s[k], env, Err(e1)) && (forall|j: int|
            0 <= j < k ==> eval_rel(s[j], env, Ok(#[trigger] p[j])));
    let (k2, p2) = choose|k: int, p: Seq<NumericLiteral>|
        #![trigger s[k], p.len()]
        0 <= k < s.len() && p.len() == k && eval_rel(s[k], env, Err(e2)) && (forall|j: int|
            0 <= j < k ==> eval_rel(s[j], env, Ok(#[trigger] p[j])));
    if k1 < k2 {
        lemma_eval_deterministic(
            s[k1],
            env,
            Err::<NumericLiteral, ErrorView>(e1),
            Ok::<NumericLiteral, ErrorView>(p2[k1]),
        );
    } else if k2 < k1 {
        lemma_eval_deterministic(
            s[k2],
            env,
            Err::<NumericLiteral, ErrorView>(e2),
            Ok::<NumericLiteral, ErrorView>(p1[k2]),
        );
    } else {
        lemma_eval_deterministic(
            s[k1],
            env,
            Err::<NumericLiteral, ErrorView>(e1),
            Err::<NumericLiteral, ErrorView>(e2),
        );
    }
}

} // verus!

