//! The recursive evaluator: dispatch, resolution, error propagation, and
//! the end-to-end scenario.

use asciimath::CustomFn;
use asciimath::Error;
use asciimath::Evaluate;
use asciimath::Node;
use asciimath::Operator;
use asciimath::Root;
use asciimath::Scope;
use asciimath::Token;
use asciimath::Variable;

fn bits(x: f64) -> u64 {
    x.to_bits()
}

fn num(r: Result<u64, Error>) -> f64 {
    f64::from_bits(r.expect("expected a numeric result"))
}

fn literal(x: f64) -> Node {
    Node { token: Token::Number(bits(x)), args: None }
}

fn op(operator: Operator, children: Vec<Node>) -> Node {
    Node { token: Token::Operator(operator), args: Some(children) }
}

fn var(name: &str) -> Node {
    Node { token: Token::Variable(String::from(name)), args: None }
}

struct Doubler;

impl CustomFn for Doubler {
    fn call(&self, args: &Vec<u64>) -> Result<u64, Error> {
        let x = f64::from_bits(args[0]);
        Ok((2.0 * x).to_bits())
    }
}

struct AlwaysFailing;

impl CustomFn for AlwaysFailing {
    fn call(&self, _args: &Vec<u64>) -> Result<u64, Error> {
        Err(Error::CannotEvaluateToken(String::from("a custom failure")))
    }
}

#[test]
fn literal_ignores_scope_contents() {
    let n = literal(42.5);
    assert_eq!(num(n.eval()), 42.5);
    let mut scope: Scope = Scope::new();
    scope.set_var("x", Variable::Number(bits(7.0)));
    assert_eq!(num(n.eval_with(&scope)), 42.5);
}

#[test]
fn variable_resolves_against_scope() {
    let mut scope: Scope = Scope::new();
    scope.set_var("x", Variable::Number(bits(3.0)));
    assert_eq!(num(var("x").eval_with(&scope)), 3.0);
}

#[test]
fn unbound_variable_carries_its_name() {
    let scope: Scope = Scope::new();
    let r = var("phantom").eval_with(&scope);
    assert_eq!(r, Err(Error::UnresolvedVariable(String::from("phantom"))));
}

#[test]
fn variable_bound_to_function_is_unresolved() {
    let mut scope: Scope<Doubler> = Scope::new();
    scope.set_var("twice", Variable::Function(Doubler));
    let r = var("twice").eval_with(&scope);
    assert_eq!(r, Err(Error::UnresolvedVariable(String::from("twice"))));
}

#[test]
fn operator_node_without_args_is_missing_operands() {
    let n = Node { token: Token::Operator(Operator::Add), args: None };
    assert_eq!(n.eval(), Err(Error::MissingOperands(String::from("Add"))));
}

#[test]
fn first_child_error_wins() {
    let n = op(Operator::Add, vec![literal(1.0), var("a"), var("b")]);
    let scope: Scope = Scope::new();
    assert_eq!(n.eval_with(&scope), Err(Error::UnresolvedVariable(String::from("a"))));
}

#[test]
fn custom_function_receives_evaluated_args() {
    let mut scope: Scope<Doubler> = Scope::new();
    scope.set_var("twice", Variable::Function(Doubler));
    let call = Node {
        token: Token::Function(String::from("twice")),
        args: Some(vec![op(Operator::Add, vec![literal(20.0), literal(1.0)])]),
    };
    assert_eq!(num(call.eval_with(&scope)), 42.0);
}

#[test]
fn custom_function_error_passes_through_verbatim() {
    let mut scope: Scope<AlwaysFailing> = Scope::new();
    scope.set_var("boom", Variable::Function(AlwaysFailing));
    let call = Node { token: Token::Function(String::from("boom")), args: Some(vec![]) };
    assert_eq!(
        call.eval_with(&scope),
        Err(Error::CannotEvaluateToken(String::from("a custom failure")))
    );
}

#[test]
fn function_node_without_args_reports_params() {
    let mut scope: Scope<Doubler> = Scope::new();
    scope.set_var("twice", Variable::Function(Doubler));
    let call = Node { token: Token::Function(String::from("twice")), args: None };
    assert_eq!(
        call.eval_with(&scope),
        Err(Error::NotEnoughFunctionParams(String::from("twice")))
    );
}

#[test]
fn unresolved_function_carries_its_name() {
    let scope: Scope = Scope::new();
    let call = Node { token: Token::Function(String::from("missing")), args: Some(vec![]) };
    assert_eq!(call.eval_with(&scope), Err(Error::UnresolvedFunction(String::from("missing"))));
}

#[test]
fn function_bound_to_number_is_unresolved() {
    let mut scope: Scope = Scope::new();
    scope.set_var("f", Variable::Number(bits(1.0)));
    let call = Node { token: Token::Function(String::from("f")), args: Some(vec![]) };
    assert_eq!(call.eval_with(&scope), Err(Error::UnresolvedFunction(String::from("f"))));
}

#[test]
fn unresolved_function_beats_argument_errors() {
    let scope: Scope = Scope::new();
    let call = Node {
        token: Token::Function(String::from("missing")),
        args: Some(vec![var("also_missing")]),
    };
    assert_eq!(call.eval_with(&scope), Err(Error::UnresolvedFunction(String::from("missing"))));
}

#[test]
fn leftover_token_cannot_be_evaluated() {
    let n = Node { token: Token::LeftParenthesis, args: None };
    assert_eq!(n.eval(), Err(Error::CannotEvaluateToken(String::from("LeftParenthesis"))));
    let n = Node { token: Token::RightParenthesis, args: None };
    assert_eq!(n.eval(), Err(Error::CannotEvaluateToken(String::from("RightParenthesis"))));
    let n = Node { token: Token::Comma, args: None };
    assert_eq!(n.eval(), Err(Error::CannotEvaluateToken(String::from("Comma"))));
}

#[test]
fn root_pairs_tree_with_default_scope() {
    let mut scope: Scope = Scope::new();
    scope.set_var("x", Variable::Number(bits(3.0)));
    let tree = op(Operator::Add, vec![var("x"), literal(1.0)]);
    let root = Root { node: &tree, scope: &scope };
    assert_eq!(num(root.eval()), 4.0);

    let mut other: Scope = Scope::new();
    other.set_var("x", Variable::Number(bits(10.0)));
    assert_eq!(num(root.eval_with(&other)), 11.0);
}

#[test]
fn end_to_end_nested_expression() {
    // x + 4 * 2 / (1 - 5) ^ (2 - 2 ^ 3), with x bound to 3.
    let tree = op(
        Operator::Add,
        vec![
            var("x"),
            op(
                Operator::Divide,
                vec![
                    op(Operator::Multiply, vec![literal(4.0), literal(2.0)]),
                    op(
                        Operator::Exponentiate,
                        vec![
                            op(Operator::Subtract, vec![literal(1.0), literal(5.0)]),
                            op(
                                Operator::Subtract,
                                vec![
                                    literal(2.0),
                                    op(
                                        Operator::Exponentiate,
                                        vec![literal(2.0), literal(3.0)],
                                    ),
                                ],
                            ),
                        ],
                    ),
                ],
            ),
        ],
    );
    let mut scope: Scope = Scope::new();
    scope.set_var("x", Variable::Number(bits(3.0)));

    // The steps the tree implies, checked one by one.
    let pow_inner = libm::pow(2.0, 3.0);
    assert_eq!(pow_inner, 8.0);
    assert_eq!(2.0 - pow_inner, -6.0);
    assert_eq!(1.0 - 5.0, -4.0);
    let power = libm::pow(-4.0, -6.0);
    assert_eq!(power, 0.000244140625);
    let expected = 3.0 + (4.0 * 2.0) / power;
    assert_eq!(expected, 32771.0);

    assert_eq!(num(tree.eval_with(&scope)), expected);
}
