//! The scope: binding, lookup, and overwriting.

use asciimath::resolve_fn;
use asciimath::resolve_var;
use asciimath::CustomFn;
use asciimath::Error;
use asciimath::Scope;
use asciimath::Variable;

fn bits(x: f64) -> u64 {
    x.to_bits()
}

struct Identity;

impl CustomFn for Identity {
    fn call(&self, args: &Vec<u64>) -> Result<u64, Error> {
        Ok(args[0])
    }
}

#[test]
fn set_then_get_round_trip() {
    let mut scope: Scope = Scope::new();
    scope.set_var("x", Variable::Number(bits(3.0)));
    match scope.get_var("x") {
        Some(Variable::Number(n)) => assert_eq!(f64::from_bits(*n), 3.0),
        _ => panic!("expected a number binding for x"),
    }
}

#[test]
fn second_set_overwrites_first() {
    let mut scope: Scope = Scope::new();
    scope.set_var("x", Variable::Number(bits(3.0)));
    scope.set_var("x", Variable::Number(bits(7.0)));
    match scope.get_var("x") {
        Some(Variable::Number(n)) => assert_eq!(f64::from_bits(*n), 7.0),
        _ => panic!("expected a number binding for x"),
    }
}

#[test]
fn unbound_name_is_absent_not_an_error() {
    let scope: Scope = Scope::new();
    assert!(scope.get_var("nothing").is_none());
}

#[test]
fn with_capacity_behaves_like_empty() {
    let scope: Scope = Scope::with_capacity(16);
    assert!(scope.get_var("x").is_none());
}

#[test]
fn keys_are_case_sensitive() {
    let mut scope: Scope = Scope::new();
    scope.set_var("x", Variable::Number(bits(1.0)));
    assert!(scope.get_var("X").is_none());
}

#[test]
fn function_binding_can_be_overwritten_by_number() {
    let mut scope: Scope<Identity> = Scope::new();
    scope.set_var("f", Variable::Function(Identity));
    scope.set_var("f", Variable::Number(bits(2.0)));
    match scope.get_var("f") {
        Some(Variable::Number(n)) => assert_eq!(f64::from_bits(*n), 2.0),
        _ => panic!("expected the number to have overwritten the function"),
    }
}

#[test]
fn from_int_normalizes_to_double() {
    let v: Variable = Variable::from_int(3);
    match v {
        Variable::Number(n) => {
            assert_eq!(f64::from_bits(n), 3.0);
            assert_ne!(n, 3u64);
        }
        _ => panic!("expected a number binding"),
    }
    let mut scope: Scope = Scope::new();
    scope.set_var("big", Variable::from_int(-1_000_000));
    assert_eq!(resolve_var("big", &scope).map(f64::from_bits), Ok(-1_000_000.0));
}

#[test]
fn resolve_var_accepts_numbers_only() {
    let mut scope: Scope<Identity> = Scope::new();
    scope.set_var("x", Variable::Number(bits(5.0)));
    scope.set_var("id", Variable::Function(Identity));
    assert_eq!(resolve_var("x", &scope).map(f64::from_bits), Ok(5.0));
    assert_eq!(resolve_var("id", &scope), Err(Error::UnresolvedVariable(String::from("id"))));
}

#[test]
fn resolve_fn_accepts_functions_only() {
    let mut scope: Scope<Identity> = Scope::new();
    scope.set_var("x", Variable::Number(bits(5.0)));
    scope.set_var("id", Variable::Function(Identity));
    assert!(resolve_fn("id", &scope).is_ok());
    assert_eq!(
        resolve_fn("x", &scope).err(),
        Some(Error::UnresolvedFunction(String::from("x")))
    );
}
