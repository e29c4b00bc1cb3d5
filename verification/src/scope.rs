//! The scope: a flat, case-sensitive mapping from identifier to binding,
//! consulted while an expression is evaluated. A binding is a number or a
//! caller-supplied callable; binding a name again overwrites the earlier
//! binding.

use vstd::prelude::*;
use crate::error::Error;
use crate::num::NumericLiteral;
use crate::num::double_of_int;
use crate::num::int_to_bits;

verus! {

/// A caller-supplied callable: the sole extension point for domain-specific
/// computation. It takes the already-evaluated, ordered argument list and
/// returns a number or an error of its own, which evaluation passes through
/// unchanged. The library promises nothing of what an implementation
/// returns.
pub trait CustomFn {
    /// Applies the callable to the evaluated argument list.
    fn call(&self, args: &Vec<NumericLiteral>) -> Result<NumericLiteral, Error>;
}

/// The callable type of a scope that binds no functions at all; used by the
/// no-environment evaluation shortcut. Calling it only reports that no
/// function is bound.
pub struct NoFunction;

impl CustomFn for NoFunction {
    fn call(&self, _args: &Vec<NumericLiteral>) -> Result<NumericLiteral, Error> {
        Err(Error::UnresolvedFunction(String::new()))
    }
}

/// A binding held by a scope: a number, or a callable.
pub enum Variable<F = NoFunction> {
    /// A numeric binding, as an IEEE-754 double bit pattern.
    Number(NumericLiteral),
    /// A callable binding.
    Function(F),
}

impl<F> Variable<F> {
    /// The explicit conversion at the scope's boundary: a plain integer,
    /// normalized to the internal double-precision representation and
    /// wrapped as a number binding.
    pub fn from_int(i: i64) -> (v: Self)
        ensures
            v == Variable::<F>::Number(double_of_int(i)),
    {
        Variable::Number(int_to_bits(i))
    }
}

/// The flat name-to-binding environment. It is read-only during any single
/// evaluation and mutated only by its owner between evaluations.
///
/// Its mathematical content, `self@`, is the map from each bound name to
/// its latest binding.
pub struct Scope<F = NoFunction> {
    entries: Vec<(String, Variable<F>)>,
}

/// The map that a sequence of bindings amounts to: each later entry for a
/// name overwrites the earlier ones.
pub closed spec fn entries_map<F>(s: Seq<(String, Variable<F>)>) -> Map<Seq<char>, Variable<F>>
    decreases s.len(),
{
    if s.len() == 0 {
        Map::empty()
    } else {
        entries_map(s.drop_last()).insert(s.last().0@, s.last().1)
    }
}

impl<F> View for Scope<F> {
    type V = Map<Seq<char>, Variable<F>>;

    closed spec fn view(&self) -> Map<Seq<char>, Variable<F>> {
        entries_map(self.entries@)
    }
}

/// True when the environment binds `name` to a number.
pub open spec fn binds_number<F>(env: Map<Seq<char>, Variable<F>>, name: Seq<char>) -> bool {
    env.contains_key(name) && env[name] is Number
}

/// True when the environment binds `name` to a callable.
pub open spec fn binds_function<F>(env: Map<Seq<char>, Variable<F>>, name: Seq<char>) -> bool {
    env.contains_key(name) && env[name] is Function
}

proof fn lemma_entries_map_found<F>(s: Seq<(String, Variable<F>)>, key: Seq<char>, i: int)
    requires
        0 <= i < s.len(),
        s[i].0@ == key,
        forall|j: int| i < j < s.len() ==> (#[trigger] s[j]).0@ != key,
    ensures
        entries_map(s).contains_key(key),
        entries_map(s)[key] == s[i].1,
    decreases s.len(),
{
    if i == s.len() - 1 {
    } else {
        assert(s.drop_last()[i] == s[i]);
        lemma_entries_map_found(s.drop_last(), key, i);
    }
}

proof fn lemma_entries_map_absent<F>(s: Seq<(String, Variable<F>)>, key: Seq<char>)
    requires
        forall|j: int| 0 <= j < s.len() ==> (#[trigger] s[j]).0@ != key,
    ensures
        !entries_map(s).contains_key(key),
    decreases s.len(),
{
    if s.len() > 0 {
        lemma_entries_map_absent(s.drop_last(), key);
    }
}

impl<F> Scope<F> {
    /// Constructs an empty scope.
    pub fn new() -> (s: Self)
        ensures
            s@ == Map::<Seq<char>, Variable<F>>::empty(),
    {
        Scope { entries: Vec::new() }
    }

    /// Constructs an empty scope pre-sized for `cap` bindings. The size is
    /// a performance hint only; the scope behaves exactly as an empty one.
    pub fn with_capacity(cap: usize) -> (s: Self)
        ensures
            s@ == Map::<Seq<char>, Variable<F>>::empty(),
    {
        Scope { entries: Vec::with_capacity(cap) }
    }

    /// Binds `var_name` to `value`, overwriting any existing binding for
    /// that name.
    pub fn set_var(&mut self, var_name: &str, value: Variable<F>)
        ensures
            final(self)@ == old(self)@.insert(var_name@, value),
    {
        let key = var_name.to_owned();
        let ghost before = self.entries@;
        self.entries.push((key, value));
        proof {
            assert(self.entries@.drop_last() =~= before);
        }
    }

    /// Returns the current binding of `var_name`, or nothing if the name
    /// is unbound. Never fails: absence is represented, not raised.
    pub fn get_var(&self, var_name: &str) -> (r: Option<&Variable<F>>)
        ensures
            match r {
                Some(v) => self@.contains_key(var_name@) && *v == self@[var_name@],
                None => !self@.contains_key(var_name@),
            },
    {
        let key = var_name.to_owned();
        let mut i: usize = self.entries.len();
        while i > 0
            invariant
                i <= self.entries@.len(),
                key@ == var_name@,
                forall|j: int| i <= j < self.entries@.len()
                    ==> (#[trigger] self.entries@[j]).0@ != var_name@,
            decreases i,
        {
            i = i - 1;
            let e = &self.entries[i];
            if e.0 == key {
                proof {
                    lemma_entries_map_found(self.entries@, var_name@, i as int);
                }
                return Some(&e.1);
            }
        }
        proof {
            lemma_entries_map_absent(self.entries@, var_name@);
        }
        None
    }
}

} // verus!
