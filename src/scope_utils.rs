//! Shorthands for reading and writing variables of one scope chain.
use vstd::prelude::*;
use vstd::string::StringExecFns;
use crate::ast::{Expr, Term};
use crate::env::{Env, assign, lookup, opt_view};
use crate::runtimes::{RuntimeValue, Val};

verus! {

/// The value of `variable` seen from `scope`, when `variable` is a name.
pub fn get_var_from_env(env: &Env, scope: usize, variable: &Expr) -> (r: Option<RuntimeValue>)
    ensures
        opt_view(r) == (match variable@ {
            Term::Var(n) => lookup(env@, scope as nat, n),
            _ => Option::<Val>::None,
        }),
{
    if let Expr::Variable(var_name) = variable {
        env.get(scope, &**var_name)
    } else {
        Option::None
    }
}

/// The value of `key` seen from `scope`.
pub fn get_name_from_env(env: &Env, scope: usize, key: &String) -> (r: Option<RuntimeValue>)
    ensures
        opt_view(r) == lookup(env@, scope as nat, key@),
{
    env.get(scope, key)
}

/// Binds `key` to `value` in `scope` itself.
pub fn set_name_from_env(env: &mut Env, scope: usize, key: String, value: RuntimeValue)
    ensures
        final(env)@ == assign(old(env)@, scope as nat, key@, value@),
{
    env.set(scope, key, value)
}

/// The value of `self` seen from `scope`.
pub fn get_self_from_env(env: &Env, scope: usize) -> (r: Option<RuntimeValue>)
    ensures
        opt_view(r) == lookup(env@, scope as nat, "self"@),
{
    get_name_from_env(env, scope, &String::from_str("self"))
}

} // verus!
