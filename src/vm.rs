//! The tree-walking evaluator. Every function here is proved to compute
//! exactly what the semantics of the same name says, store included.
use vstd::prelude::*;
use vstd::string::StringExecFns;
use crate::ast::{Expr, Op, Term, Value, clone_names, exprs_view, names_view};
use crate::env::{Env, bindings_map, bindings_view, no_bindings, push_binding, push_scope};
use crate::runtimes::{ErrorKind, fail_with, fault_view, name_view, clone_values, BuiltinOrExpr, EvalError, Native, RuntimeValue, Val, res_view, values_view, lemma_values_view};
use crate::semantics::{arith, bind_self, callee, first_param_binding, found_member, index_list, int128_result, int64_result, int_op, is_arith, lit_val, sem_assign, sem_bind, sem_bind_one, sem_block, sem_call, sem_collect, sem_eval, sem_force, sem_get, sem_list, sem_native, static_get, strip};

verus! {

/// The evaluator; it holds no state of its own.
pub struct VM;

/// The depth of nested calls that `VM::eval` allows.
pub const DEFAULT_DEPTH: usize = 200;

/// A type mismatch about the values `a` and `b`.
fn mismatch(a: &RuntimeValue, b: &RuntimeValue) -> (r: EvalError)
    ensures
        r@ == fail_with(ErrorKind::TypeMismatch, seq![a@, b@], Option::None),
{
    let mut values: Vec<Box<RuntimeValue>> = Vec::new();
    values.push(Box::new(a.clone_value()));
    values.push(Box::new(b.clone_value()));
    proof {
        lemma_values_view(values@);
    }
    assert(values_view(values@) =~= seq![a@, b@]);
    EvalError::with(ErrorKind::TypeMismatch, values, Option::None)
}

/// An error of kind `kind` about the one value `v` and the name `name`.
fn fault_about(kind: ErrorKind, v: RuntimeValue, name: Option<String>) -> (r: EvalError)
    ensures
        r@ == fail_with(kind, seq![v@], name_view(name)),
{
    let mut values: Vec<Box<RuntimeValue>> = Vec::new();
    let ghost x = v@;
    values.push(Box::new(v));
    proof {
        lemma_values_view(values@);
    }
    assert(values_view(values@) =~= seq![x]);
    EvalError::with(kind, values, name)
}

/// The element of `v` at the position that the integer `value` gives.
fn get_from_vec(v: &Vec<Box<RuntimeValue>>, value: &RuntimeValue) -> (r: Result<RuntimeValue, EvalError>)
    ensures
        res_view(r) == index_list(Val::List(values_view(v@)), value@),
{
    proof {
        lemma_values_view(v@);
    }
    match value {
        RuntimeValue::Int64(k) => {
            if 0 <= *k && (*k as u64) < (v.len() as u64) {
                Ok(v[*k as usize].clone_value())
            } else {
                Err(EvalError::new(ErrorKind::IndexOutOfRange))
            }
        },
        RuntimeValue::Int128(k) => {
            if 0 <= *k && (*k as u128) < (v.len() as u128) {
                Ok(v[*k as usize].clone_value())
            } else {
                Err(EvalError::new(ErrorKind::IndexOutOfRange))
            }
        },
        _ => {
            let from = RuntimeValue::List(clone_values(v));
            Err(mismatch(&from, value))
        },
    }
}

/// Indexing `from`, which must be a list, with the integer `k`.
fn index_value(from: &RuntimeValue, k: &RuntimeValue) -> (r: Result<RuntimeValue, EvalError>)
    ensures
        res_view(r) == index_list(from@, k@),
{
    match from {
        RuntimeValue::List(items) => get_from_vec(items, k),
        _ => Err(mismatch(from, k)),
    }
}

/// The tree without its source-position wrappers.
fn remove_code_pos(expr: &Expr) -> (r: &Expr)
    ensures
        r@ == strip(expr@),
    decreases expr,
{
    match expr {
        Expr::ExprWithCodePos { exp, .. } => remove_code_pos(exp),
        _ => expr,
    }
}

/// The value of a literal.
fn literal(v: &Value) -> (r: RuntimeValue)
    ensures
        r@ == lit_val(v@),
{
    match v {
        Value::String(s) => RuntimeValue::String(Box::new((**s).clone())),
        Value::Int64(i) => RuntimeValue::Int64(*i),
        Value::Int128(i) => RuntimeValue::Int128(*i),
        Value::Regex(s) => RuntimeValue::Regex(Box::new((**s).clone())),
    }
}

fn int64_op(op: Op, x: i64, y: i64) -> (r: Result<RuntimeValue, EvalError>)
    requires
        is_arith(op),
    ensures
        res_view(r) == int64_result(int_op(op, x as int, y as int)),
{
    let c = match op {
        Op::Add => x.checked_add(y),
        Op::Sub => x.checked_sub(y),
        Op::Mul => x.checked_mul(y),
        _ => {
            if y == 0 {
                return Err(EvalError::new(ErrorKind::DivisionByZero));
            }
            x.checked_div(y)
        },
    };
    match c {
        Some(v) => Ok(RuntimeValue::Int64(v)),
        Option::None => Err(EvalError::new(ErrorKind::Overflow)),
    }
}

fn int128_op(op: Op, x: i128, y: i128) -> (r: Result<RuntimeValue, EvalError>)
    requires
        is_arith(op),
    ensures
        res_view(r) == int128_result(int_op(op, x as int, y as int)),
{
    let c = match op {
        Op::Add => x.checked_add(y),
        Op::Sub => x.checked_sub(y),
        Op::Mul => x.checked_mul(y),
        _ => {
            if y == 0 {
                return Err(EvalError::new(ErrorKind::DivisionByZero));
            }
            x.checked_div(y)
        },
    };
    match c {
        Some(v) => Ok(RuntimeValue::Int128(v)),
        Option::None => Err(EvalError::new(ErrorKind::Overflow)),
    }
}

/// A binary arithmetic operator applied to two values.
pub fn arithmetic(op: Op, a: &RuntimeValue, b: &RuntimeValue) -> (r: Result<RuntimeValue, EvalError>)
    requires
        is_arith(op),
    ensures
        res_view(r) == arith(op, a@, b@),
{
    match (a, b) {
        (RuntimeValue::Int64(x), RuntimeValue::Int64(y)) => int64_op(op, *x, *y),
        (RuntimeValue::Int64(x), RuntimeValue::Int128(y)) => int128_op(op, *x as i128, *y),
        (RuntimeValue::Int128(x), RuntimeValue::Int64(y)) => int128_op(op, *x, *y as i128),
        (RuntimeValue::Int128(x), RuntimeValue::Int128(y)) => int128_op(op, *x, *y),
        (RuntimeValue::String(x), RuntimeValue::String(y)) => {
            if op == Op::Add {
                let mut s = (**x).clone();
                s.append((**y).as_str());
                Ok(RuntimeValue::String(Box::new(s)))
            } else {
                Err(mismatch(a, b))
            }
        },
        _ => Err(mismatch(a, b)),
    }
}

/// The variables that hand `x` to the first parameter of function `f`.
fn first_param_vars(f: &RuntimeValue, x: RuntimeValue) -> (r: Vec<(String, RuntimeValue)>)
    ensures
        bindings_map(bindings_view(r@)) == first_param_binding(f@, x@),
{
    proof {
        reveal_with_fuel(RuntimeValue::view_of, 2);
    }
    let params = match f {
        RuntimeValue::FuncDef { parameters, .. } => Some(parameters),
        RuntimeValue::WithEnv { value, .. } => match &**value {
            RuntimeValue::FuncDef { parameters, .. } => Some(parameters),
            _ => Option::None,
        },
        _ => Option::None,
    };
    let mut v = no_bindings();
    match params {
        Some(p) => {
            if p.len() > 0 {
                push_binding(&mut v, (*p[0]).clone(), x);
            }
        },
        Option::None => {},
    }
    v
}

/// A member found on `from` (see `bind_self`).
fn bind_member(env: &mut Env, from: RuntimeValue, m: RuntimeValue) -> (r: Result<RuntimeValue, EvalError>)
    ensures
        (final(env)@, res_view(r)) == bind_self(old(env)@, from@, m@),
{
    match &m {
        RuntimeValue::FuncDef { env: fenv, .. } => {
            let fenv = *fenv;
            let mut v = no_bindings();
            push_binding(&mut v, String::from_str("self"), from);
            let id = env.from(v, Some(fenv));
            Ok(RuntimeValue::WithEnv { value: Box::new(m), env: id })
        },
        _ => Ok(m),
    }
}

/// The outcome of the lookup of member `name` (see `found_member`).
fn found(env: &mut Env, from: RuntimeValue, name: &String, m: Option<RuntimeValue>, weak: bool) -> (r: Result<RuntimeValue, EvalError>)
    ensures
        (final(env)@, res_view(r)) == found_member(old(env)@, from@, name@, crate::env::opt_view(m), weak),
{
    match m {
        Some(v) => bind_member(env, from, v),
        Option::None => {
            if weak {
                Ok(RuntimeValue::Unit)
            } else {
                Err(fault_about(ErrorKind::UnknownMember, from, Some(name.clone())))
            }
        },
    }
}

/// Static member access `from.key` (see `static_get`).
fn static_member(env: &mut Env, scope: usize, from: RuntimeValue, key: &Expr, weak: bool) -> (r: Result<RuntimeValue, EvalError>)
    ensures
        (final(env)@, res_view(r)) == static_get(old(env)@, scope as nat, from@, key@, weak),
{
    match &from {
        RuntimeValue::WithEnv { env: e, .. } => {
            let e = *e;
            match key {
                Expr::Variable(n) => {
                    let m = env.get(e, &**n);
                    found(env, from, &**n, m, weak)
                },
                _ => Err(EvalError::new(ErrorKind::UnsupportedOperation)),
            }
        },
        _ => match from.get_type(env, scope) {
            Err(err) => Err(err),
            Ok(t) => match key {
                Expr::Variable(n) => {
                    let m = env.get(t.get_env(), &**n);
                    found(env, from, &**n, m, weak)
                },
                Expr::Value(l) => {
                    let k = literal(l);
                    index_value(&from, &k)
                },
                _ => Err(EvalError::new(ErrorKind::UnsupportedOperation)),
            },
        },
    }
}

/// Member access on the evaluated receiver `from`: `from[key]` when
/// `is_expr`, else `from.key`.
pub fn runtime_get(env: &mut Env, scope: usize, is_expr: bool, from: RuntimeValue, key: &Expr, weak: bool, depth: usize) -> (r: Result<RuntimeValue, EvalError>)
    ensures
        (final(env)@, res_view(r)) == sem_get(old(env)@, scope as nat, is_expr, from@, key@, weak, depth as nat),
    decreases depth, key, 3nat,
{
    if is_expr {
        match eval_expr(env, scope, key, depth) {
            Err(e) => Err(e),
            Ok(k) => index_value(&from, &k),
        }
    } else {
        static_member(env, scope, from, remove_code_pos(key), weak)
    }
}

/// Binds the argument `a` in position `pos` in run scope `run` (see
/// `sem_bind_one`).
fn bind_one(env: &mut Env, run: usize, params: &Vec<Box<String>>, a: &Expr, pos: usize, depth: usize) -> (r: Option<EvalError>)
    ensures
        (final(env)@, fault_view(r)) == sem_bind_one(old(env)@, run as nat, names_view(params@), a@, pos as nat, depth as nat),
    decreases depth, a, 3nat,
{
    if let Expr::ExprWithCodePos { exp, .. } = a {
        return bind_one(env, run, params, exp, pos, depth);
    }
    if let Expr::Op2 { op, x, y } = a {
        if *op == Op::Assign {
            if let Expr::Variable(name) = remove_code_pos(x) {
                return match eval_expr(env, run, y, depth) {
                    Err(e) => Some(e),
                    Ok(v) => {
                        env.set(run, (**name).clone(), v);
                        Option::None
                    },
                };
            }
        }
    }
    match eval_expr(env, run, a, depth) {
        Err(e) => Some(e),
        Ok(v) => {
            if pos < params.len() {
                env.set(run, (*params[pos]).clone(), v);
                Option::None
            } else {
                Some(EvalError::new(ErrorKind::TooManyArguments))
            }
        },
    }
}

/// Calls `runtime_func_def` on `arguments`, its run scope seeded with
/// `external_variables`. Arguments are evaluated in the run scope, in order;
/// `name = expr` binds `name`, any other argument the parameter in its
/// position.
pub fn runtime_func_call(
    env: &mut Env,
    runtime_func_def: RuntimeValue,
    arguments: &Vec<Box<Expr>>,
    external_variables: Vec<(String, RuntimeValue)>,
    depth: usize,
) -> (r: Result<RuntimeValue, EvalError>)
    ensures
        (final(env)@, res_view(r)) == sem_call(
            old(env)@,
            runtime_func_def@,
            exprs_view(arguments@),
            bindings_map(bindings_view(external_variables@)),
            depth as nat,
        ),
    decreases depth, arguments, 4nat,
{
    let ghost fv = runtime_func_def@;
    proof {
        reveal_with_fuel(RuntimeValue::view_of, 2);
    }
    let (parameters, body, func_env) = match runtime_func_def {
        RuntimeValue::FuncDef { parameters, body, env: e } => (parameters, body, e),
        RuntimeValue::WithEnv { value, env: sub_env } => match *value {
            RuntimeValue::FuncDef { parameters, body, .. } => (parameters, body, sub_env),
            inner => {
                let called = RuntimeValue::WithEnv { value: Box::new(inner), env: sub_env };
                return Err(fault_about(ErrorKind::NotCallable, called, Option::None));
            },
        },
        other => {
            return Err(fault_about(ErrorKind::NotCallable, other, Option::None));
        },
    };
    assert(callee(fv) == Some((names_view(parameters@), body@, func_env as nat)));
    if depth == 0 {
        return Err(EvalError::new(ErrorKind::DepthExceeded));
    }
    let run = env.from(external_variables, Some(func_env));
    let ghost h1 = env@;
    let ghost ts = exprs_view(arguments@);
    let ghost ps = names_view(parameters@);
    proof {
        crate::ast::lemma_exprs_view(arguments@);
    }
    let mut i: usize = 0;
    while i < arguments.len()
        invariant
            i <= arguments.len(),
            ts == exprs_view(arguments@),
            ts.len() == arguments.len(),
            forall|j: int| 0 <= j < ts.len() ==> #[trigger] ts[j] == Expr::view_of(*arguments@[j]),
            ps == names_view(parameters@),
            h1 == push_scope(old(env)@, Some(func_env as nat), bindings_map(bindings_view(external_variables@))),
            run == old(env)@.len(),
            depth > 0,
            callee(fv) == Some((ps, body@, func_env as nat)),
            fv == runtime_func_def@,
            sem_bind(h1, run as nat, ps, ts, 0, depth as nat) == sem_bind(env@, run as nat, ps, ts, i as nat, depth as nat),
        decreases arguments.len() - i,
    {
        proof {
            broadcast use vstd::std_specs::vec::axiom_vec_index_decreases;
        }
        assert(decreases_to!(arguments => arguments[i as int]));
        assert(ts[i as int] == Expr::view_of(*arguments@[i as int]));
        let ghost hb = env@;
        let b = bind_one(env, run, &parameters, &arguments[i], i, depth);
        assert(sem_bind(hb, run as nat, ps, ts, i as nat, depth as nat) == (match b {
            Some(e) => (env@, Some(e@)),
            Option::None => sem_bind(env@, run as nat, ps, ts, (i + 1) as nat, depth as nat),
        }));
        match b {
            Some(e) => {
                return Err(e);
            },
            Option::None => {},
        }
        i = i + 1;
    }
    match body {
        BuiltinOrExpr::Expr(b) => eval_expr(env, run, &b, depth - 1),
        BuiltinOrExpr::Builtin(n) => run_native(env, n, run, depth - 1),
    }
}

/// The native `next(self)` of a lazy map, run in scope `run`.
fn map_next(env: &mut Env, run: usize, depth: usize) -> (r: Result<RuntimeValue, EvalError>)
    ensures
        (final(env)@, res_view(r)) == sem_native(old(env)@, Native::MapNext, run as nat, depth as nat),
    decreases depth, Native::MapNext, 0nat,
{
    let it = env.get(run, &String::from_str("iter"));
    let f = env.get(run, &String::from_str("func"));
    match (it, f) {
        (Some(it), Some(f)) => {
            let key = Expr::Variable(Box::new(String::from_str("next")));
            match static_member(env, run, it, &key, false) {
                Err(e) => Err(e),
                Ok(next_fn) => {
                    if depth == 0 {
                        Err(EvalError::new(ErrorKind::DepthExceeded))
                    } else {
                        let empty: Vec<Box<Expr>> = Vec::new();
                        assert(exprs_view(empty@) =~= Seq::empty());
                        match runtime_func_call(env, next_fn, &empty, no_bindings(), depth - 1) {
                            Err(e) => Err(e),
                            Ok(x) => {
                                let extra = first_param_vars(&f, x);
                                runtime_func_call(env, f, &empty, extra, depth - 1)
                            },
                        }
                    }
                },
            }
        },
        _ => Err(EvalError::new(ErrorKind::UndefinedVariable)),
    }
}

/// Runs native operation `n` in run scope `run` (see `sem_native`).
fn run_native(env: &mut Env, n: Native, run: usize, depth: usize) -> (r: Result<RuntimeValue, EvalError>)
    ensures
        (final(env)@, res_view(r)) == sem_native(old(env)@, n, run as nat, depth as nat),
    decreases depth, n, 1nat,
{
    proof {
        reveal_with_fuel(RuntimeValue::view_of, 2);
    }
    let me = env.get(run, &String::from_str("self"));
    match n {
        Native::TypeName => match me {
            Option::None => Err(EvalError::new(ErrorKind::UndefinedVariable)),
            Some(v) => match v.get_type(env, run) {
                Ok(t) => Ok(RuntimeValue::String(Box::new(t.name()))),
                Err(e) => Err(e),
            },
        },
        Native::I64Str => match me {
            Option::None => Err(EvalError::new(ErrorKind::UndefinedVariable)),
            Some(RuntimeValue::Int64(i)) => Ok(RuntimeValue::String(Box::new(crate::builtins::decimal_string(i as i128)))),
            Some(_) => Err(EvalError::new(ErrorKind::TypeMismatch)),
        },
        Native::I128Str => match me {
            Option::None => Err(EvalError::new(ErrorKind::UndefinedVariable)),
            Some(RuntimeValue::Int128(i)) => Ok(RuntimeValue::String(Box::new(crate::builtins::decimal_string(i)))),
            Some(_) => Err(EvalError::new(ErrorKind::TypeMismatch)),
        },
        Native::ListLen => match me {
            Option::None => Err(EvalError::new(ErrorKind::UndefinedVariable)),
            Some(RuntimeValue::List(items)) => {
                proof {
                    lemma_values_view(items@);
                }
                Ok(RuntimeValue::Int128(items.len() as i128))
            },
            Some(_) => Err(EvalError::new(ErrorKind::TypeMismatch)),
        },
        Native::ListIter => match me {
            Option::None => Err(EvalError::new(ErrorKind::UndefinedVariable)),
            Some(RuntimeValue::List(items)) => {
                let mut v = no_bindings();
                push_binding(&mut v, String::from_str("next"), crate::builtins::method(Native::IterNext, run));
                let id = env.from(v, Option::None);
                Ok(RuntimeValue::WithEnv { value: Box::new(RuntimeValue::List(items)), env: id })
            },
            Some(_) => Err(EvalError::new(ErrorKind::TypeMismatch)),
        },
        Native::IterNext => match me {
            Option::None => Err(EvalError::new(ErrorKind::UndefinedVariable)),
            Some(RuntimeValue::WithEnv { value, env: e }) => {
                let current = String::from_str("current");
                let c: i64 = match env.get(e, &current) {
                    Some(RuntimeValue::Int64(c)) => c,
                    Option::None => 0,
                    Some(_) => {
                        return Err(EvalError::new(ErrorKind::TypeMismatch));
                    },
                };
                match *value {
                    RuntimeValue::List(items) => {
                        if c == i64::MAX {
                            Err(EvalError::new(ErrorKind::Overflow))
                        } else {
                            env.set(e, current, RuntimeValue::Int64(c + 1));
                            proof {
                                lemma_values_view(items@);
                            }
                            if 0 <= c && (c as u64) < (items.len() as u64) {
                                Ok(items[c as usize].clone_value())
                            } else {
                                Err(EvalError::new(ErrorKind::IndexOutOfRange))
                            }
                        }
                    },
                    _ => Err(EvalError::new(ErrorKind::TypeMismatch)),
                }
            },
            Some(_) => Err(EvalError::new(ErrorKind::TypeMismatch)),
        },
        Native::Obj => {
            let value = match env.get(run, &String::from_str("value")) {
                Some(v) => v,
                Option::None => RuntimeValue::Unit,
            };
            let id = env.new(Some(run));
            Ok(RuntimeValue::WithEnv { value: Box::new(value), env: id })
        },
        Native::MapNext => map_next(env, run, depth),
    }
}

/// Assigns `v` to `target` (see `sem_assign`).
fn assign_to(env: &mut Env, scope: usize, target: &Expr, v: RuntimeValue, depth: usize) -> (r: Result<RuntimeValue, EvalError>)
    ensures
        (final(env)@, res_view(r)) == sem_assign(old(env)@, scope as nat, target@, v@, depth as nat),
    decreases depth, target, 0nat,
{
    match target {
        Expr::ExprWithCodePos { exp, .. } => assign_to(env, scope, exp, v, depth),
        Expr::Variable(name) => {
            env.set(scope, (**name).clone(), v);
            Ok(RuntimeValue::Unit)
        },
        Expr::Get { from, key, is_expr, .. } => match eval_expr(env, scope, from, depth) {
            Err(e) => Err(e),
            Ok(fv) => {
                if *is_expr {
                    Err(EvalError::new(ErrorKind::UnsupportedOperation))
                } else {
                    match fv {
                        RuntimeValue::WithEnv { env: e, .. } => match remove_code_pos(key) {
                            Expr::Variable(n) => {
                                env.set(e, (**n).clone(), v);
                                Ok(RuntimeValue::Unit)
                            },
                            _ => Err(EvalError::new(ErrorKind::UnsupportedOperation)),
                        },
                        _ => Err(EvalError::new(ErrorKind::UnsupportedOperation)),
                    }
                }
            },
        },
        _ => Err(EvalError::new(ErrorKind::UnsupportedOperation)),
    }
}

/// The lazy map `x -> map(y)` (see the `LazyMap` case of `sem_eval`).
fn lazy_map(env: &mut Env, scope: usize, e: &Expr, depth: usize) -> (r: Result<RuntimeValue, EvalError>)
    requires
        e matches Expr::Op2 { op: Op::LazyMap, .. },
    ensures
        (final(env)@, res_view(r)) == sem_eval(old(env)@, scope as nat, e@, depth as nat),
    decreases depth, e, 1nat,
{
    proof {
        reveal_with_fuel(RuntimeValue::view_of, 2);
    }
    let (x, y) = match e {
        Expr::Op2 { x, y, .. } => (x, y),
        _ => {
            return Err(EvalError::new(ErrorKind::UnsupportedOperation));
        },
    };
    let recv = match eval_expr(env, scope, x, depth) {
        Err(err) => {
            return Err(err);
        },
        Ok(v) => v,
    };
    let iter_key = String::from_str("iter");
    let (found, self_val) = match recv {
        RuntimeValue::WithEnv { value, env: e2 } => (Ok(env.get(e2, &iter_key)), *value),
        other => {
            let t = other.get_type(env, scope);
            let f = match t {
                Ok(t) => Ok(env.get(t.get_env(), &iter_key)),
                Err(err) => Err(err),
            };
            (f, other)
        },
    };
    let iter_fn = match found {
        Err(err) => {
            return Err(err);
        },
        Ok(Option::None) => {
            return Err(EvalError::new(ErrorKind::UnknownMember));
        },
        Ok(Some(f)) => f,
    };
    if depth == 0 {
        return Err(EvalError::new(ErrorKind::DepthExceeded));
    }
    let mut extra = no_bindings();
    push_binding(&mut extra, String::from_str("self"), self_val);
    let empty: Vec<Box<Expr>> = Vec::new();
    assert(exprs_view(empty@) =~= Seq::empty());
    let it = match runtime_func_call(env, iter_fn, &empty, extra, depth - 1) {
        Err(err) => {
            return Err(err);
        },
        Ok(v) => v,
    };
    let f = match eval_expr(env, scope, y, depth) {
        Err(err) => {
            return Err(err);
        },
        Ok(v) => v,
    };
    let mut state = no_bindings();
    push_binding(&mut state, String::from_str("iter"), it);
    push_binding(&mut state, String::from_str("func"), f);
    let fenv = env.from(state, Option::None);
    let mut members = no_bindings();
    push_binding(&mut members, String::from_str("next"), crate::builtins::method(Native::MapNext, fenv));
    let id = env.from(members, Some(scope));
    Ok(RuntimeValue::WithEnv { value: Box::new(RuntimeValue::Unit), env: id })
}

/// Forces the sequence `x` of `collect x`, or of `x collect y`, into a list
/// (see `sem_force`).
fn collect(env: &mut Env, scope: usize, e: &Expr, depth: usize) -> (r: Result<RuntimeValue, EvalError>)
    requires
        e matches Expr::Op1 { op: Op::Collect, .. } || e matches Expr::Op2 { op: Op::Collect, .. },
    ensures
        (final(env)@, res_view(r)) == sem_eval(old(env)@, scope as nat, e@, depth as nat),
    decreases depth, e, 1nat,
{
    let x = match e {
        Expr::Op1 { x, .. } => x,
        Expr::Op2 { x, .. } => x,
        _ => {
            return Err(EvalError::new(ErrorKind::UnsupportedOperation));
        },
    };
    assert(sem_eval(old(env)@, scope as nat, e@, depth as nat) == sem_force(old(env)@, scope as nat, x@, depth as nat));
    let it = match eval_expr(env, scope, x, depth) {
        Err(err) => {
            return Err(err);
        },
        Ok(v) => v,
    };
    if depth == 0 {
        return Err(EvalError::new(ErrorKind::DepthExceeded));
    }
    let ghost h1 = env@;
    let ghost src = x@;
    assert(sem_eval(old(env)@, scope as nat, e@, depth as nat) == sem_collect(h1, scope as nat, src, it@, Seq::empty(), depth as nat));
    let mut acc: Vec<Box<RuntimeValue>> = Vec::new();
    assert(values_view(acc@) =~= Seq::<Val>::empty());
    let key = Expr::Variable(Box::new(String::from_str("next")));
    let empty: Vec<Box<Expr>> = Vec::new();
    assert(exprs_view(empty@) =~= Seq::empty());
    loop
        invariant
            depth > 0,
            src == x@,
            key@ == Term::Var("next"@),
            exprs_view(empty@) == Seq::<Term>::empty(),
            sem_eval(old(env)@, scope as nat, e@, depth as nat) == sem_collect(env@, scope as nat, src, it@, values_view(acc@), depth as nat),
        decreases usize::MAX - acc.len(),
    {
        proof {
            lemma_values_view(acc@);
        }
        if acc.len() == usize::MAX {
            return Err(EvalError::new(ErrorKind::Overflow));
        }
        let next_fn = match static_member(env, scope, it.clone_value(), &key, false) {
            Err(err) => {
                return Err(err);
            },
            Ok(f) => f,
        };
        match runtime_func_call(env, next_fn, &empty, no_bindings(), depth - 1) {
            Err(err) => {
                if err.kind == ErrorKind::IndexOutOfRange {
                    return Ok(RuntimeValue::List(acc));
                } else {
                    return Err(err);
                }
            },
            Ok(v) => {
                let ghost before = acc@;
                acc.push(Box::new(v));
                assert(acc@.subrange(0, acc@.len() - 1) =~= before);
            },
        }
    }
}

/// Evaluates one expression in scope `scope` with `depth` levels of calls
/// left (see `sem_eval`).
pub fn eval_expr(env: &mut Env, scope: usize, e: &Expr, depth: usize) -> (r: Result<RuntimeValue, EvalError>)
    ensures
        (final(env)@, res_view(r)) == sem_eval(old(env)@, scope as nat, e@, depth as nat),
    decreases depth, e, 2nat,
{
    match e {
        Expr::ExprWithCodePos { exp, start, end } => match eval_expr(env, scope, exp, depth) {
            Err(err) => Err(err.at(*start, *end)),
            Ok(v) => Ok(v),
        },
        Expr::Block(items) => eval(env, scope, items, depth),
        Expr::List(items) => eval_list(env, scope, items, depth),
        Expr::Value(v) => Ok(literal(v)),
        Expr::Variable(name) => match env.get(scope, &**name) {
            Some(v) => Ok(v),
            Option::None => Err(EvalError::with(ErrorKind::UndefinedVariable, Vec::new(), Some((**name).clone()))),
        },
        Expr::FuncDef { parameters, body } => {
            let c = env.new(Some(scope));
            Ok(RuntimeValue::FuncDef {
                parameters: clone_names(parameters),
                body: BuiltinOrExpr::Expr(Box::new(body.clone_expr())),
                env: c,
            })
        },
        Expr::Get { from, key, is_expr, weak } => match eval_expr(env, scope, from, depth) {
            Err(err) => Err(err),
            Ok(fv) => runtime_get(env, scope, *is_expr, fv, key, *weak, depth),
        },
        Expr::FuncCall { func, arguments } => match eval_expr(env, scope, func, depth) {
            Err(err) => Err(err),
            Ok(fv) => runtime_func_call(env, fv, arguments, no_bindings(), depth),
        },
        Expr::Op2 { op, x, y } => {
            if *op == Op::Assign {
                match eval_expr(env, scope, y, depth) {
                    Err(err) => Err(err),
                    Ok(v) => assign_to(env, scope, x, v, depth),
                }
            } else if *op == Op::Add || *op == Op::Sub || *op == Op::Mul || *op == Op::Div {
                match eval_expr(env, scope, x, depth) {
                    Err(err) => Err(err),
                    Ok(a) => match eval_expr(env, scope, y, depth) {
                        Err(err) => Err(err),
                        Ok(b) => arithmetic(*op, &a, &b),
                    },
                }
            } else if *op == Op::Collect {
                collect(env, scope, e, depth)
            } else if *op == Op::LazyMap {
                lazy_map(env, scope, e, depth)
            } else {
                Err(EvalError::new(ErrorKind::UnsupportedOperation))
            }
        },
        Expr::Op1 { op, .. } => {
            if *op == Op::Collect {
                collect(env, scope, e, depth)
            } else {
                Err(EvalError::new(ErrorKind::UnsupportedOperation))
            }
        },
        _ => Err(EvalError::new(ErrorKind::UnsupportedOperation)),
    }
}

/// Evaluates the elements of a list literal into a list value.
fn eval_list(env: &mut Env, scope: usize, items: &Vec<Box<Expr>>, depth: usize) -> (r: Result<RuntimeValue, EvalError>)
    ensures
        (final(env)@, res_view(r)) == sem_list(old(env)@, scope as nat, exprs_view(items@), 0, Seq::empty(), depth as nat),
    decreases depth, items, 0nat,
{
    let ghost h0 = env@;
    let ghost ts = exprs_view(items@);
    proof {
        crate::ast::lemma_exprs_view(items@);
    }
    let mut acc: Vec<Box<RuntimeValue>> = Vec::new();
    assert(values_view(acc@) =~= Seq::<Val>::empty());
    let mut i: usize = 0;
    while i < items.len()
        invariant
            i <= items.len(),
            ts == exprs_view(items@),
            ts.len() == items.len(),
            forall|j: int| 0 <= j < ts.len() ==> #[trigger] ts[j] == Expr::view_of(*items@[j]),
            h0 == old(env)@,
            sem_list(h0, scope as nat, ts, 0, Seq::empty(), depth as nat)
                == sem_list(env@, scope as nat, ts, i as nat, values_view(acc@), depth as nat),
        decreases items.len() - i,
    {
        proof {
            broadcast use vstd::std_specs::vec::axiom_vec_index_decreases;
        }
        assert(decreases_to!(items => items[i as int]));
        assert(ts[i as int] == Expr::view_of(*items@[i as int]));
        let ghost hb = env@;
        let res = eval_expr(env, scope, &items[i], depth);
        assert(sem_list(hb, scope as nat, ts, i as nat, values_view(acc@), depth as nat) == (match res_view(res) {
            Err(e) => (env@, Err(e)),
            Ok(v) => sem_list(env@, scope as nat, ts, (i + 1) as nat, values_view(acc@).push(v), depth as nat),
        }));
        match res {
            Err(err) => {
                return Err(err);
            },
            Ok(v) => {
                let ghost before = acc@;
                acc.push(Box::new(v));
                assert(acc@.subrange(0, acc@.len() - 1) =~= before);
            },
        }
        i = i + 1;
    }
    Ok(RuntimeValue::List(acc))
}

/// Evaluates `asts` in order in scope `scope`, with `depth` levels of calls
/// left; the result is the last value, or unit for no expression.
pub fn eval(env: &mut Env, scope: usize, asts: &Vec<Box<Expr>>, depth: usize) -> (r: Result<RuntimeValue, EvalError>)
    ensures
        (final(env)@, res_view(r)) == sem_block(old(env)@, scope as nat, exprs_view(asts@), 0, Val::Unit, depth as nat),
    decreases depth, asts, 0nat,
{
    let ghost h0 = env@;
    let ghost ts = exprs_view(asts@);
    proof {
        crate::ast::lemma_exprs_view(asts@);
    }
    let mut last = RuntimeValue::Unit;
    let mut i: usize = 0;
    while i < asts.len()
        invariant
            i <= asts.len(),
            ts == exprs_view(asts@),
            ts.len() == asts.len(),
            forall|j: int| 0 <= j < ts.len() ==> #[trigger] ts[j] == Expr::view_of(*asts@[j]),
            h0 == old(env)@,
            sem_block(h0, scope as nat, ts, 0, Val::Unit, depth as nat)
                == sem_block(env@, scope as nat, ts, i as nat, last@, depth as nat),
        decreases asts.len() - i,
    {
        proof {
            broadcast use vstd::std_specs::vec::axiom_vec_index_decreases;
        }
        assert(decreases_to!(asts => asts[i as int]));
        assert(ts[i as int] == Expr::view_of(*asts@[i as int]));
        let ghost hb = env@;
        let res = eval_expr(env, scope, &asts[i], depth);
        assert(sem_block(hb, scope as nat, ts, i as nat, last@, depth as nat) == (match res_view(res) {
            Err(e) => (env@, Err(e)),
            Ok(v) => sem_block(env@, scope as nat, ts, (i + 1) as nat, v, depth as nat),
        }));
        match res {
            Err(err) => {
                return Err(err);
            },
            Ok(v) => {
                last = v;
            },
        }
        i = i + 1;
    }
    Ok(last)
}

impl VM {
    /// The evaluator.
    pub fn new() -> VM {
        VM
    }

    /// Evaluates `ast` in scope `global` of `env`, allowing `DEFAULT_DEPTH`
    /// levels of nested calls.
    pub fn eval(&self, env: &mut Env, global: usize, ast: &Vec<Box<Expr>>) -> (r: Result<RuntimeValue, EvalError>)
        ensures
            (final(env)@, res_view(r)) == sem_block(old(env)@, global as nat, exprs_view(ast@), 0, Val::Unit, DEFAULT_DEPTH as nat),
    {
        eval(env, global, ast, DEFAULT_DEPTH)
    }
}

} // verus!
