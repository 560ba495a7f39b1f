//! The meaning of evaluation, as a big-step semantics over the mathematical
//! forms of trees, values and the scope store. Each function returns the
//! store after the step together with its result.
use vstd::prelude::*;
use crate::ast::{Control, Lit, Op, Term};
use crate::env::{Frame, assign, lookup, push_scope};
use crate::runtimes::{ErrorKind, fail, fail_with, located, Body, Fault, Native, RuntimeType, Val, type_env, type_tag_name, value_type_name};

verus! {

/// The character of a decimal digit.
pub open spec fn digit_char(d: nat) -> char {
    if d == 0 { '0' }
    else if d == 1 { '1' }
    else if d == 2 { '2' }
    else if d == 3 { '3' }
    else if d == 4 { '4' }
    else if d == 5 { '5' }
    else if d == 6 { '6' }
    else if d == 7 { '7' }
    else if d == 8 { '8' }
    else { '9' }
}

/// The decimal digits of `n`, most significant first, without leading zeros.
pub open spec fn digits(n: nat) -> Seq<char>
    decreases n,
{
    if n < 10 {
        seq![digit_char(n)]
    } else {
        digits(n / 10).push(digit_char(n % 10))
    }
}

/// The decimal text of `i`, with a leading `-` when negative.
pub open spec fn decimal(i: int) -> Seq<char> {
    if i < 0 {
        seq!['-'] + digits((-i) as nat)
    } else {
        digits(i as nat)
    }
}

/// Integer division truncating toward zero.
pub open spec fn trunc_div(a: int, b: int) -> int {
    if a == 0 {
        0
    } else if a > 0 && b > 0 {
        a / b
    } else if a < 0 && b < 0 {
        (-a) / (-b)
    } else if a < 0 {
        -((-a) / b)
    } else {
        -(a / (-b))
    }
}

/// An arithmetic operator on mathematical integers; `None` for a division
/// by zero.
pub open spec fn int_op(op: Op, a: int, b: int) -> Option<int> {
    match op {
        Op::Add => Some(a + b),
        Op::Sub => Some(a - b),
        Op::Mul => Some(a * b),
        _ => if b == 0 {
            Option::None
        } else {
            Some(trunc_div(a, b))
        },
    }
}

pub open spec fn is_arith(op: Op) -> bool {
    op == Op::Add || op == Op::Sub || op == Op::Mul || op == Op::Div
}

/// An arithmetic result kept as a 64-bit integer.
pub open spec fn int64_result(r: Option<int>) -> Result<Val, Fault> {
    match r {
        Option::None => Err(fail(ErrorKind::DivisionByZero)),
        Some(x) => if i64::MIN <= x <= i64::MAX {
            Ok(Val::Int64(x as i64))
        } else {
            Err(fail(ErrorKind::Overflow))
        },
    }
}

/// An arithmetic result kept as a 128-bit integer.
pub open spec fn int128_result(r: Option<int>) -> Result<Val, Fault> {
    match r {
        Option::None => Err(fail(ErrorKind::DivisionByZero)),
        Some(x) => if i128::MIN <= x <= i128::MAX {
            Ok(Val::Int128(x as i128))
        } else {
            Err(fail(ErrorKind::Overflow))
        },
    }
}

/// A binary arithmetic operator on two values: two `i64` give an `i64`; an
/// `i64` meeting an `i128` is widened, and the result is an `i128`; `+`
/// also joins two strings. Any other pair is a type mismatch.
pub open spec fn arith(op: Op, a: Val, b: Val) -> Result<Val, Fault> {
    match (a, b) {
        (Val::Int64(x), Val::Int64(y)) => int64_result(int_op(op, x as int, y as int)),
        (Val::Int64(x), Val::Int128(y)) => int128_result(int_op(op, x as int, y as int)),
        (Val::Int128(x), Val::Int64(y)) => int128_result(int_op(op, x as int, y as int)),
        (Val::Int128(x), Val::Int128(y)) => int128_result(int_op(op, x as int, y as int)),
        (Val::String(x), Val::String(y)) => if op == Op::Add {
            Ok(Val::String(x + y))
        } else {
            Err(fail_with(ErrorKind::TypeMismatch, seq![a, b], Option::None))
        },
        _ => Err(fail_with(ErrorKind::TypeMismatch, seq![a, b], Option::None)),
    }
}

/// The value of a literal.
pub open spec fn lit_val(l: Lit) -> Val {
    match l {
        Lit::Str(s) => Val::String(s),
        Lit::I64(i) => Val::Int64(i),
        Lit::I128(i) => Val::Int128(i),
        Lit::Re(s) => Val::Regex(s),
    }
}

/// A tree without its source-position wrappers.
pub open spec fn strip(t: Term) -> Term
    decreases t,
{
    match t {
        Term::Pos(inner, _, _) => strip(*inner),
        _ => t,
    }
}

/// The type descriptor of a value of this kind, carrying member scope `env`.
pub open spec fn retag(v: Val, env: usize) -> RuntimeType {
    match v {
        Val::Int64(_) => RuntimeType::Int64 { env },
        Val::Int128(_) => RuntimeType::Int128 { env },
        Val::String(_) => RuntimeType::String { env },
        Val::Regex(_) => RuntimeType::Regex { env },
        Val::List(_) => RuntimeType::List { env },
        Val::FuncDef(..) => RuntimeType::FuncDef { env },
        _ => RuntimeType::Unit { env },
    }
}

/// The type of a value seen from scope `s`: a type descriptor is its own
/// type, unchanged; a bound value has the type of the value it wraps; any
/// other value gets, under its own tag, the member scope of the descriptor
/// registered under its type name, which must be a type descriptor.
pub open spec fn type_of(h: Seq<Frame>, s: nat, v: Val) -> Result<RuntimeType, Fault>
    decreases v,
{
    match v {
        Val::RuntimeType(r) => Ok(r),
        Val::WithEnv(inner, _) => type_of(h, s, *inner),
        _ => match lookup(h, s, value_type_name(v)) {
            Some(Val::RuntimeType(t)) => Ok(retag(v, type_env(t))),
            _ => Err(fail(ErrorKind::RegistryConsistency)),
        },
    }
}

/// The element at position `i`.
pub open spec fn at(items: Seq<Val>, i: int) -> Result<Val, Fault> {
    if 0 <= i < items.len() {
        Ok(items[i])
    } else {
        Err(fail(ErrorKind::IndexOutOfRange))
    }
}

/// Indexing a list with an integer value.
pub open spec fn index_list(from: Val, k: Val) -> Result<Val, Fault> {
    match from {
        Val::List(items) => match k {
            Val::Int64(i) => at(items, i as int),
            Val::Int128(i) => at(items, i as int),
            _ => Err(fail_with(ErrorKind::TypeMismatch, seq![from, k], Option::None)),
        },
        _ => Err(fail_with(ErrorKind::TypeMismatch, seq![from, k], Option::None)),
    }
}

/// A member found on `from`: a function is bound to a fresh scope, under
/// the function's own, that holds `self`; any other value is returned as it
/// is.
pub open spec fn bind_self(h: Seq<Frame>, from: Val, m: Val) -> (Seq<Frame>, Result<Val, Fault>) {
    match m {
        Val::FuncDef(_, _, fenv) => (
            push_scope(h, Some(fenv), Map::empty().insert("self"@, from)),
            Ok(Val::WithEnv(Box::new(m), h.len())),
        ),
        _ => (h, Ok(m)),
    }
}

/// The outcome of the lookup of member `name`: a miss is none on a weak
/// access and an unknown member, about the receiver and the name, otherwise.
pub open spec fn found_member(h: Seq<Frame>, from: Val, name: Seq<char>, m: Option<Val>, weak: bool) -> (Seq<Frame>, Result<Val, Fault>) {
    match m {
        Some(v) => bind_self(h, from, v),
        Option::None => if weak {
            (h, Ok(Val::Unit))
        } else {
            (h, Err(fail_with(ErrorKind::UnknownMember, seq![from], Some(name))))
        },
    }
}

/// Static member access `from.key`: a bound value looks the name up in its
/// own scope; any other value in its type's member scope, and a list also
/// takes a literal key as an index.
pub open spec fn static_get(h: Seq<Frame>, s: nat, from: Val, key: Term, weak: bool) -> (Seq<Frame>, Result<Val, Fault>) {
    match from {
        Val::WithEnv(_, e) => match key {
            Term::Var(n) => found_member(h, from, n, lookup(h, e, n), weak),
            _ => (h, Err(fail(ErrorKind::UnsupportedOperation))),
        },
        _ => match type_of(h, s, from) {
            Err(err) => (h, Err(err)),
            Ok(t) => match key {
                Term::Var(n) => found_member(h, from, n, lookup(h, type_env(t) as nat, n), weak),
                Term::Lit(l) => (h, index_list(from, lit_val(l))),
                _ => (h, Err(fail(ErrorKind::UnsupportedOperation))),
            },
        },
    }
}

/// The parameter names of a function value, bound or not.
pub open spec fn params_of(f: Val) -> Option<Seq<Seq<char>>> {
    match f {
        Val::FuncDef(p, _, _) => Some(p),
        Val::WithEnv(inner, _) => match *inner {
            Val::FuncDef(p, _, _) => Some(p),
            _ => Option::None,
        },
        _ => Option::None,
    }
}

/// The variables that hand `x` to the first parameter of `f`.
pub open spec fn first_param_binding(f: Val, x: Val) -> Map<Seq<char>, Val> {
    match params_of(f) {
        Some(p) => if p.len() > 0 {
            Map::empty().insert(p[0], x)
        } else {
            Map::empty()
        },
        Option::None => Map::empty(),
    }
}

/// What a call runs: parameters, body and the scope the run scope hangs
/// under. A bound function runs under its binding scope.
pub open spec fn callee(f: Val) -> Option<(Seq<Seq<char>>, Body, nat)> {
    match f {
        Val::FuncDef(p, b, e) => Some((p, b, e)),
        Val::WithEnv(inner, e2) => match *inner {
            Val::FuncDef(p, b, _) => Some((p, b, e2)),
            _ => Option::None,
        },
        _ => Option::None,
    }
}

/// The name an argument `name = expr` binds, if the argument has that form.
pub open spec fn assigned_name(x: Term) -> Option<Seq<char>> {
    match strip(x) {
        Term::Var(n) => Some(n),
        _ => Option::None,
    }
}

/// The variables of the scope that drives a lazy map.
pub open spec fn map_state(it: Val, f: Val) -> Map<Seq<char>, Val> {
    Map::empty().insert("iter"@, it).insert("func"@, f)
}

/// The function value of a native method `name(self)` running `n`, over
/// captured scope `env`.
pub open spec fn native_next(n: Native, env: nat) -> Val {
    Val::FuncDef(seq!["self"@], Body::Native(n), env)
}

/// One expression evaluated in scope `s` with `d` levels of calls left.
pub open spec fn sem_eval(h: Seq<Frame>, s: nat, t: Term, d: nat) -> (Seq<Frame>, Result<Val, Fault>)
    decreases d, t, 0nat,
{
    match t {
        Term::Pos(inner, start, end) => {
            let (h1, r) = sem_eval(h, s, *inner, d);
            (h1, located(r, start, end))
        },
        Term::Block(ts) => sem_block(h, s, ts, 0, Val::Unit, d),
        Term::List(ts) => sem_list(h, s, ts, 0, Seq::empty(), d),
        Term::Lit(l) => (h, Ok(lit_val(l))),
        Term::Var(n) => (h, match lookup(h, s, n) {
            Some(v) => Ok(v),
            Option::None => Err(fail_with(ErrorKind::UndefinedVariable, Seq::empty(), Some(n))),
        }),
        Term::Lambda(params, body) => (
            push_scope(h, Some(s), Map::empty()),
            Ok(Val::FuncDef(params, Body::Code(*body), h.len())),
        ),
        Term::Get(from, key, is_expr, weak) => {
            let (h1, r) = sem_eval(h, s, *from, d);
            match r {
                Err(e) => (h1, Err(e)),
                Ok(fv) => sem_get(h1, s, is_expr, fv, *key, weak, d),
            }
        },
        Term::Call(f, args) => {
            let (h1, r) = sem_eval(h, s, *f, d);
            match r {
                Err(e) => (h1, Err(e)),
                Ok(fv) => sem_call(h1, fv, args, Map::empty(), d),
            }
        },
        Term::Op2(op, x, y) => if op == Op::Assign {
            let (h1, r) = sem_eval(h, s, *y, d);
            match r {
                Err(e) => (h1, Err(e)),
                Ok(v) => sem_assign(h1, s, *x, v, d),
            }
        } else if is_arith(op) {
            let (h1, a) = sem_eval(h, s, *x, d);
            match a {
                Err(e) => (h1, Err(e)),
                Ok(av) => {
                    let (h2, b) = sem_eval(h1, s, *y, d);
                    match b {
                        Err(e) => (h2, Err(e)),
                        Ok(bv) => (h2, arith(op, av, bv)),
                    }
                },
            }
        } else if op == Op::Collect {
            sem_force(h, s, *x, d)
        } else if op == Op::LazyMap {
            let (h1, r) = sem_eval(h, s, *x, d);
            match r {
                Err(e) => (h1, Err(e)),
                Ok(recv) => {
                    let (found, self_val) = match recv {
                        Val::WithEnv(inner, e) => (Ok(lookup(h1, e, "iter"@)), *inner),
                        _ => match type_of(h1, s, recv) {
                            Ok(ty) => (Ok(lookup(h1, type_env(ty) as nat, "iter"@)), recv),
                            Err(err) => (Err(err), recv),
                        },
                    };
                    match found {
                        Err(err) => (h1, Err(err)),
                        Ok(Option::None) => (h1, Err(fail(ErrorKind::UnknownMember))),
                        Ok(Some(iter_fn)) => if d == 0 {
                            (h1, Err(fail(ErrorKind::DepthExceeded)))
                        } else {
                            let (h2, it) = sem_call(h1, iter_fn, Seq::empty(), Map::empty().insert("self"@, self_val), (d - 1) as nat);
                            match it {
                                Err(err) => (h2, Err(err)),
                                Ok(itv) => {
                                    let (h3, fr) = sem_eval(h2, s, *y, d);
                                    match fr {
                                        Err(err) => (h3, Err(err)),
                                        Ok(fv) => {
                                            let h4 = push_scope(h3, Option::None, map_state(itv, fv));
                                            let h5 = push_scope(h4, Some(s), Map::empty().insert("next"@, native_next(Native::MapNext, h3.len())));
                                            (h5, Ok(Val::WithEnv(Box::new(Val::Unit), h4.len())))
                                        },
                                    }
                                },
                            }
                        },
                    }
                },
            }
        } else {
            (h, Err(fail(ErrorKind::UnsupportedOperation)))
        },
        Term::Op1(op, x) => if op == Op::Collect {
            sem_force(h, s, *x, d)
        } else {
            (h, Err(fail(ErrorKind::UnsupportedOperation)))
        },
        _ => (h, Err(fail(ErrorKind::UnsupportedOperation))),
    }
}

/// `collect x`, or `x collect y` with `y` left unevaluated: the sequence
/// that `x` evaluates to, forced into a list (see `sem_collect`).
pub open spec fn sem_force(h: Seq<Frame>, s: nat, x: Term, d: nat) -> (Seq<Frame>, Result<Val, Fault>)
    decreases d, x, usize::MAX + 1,
{
    let (h1, r) = sem_eval(h, s, x, d);
    match r {
        Err(e) => (h1, Err(e)),
        Ok(seq_val) => if d == 0 {
            (h1, Err(fail(ErrorKind::DepthExceeded)))
        } else {
            sem_collect(h1, s, x, seq_val, Seq::empty(), d)
        },
    }
}

/// Forcing the sequence `it` (the value of tree `src`) into a list: `next`
/// is called until it fails with an index error, which ends the sequence;
/// the values before are appended to `acc`. Any other error ends the
/// collection with that error, and so does a list that would outgrow the
/// machine's sizes.
pub open spec fn sem_collect(h: Seq<Frame>, s: nat, src: Term, it: Val, acc: Seq<Val>, d: nat) -> (Seq<Frame>, Result<Val, Fault>)
    decreases d, src, usize::MAX - acc.len(),
{
    if d == 0 {
        (h, Err(fail(ErrorKind::DepthExceeded)))
    } else if acc.len() >= usize::MAX {
        (h, Err(fail(ErrorKind::Overflow)))
    } else {
        let (h1, nf) = static_get(h, s, it, Term::Var("next"@), false);
        match nf {
            Err(e) => (h1, Err(e)),
            Ok(next_fn) => {
                let (h2, x) = sem_call(h1, next_fn, Seq::empty(), Map::empty(), (d - 1) as nat);
                match x {
                    Err(e) => if e.kind == ErrorKind::IndexOutOfRange {
                        (h2, Ok(Val::List(acc)))
                    } else {
                        (h2, Err(e))
                    },
                    Ok(v) => sem_collect(h2, s, src, it, acc.push(v), d),
                }
            },
        }
    }
}

/// Expressions `ts[i..]` evaluated in order; the result is the last value,
/// or `last` when none is left.
pub open spec fn sem_block(h: Seq<Frame>, s: nat, ts: Seq<Term>, i: nat, last: Val, d: nat) -> (Seq<Frame>, Result<Val, Fault>)
    decreases d, ts, ts.len() - i,
{
    if i >= ts.len() {
        (h, Ok(last))
    } else {
        let (h1, r) = sem_eval(h, s, ts[i as int], d);
        match r {
            Err(e) => (h1, Err(e)),
            Ok(v) => sem_block(h1, s, ts, i + 1, v, d),
        }
    }
}

/// Expressions `ts[i..]` evaluated in order, their values appended to `acc`.
pub open spec fn sem_list(h: Seq<Frame>, s: nat, ts: Seq<Term>, i: nat, acc: Seq<Val>, d: nat) -> (Seq<Frame>, Result<Val, Fault>)
    decreases d, ts, ts.len() - i,
{
    if i >= ts.len() {
        (h, Ok(Val::List(acc)))
    } else {
        let (h1, r) = sem_eval(h, s, ts[i as int], d);
        match r {
            Err(e) => (h1, Err(e)),
            Ok(v) => sem_list(h1, s, ts, i + 1, acc.push(v), d),
        }
    }
}

/// Assignment of `v` to `target`: a variable is bound in scope `s` itself;
/// `obj.name` binds `name` in the scope of a bound value `obj`.
pub open spec fn sem_assign(h: Seq<Frame>, s: nat, target: Term, v: Val, d: nat) -> (Seq<Frame>, Result<Val, Fault>)
    decreases d, target, 0nat,
{
    match target {
        Term::Pos(inner, _, _) => sem_assign(h, s, *inner, v, d),
        Term::Var(n) => (assign(h, s, n, v), Ok(Val::Unit)),
        Term::Get(from, key, is_expr, _) => {
            let (h1, r) = sem_eval(h, s, *from, d);
            match r {
                Err(e) => (h1, Err(e)),
                Ok(fv) => if is_expr {
                    (h1, Err(fail(ErrorKind::UnsupportedOperation)))
                } else {
                    match fv {
                        Val::WithEnv(_, e) => match strip(*key) {
                            Term::Var(n) => (assign(h1, e, n, v), Ok(Val::Unit)),
                            _ => (h1, Err(fail(ErrorKind::UnsupportedOperation))),
                        },
                        _ => (h1, Err(fail(ErrorKind::UnsupportedOperation))),
                    }
                },
            }
        },
        _ => (h, Err(fail(ErrorKind::UnsupportedOperation))),
    }
}

/// Member access on an evaluated receiver: `from[key]` when `is_expr`,
/// else `from.key`.
pub open spec fn sem_get(h: Seq<Frame>, s: nat, is_expr: bool, from: Val, key: Term, weak: bool, d: nat) -> (Seq<Frame>, Result<Val, Fault>)
    decreases d, key, 1nat,
{
    if is_expr {
        let (h1, r) = sem_eval(h, s, key, d);
        match r {
            Err(e) => (h1, Err(e)),
            Ok(k) => (h1, index_list(from, k)),
        }
    } else {
        static_get(h, s, from, strip(key), weak)
    }
}

/// A call of `f` on `args`, its run scope seeded with `extra`.
pub open spec fn sem_call(h: Seq<Frame>, f: Val, args: Seq<Term>, extra: Map<Seq<char>, Val>, d: nat) -> (Seq<Frame>, Result<Val, Fault>)
    decreases d, args, args.len() + 1,
{
    match callee(f) {
        Option::None => (h, Err(fail_with(ErrorKind::NotCallable, seq![f], Option::None))),
        Some((params, body, env)) => if d == 0 {
            (h, Err(fail(ErrorKind::DepthExceeded)))
        } else {
            let run = h.len();
            let (h1, b) = sem_bind(push_scope(h, Some(env), extra), run, params, args, 0, d);
            match b {
                Some(e) => (h1, Err(e)),
                Option::None => match body {
                    Body::Code(t) => sem_eval(h1, run, t, (d - 1) as nat),
                    Body::Native(n) => sem_native(h1, n, run, (d - 1) as nat),
                },
            }
        },
    }
}

/// Arguments `args[i..]` bound in run scope `run`, where they are also
/// evaluated; the error that stopped binding, if any.
pub open spec fn sem_bind(h: Seq<Frame>, run: nat, params: Seq<Seq<char>>, args: Seq<Term>, i: nat, d: nat) -> (Seq<Frame>, Option<Fault>)
    decreases d, args, args.len() - i,
{
    if i >= args.len() {
        (h, Option::None)
    } else {
        let (h1, r) = sem_bind_one(h, run, params, args[i as int], i, d);
        match r {
            Some(e) => (h1, Some(e)),
            Option::None => sem_bind(h1, run, params, args, i + 1, d),
        }
    }
}

/// The argument in position `pos`: `name = expr` binds `name`; any other
/// argument binds the parameter in that position.
pub open spec fn sem_bind_one(h: Seq<Frame>, run: nat, params: Seq<Seq<char>>, a: Term, pos: nat, d: nat) -> (Seq<Frame>, Option<Fault>)
    decreases d, a, 1nat,
{
    match a {
        Term::Pos(inner, _, _) => sem_bind_one(h, run, params, *inner, pos, d),
        Term::Op2(op, x, y) if op == Op::Assign && assigned_name(*x) is Some => {
            let (h1, r) = sem_eval(h, run, *y, d);
            match r {
                Err(e) => (h1, Some(e)),
                Ok(v) => (assign(h1, run, assigned_name(*x)->0, v), Option::None),
            }
        },
        _ => {
            let (h1, r) = sem_eval(h, run, a, d);
            match r {
                Err(e) => (h1, Some(e)),
                Ok(v) => if pos < params.len() {
                    (assign(h1, run, params[pos as int], v), Option::None)
                } else {
                    (h1, Some(fail(ErrorKind::TooManyArguments)))
                },
            }
        },
    }
}

/// A native operation run in scope `run`.
pub open spec fn sem_native(h: Seq<Frame>, n: Native, run: nat, d: nat) -> (Seq<Frame>, Result<Val, Fault>)
    decreases d, Term::Control(Control::Ignore), 0nat,
{
    let me = lookup(h, run, "self"@);
    match n {
        Native::TypeName => match me {
            Option::None => (h, Err(fail(ErrorKind::UndefinedVariable))),
            Some(v) => (h, match type_of(h, run, v) {
                Ok(t) => Ok(Val::String(type_tag_name(t))),
                Err(e) => Err(e),
            }),
        },
        Native::I64Str => (h, match me {
            Option::None => Err(fail(ErrorKind::UndefinedVariable)),
            Some(Val::Int64(i)) => Ok(Val::String(decimal(i as int))),
            Some(_) => Err(fail(ErrorKind::TypeMismatch)),
        }),
        Native::I128Str => (h, match me {
            Option::None => Err(fail(ErrorKind::UndefinedVariable)),
            Some(Val::Int128(i)) => Ok(Val::String(decimal(i as int))),
            Some(_) => Err(fail(ErrorKind::TypeMismatch)),
        }),
        Native::ListLen => (h, match me {
            Option::None => Err(fail(ErrorKind::UndefinedVariable)),
            Some(Val::List(items)) => Ok(Val::Int128(items.len() as i128)),
            Some(_) => Err(fail(ErrorKind::TypeMismatch)),
        }),
        Native::ListIter => match me {
            Option::None => (h, Err(fail(ErrorKind::UndefinedVariable))),
            Some(Val::List(items)) => (
                push_scope(h, Option::None, Map::empty().insert("next"@, native_next(Native::IterNext, run))),
                Ok(Val::WithEnv(Box::new(Val::List(items)), h.len())),
            ),
            Some(_) => (h, Err(fail(ErrorKind::TypeMismatch))),
        },
        Native::IterNext => match me {
            Option::None => (h, Err(fail(ErrorKind::UndefinedVariable))),
            Some(Val::WithEnv(value, e)) => {
                let cur = match lookup(h, e, "current"@) {
                    Some(c) => c,
                    Option::None => Val::Int64(0),
                };
                match cur {
                    Val::Int64(c) => match *value {
                        Val::List(items) => if c == i64::MAX {
                            (h, Err(fail(ErrorKind::Overflow)))
                        } else {
                            (assign(h, e, "current"@, Val::Int64((c + 1) as i64)), at(items, c as int))
                        },
                        _ => (h, Err(fail(ErrorKind::TypeMismatch))),
                    },
                    _ => (h, Err(fail(ErrorKind::TypeMismatch))),
                }
            },
            Some(_) => (h, Err(fail(ErrorKind::TypeMismatch))),
        },
        Native::Obj => {
            let value = match lookup(h, run, "value"@) {
                Some(v) => v,
                Option::None => Val::Unit,
            };
            (push_scope(h, Some(run), Map::empty()), Ok(Val::WithEnv(Box::new(value), h.len())))
        },
        Native::MapNext => match (lookup(h, run, "iter"@), lookup(h, run, "func"@)) {
            (Some(it), Some(f)) => {
                let (h1, nf) = static_get(h, run, it, Term::Var("next"@), false);
                match nf {
                    Err(e) => (h1, Err(e)),
                    Ok(next_fn) => if d == 0 {
                        (h1, Err(fail(ErrorKind::DepthExceeded)))
                    } else {
                        let (h2, x) = sem_call(h1, next_fn, Seq::empty(), Map::empty(), (d - 1) as nat);
                        match x {
                            Err(e) => (h2, Err(e)),
                            Ok(xv) => sem_call(h2, f, Seq::empty(), first_param_binding(f, xv), (d - 1) as nat),
                        }
                    },
                }
            },
            _ => (h, Err(fail(ErrorKind::UndefinedVariable))),
        },
    }
}

} // verus!
