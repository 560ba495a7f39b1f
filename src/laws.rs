//! Laws of evaluation, stated over the semantics that the evaluator is
//! proved to follow.
use vstd::prelude::*;
use crate::ast::{Lit, Op, Term};
use crate::env::{Frame, assign, lookup, push_scope};
use crate::runtimes::{ErrorKind, fail, fail_with, Body, Fault, Native, RuntimeType, Val, type_env};
use crate::semantics::{sem_block, map_state, sem_list, sem_eval, sem_get, sem_assign, type_of, decimal, sem_call, sem_native, sem_bind, static_get, lit_val, native_next, first_param_binding};
use crate::builtins::bootstrap;

verus! {

/// The tree `x + y` of two literals.
pub open spec fn add_lits(x: Lit, y: Lit) -> Term {
    Term::Op2(Op::Add, Box::new(Term::Lit(x)), Box::new(Term::Lit(y)))
}

/// Adding two `i64` gives their sum as an `i64` when it fits and an overflow
/// error otherwise; an `i64` meets an `i128` by widening, giving the sum as
/// an `i128` when it fits, on whichever side the `i128` stands. No scope is
/// touched.
pub proof fn law_integer_addition(h: Seq<Frame>, s: nat, a: i64, b: i64, c: i128, d: nat)
    ensures
        i64::MIN <= a + b <= i64::MAX ==> sem_eval(h, s, add_lits(Lit::I64(a), Lit::I64(b)), d) == (h, Ok::<Val, Fault>(Val::Int64((a + b) as i64))),
        !(i64::MIN <= a + b <= i64::MAX) ==> sem_eval(h, s, add_lits(Lit::I64(a), Lit::I64(b)), d) == (h, Err::<Val, Fault>(fail(ErrorKind::Overflow))),
        i128::MIN <= a + c <= i128::MAX ==> sem_eval(h, s, add_lits(Lit::I64(a), Lit::I128(c)), d) == (h, Ok::<Val, Fault>(Val::Int128((a + c) as i128))),
        sem_eval(h, s, add_lits(Lit::I64(a), Lit::I128(c)), d) == sem_eval(h, s, add_lits(Lit::I128(c), Lit::I64(a)), d),
{
    reveal_with_fuel(sem_eval, 2);
}

/// Adding two strings joins them; adding a string and an integer is a type
/// mismatch about the two operands.
pub proof fn law_string_addition(h: Seq<Frame>, s: nat, x: Seq<char>, y: Seq<char>, n: i64, d: nat)
    ensures
        sem_eval(h, s, add_lits(Lit::Str(x), Lit::Str(y)), d) == (h, Ok::<Val, Fault>(Val::String(x + y))),
        sem_eval(h, s, add_lits(Lit::Str(x), Lit::I64(n)), d)
            == (h, Err::<Val, Fault>(fail_with(ErrorKind::TypeMismatch, seq![Val::String(x), Val::Int64(n)], Option::None))),
{
    reveal_with_fuel(sem_eval, 2);
}

/// A field written into an object with `o.f = x` is what a later `o.f`
/// reads, for any value `x` but a function (a function read as a member is
/// bound to its object).
pub proof fn law_field_write_visible(
    h: Seq<Frame>,
    s: nat,
    target: Term,
    v: Val,
    e: nat,
    f: Seq<char>,
    x: Val,
    weak: bool,
    d: nat,
)
    requires
        e < sem_eval(h, s, target, d).0.len(),
        sem_eval(h, s, target, d).1 == Ok::<Val, Fault>(Val::WithEnv(Box::new(v), e)),
        !(x is FuncDef),
    ensures
        sem_assign(h, s, Term::Get(Box::new(target), Box::new(Term::Var(f)), false, weak), x, d)
            == (assign(sem_eval(h, s, target, d).0, e, f, x), Ok::<Val, Fault>(Val::Unit)),
        sem_get(assign(sem_eval(h, s, target, d).0, e, f, x), s, false, Val::WithEnv(Box::new(v), e), Term::Var(f), weak, d)
            == (assign(sem_eval(h, s, target, d).0, e, f, x), Ok::<Val, Fault>(x)),
{
    let h1 = sem_eval(h, s, target, d).0;
    let h2 = assign(h1, e, f, x);
    assert(h2[e as int].vars.contains_key(f));
    assert(lookup(h2, e, f) == Some(x));
}

/// Whether a static access of member `n` on `from` misses: a bound value
/// lacks it along its own scope chain; any other value has a registered
/// type whose member scope lacks it.
pub open spec fn member_missing(h: Seq<Frame>, s: nat, from: Val, n: Seq<char>) -> bool {
    match from {
        Val::WithEnv(_, e) => lookup(h, e, n) is None,
        _ => match type_of(h, s, from) {
            Ok(t) => lookup(h, type_env(t) as nat, n) is None,
            Err(_) => false,
        },
    }
}

/// A weak access to a missing member yields unit; the same access without
/// the weak flag fails with an unknown-member error that names the member
/// and holds the receiver. Neither touches a scope.
pub proof fn law_weak_member_access(h: Seq<Frame>, s: nat, from: Val, n: Seq<char>, d: nat)
    requires
        member_missing(h, s, from, n),
    ensures
        sem_get(h, s, false, from, Term::Var(n), true, d) == (h, Ok::<Val, Fault>(Val::Unit)),
        sem_get(h, s, false, from, Term::Var(n), false, d)
            == (h, Err::<Val, Fault>(fail_with(ErrorKind::UnknownMember, seq![from], Some(n)))),
{
}

/// The tree `recv.name()`.
pub open spec fn method_call(recv: Term, name: Seq<char>) -> Term {
    Term::Call(Box::new(Term::Get(Box::new(recv), Box::new(Term::Var(name)), false, false)), Seq::empty())
}

/// Lookups from a scope that a store already held see the same bindings
/// after more scopes are added.
pub proof fn lemma_lookup_prefix(h: Seq<Frame>, h2: Seq<Frame>, id: nat, k: Seq<char>)
    requires
        h.len() <= h2.len(),
        h2.subrange(0, h.len() as int) == h,
        id < h.len(),
    ensures
        lookup(h2, id, k) == lookup(h, id, k),
    decreases id,
{
    assert(h2[id as int] == h[id as int]);
    if !h[id as int].vars.contains_key(k) {
        match h[id as int].parent {
            Some(p) => if p < id {
                lemma_lookup_prefix(h, h2, p, k);
            },
            Option::None => {},
        }
    }
}

/// The bindings of the bootstrap registry that member dispatch reads.
pub proof fn lemma_registry(h0: Seq<Frame>)
    requires
        h0.len() + 8 <= usize::MAX,
    ensures
        lookup(bootstrap(h0), h0.len(), "i64"@) == Some(Val::RuntimeType(RuntimeType::Int64 { env: (h0.len() + 1) as usize })),
        lookup(bootstrap(h0), h0.len(), "i128"@) == Some(Val::RuntimeType(RuntimeType::Int128 { env: (h0.len() + 2) as usize })),
        lookup(bootstrap(h0), h0.len(), "list"@) == Some(Val::RuntimeType(RuntimeType::List { env: (h0.len() + 5) as usize })),
        lookup(bootstrap(h0), h0.len() + 1, "type"@) == Some(native_next(Native::TypeName, h0.len())),
        lookup(bootstrap(h0), h0.len() + 1, "str"@) == Some(native_next(Native::I64Str, h0.len())),
        lookup(bootstrap(h0), h0.len() + 2, "str"@) == Some(native_next(Native::I128Str, h0.len())),
        lookup(bootstrap(h0), h0.len() + 5, "iter"@) == Some(native_next(Native::ListIter, h0.len())),
        bootstrap(h0).len() == h0.len() + 6,
        bootstrap(h0).subrange(0, h0.len() as int) == h0,
{
    reveal_strlit("i64");
    reveal_strlit("i128");
    reveal_strlit("str");
    reveal_strlit("reg");
    reveal_strlit("list");
    reveal_strlit("obj");
    reveal_strlit("type");
    reveal_strlit("len");
    reveal_strlit("iter");
    let h = bootstrap(h0);
    let r = h0.len();
    assert(h.subrange(0, r as int) =~= h0);
    assert("i64"@[0] != "str"@[0] && "i64"@[0] != "reg"@[0] && "i64"@[0] != "list"@[0] && "i64"@[0] != "obj"@[0]);
    assert("i64"@.len() != "i128"@.len());
    assert("i128"@[0] != "str"@[0] && "i128"@[0] != "reg"@[0] && "i128"@[0] != "list"@[0] && "i128"@[0] != "obj"@[0]);
    assert("list"@[0] != "obj"@[0]);
    assert(h[r as int].vars.contains_key("i64"@));
    assert(h[r as int].vars.contains_key("i128"@));
    assert(h[r as int].vars.contains_key("list"@));
    assert(h[r + 1int].vars.contains_key("type"@));
    assert(h[r + 1int].vars.contains_key("str"@));
    assert(h[r + 2int].vars.contains_key("str"@));
    assert(h[r + 5int].vars.contains_key("iter"@));
}

/// A store that extends `h` by the scopes of a bound method call: the
/// binding scope at `h.len()` holding `self`, under `fenv`, and the run
/// scope after it.
pub open spec fn call_frames(h: Seq<Frame>, fenv: nat, me: Val) -> Seq<Frame> {
    push_scope(push_scope(h, Some(fenv), Map::empty().insert("self"@, me)), Some(h.len()), Map::empty())
}

/// In the run scope of a bound method call, `self` is the receiver and any
/// other name is seen from the function's scope.
pub proof fn lemma_call_frames(h: Seq<Frame>, fenv: nat, me: Val, k: Seq<char>)
    requires
        fenv < h.len(),
    ensures
        lookup(call_frames(h, fenv, me), h.len() + 1, "self"@) == Some(me),
        k != "self"@ ==> lookup(call_frames(h, fenv, me), h.len() + 1, k) == lookup(h, fenv, k),
{
    let h2 = call_frames(h, fenv, me);
    reveal_with_fuel(lookup, 3);
    assert(h2.subrange(0, h.len() as int) =~= h);
    lemma_lookup_prefix(h, h2, fenv, k);
    assert(h2[h.len() as int].vars.contains_key("self"@));
}

/// How `recv.name()` runs when `recv` evaluates to `v` without touching
/// the store and `name` is a native method of the type of `v`.
pub proof fn lemma_native_method_call(h: Seq<Frame>, s: nat, recv: Term, v: Val, name: Seq<char>, t: RuntimeType, n: Native, root: nat, d: nat)
    requires
        sem_eval(h, s, recv, d) == (h, Ok::<Val, Fault>(v)),
        !(v is WithEnv),
        type_of(h, s, v) == Ok::<RuntimeType, Fault>(t),
        lookup(h, type_env(t) as nat, name) == Some(native_next(n, root)),
        root < h.len(),
        d >= 1,
    ensures
        sem_eval(h, s, method_call(recv, name), d)
            == sem_native(call_frames(h, root, v), n, h.len() + 1, (d - 1) as nat),
{
    let get = Term::Get(Box::new(recv), Box::new(Term::Var(name)), false, false);
    assert(sem_get(h, s, false, v, Term::Var(name), false, d) == static_get(h, s, v, Term::Var(name), false));
    let h1 = push_scope(h, Some(root), Map::empty().insert("self"@, v));
    let bound = Val::WithEnv(Box::new(native_next(n, root)), h.len());
    assert(static_get(h, s, v, Term::Var(name), false) == (h1, Ok::<Val, Fault>(bound)));
    assert(sem_eval(h, s, get, d) == (h1, Ok::<Val, Fault>(bound)));
    let h2 = push_scope(h1, Some(h.len()), Map::empty());
    assert(h2 == call_frames(h, root, v));
    assert(sem_bind(h2, h.len() + 1, seq!["self"@], Seq::empty(), 0, d) == (h2, Option::<Fault>::None));
    assert(sem_call(h1, bound, Seq::empty(), Map::empty(), d) == sem_native(h2, n, h.len() + 1, (d - 1) as nat));
}

/// Over the bootstrap registry, any `i64` names its type `i64`, and any
/// `i64` or `i128` converts to its decimal text.
pub proof fn law_member_dispatch(h0: Seq<Frame>, n: i64, m: i128, d: nat)
    requires
        h0.len() + 8 <= usize::MAX,
        d >= 1,
    ensures
        sem_eval(bootstrap(h0), h0.len(), method_call(Term::Lit(Lit::I64(n)), "type"@), d).1 == Ok::<Val, Fault>(Val::String("i64"@)),
        sem_eval(bootstrap(h0), h0.len(), method_call(Term::Lit(Lit::I64(n)), "str"@), d).1 == Ok::<Val, Fault>(Val::String(decimal(n as int))),
        sem_eval(bootstrap(h0), h0.len(), method_call(Term::Lit(Lit::I128(m)), "str"@), d).1 == Ok::<Val, Fault>(Val::String(decimal(m as int))),
{
    reveal_strlit("i64");
    reveal_strlit("i128");
    reveal_strlit("self");
    let h = bootstrap(h0);
    let r = h0.len();
    lemma_registry(h0);
    let t64 = RuntimeType::Int64 { env: (r + 1) as usize };
    let t128 = RuntimeType::Int128 { env: (r + 2) as usize };
    assert(type_of(h, r, Val::Int64(n)) == Ok::<RuntimeType, Fault>(t64));
    assert(type_of(h, r, Val::Int128(m)) == Ok::<RuntimeType, Fault>(t128));

    assert("i64"@.len() != "self"@.len());
    assert("i128"@[0] != "self"@[0]);
    assert(sem_eval(h, r, Term::Lit(Lit::I64(n)), d) == (h, Ok::<Val, Fault>(Val::Int64(n))));
    assert(sem_eval(h, r, Term::Lit(Lit::I128(m)), d) == (h, Ok::<Val, Fault>(Val::Int128(m))));
    lemma_native_method_call(h, r, Term::Lit(Lit::I64(n)), Val::Int64(n), "type"@, t64, Native::TypeName, r, d);
    lemma_call_frames(h, r, Val::Int64(n), "i64"@);
    assert(type_of(call_frames(h, r, Val::Int64(n)), h.len() + 1, Val::Int64(n)) == Ok::<RuntimeType, Fault>(t64));

    lemma_native_method_call(h, r, Term::Lit(Lit::I64(n)), Val::Int64(n), "str"@, t64, Native::I64Str, r, d);
    lemma_call_frames(h, r, Val::Int64(n), "i64"@);

    lemma_native_method_call(h, r, Term::Lit(Lit::I128(m)), Val::Int128(m), "str"@, t128, Native::I128Str, r, d);
    lemma_call_frames(h, r, Val::Int128(m), "i128"@);
}

/// The trees of a sequence of literals.
pub open spec fn lit_terms(items: Seq<Lit>) -> Seq<Term> {
    items.map_values(|l: Lit| Term::Lit(l))
}

/// A list literal of literals evaluates to the list of their values and
/// leaves the store as it is.
pub proof fn lemma_literal_list(h: Seq<Frame>, s: nat, items: Seq<Lit>, i: nat, acc: Seq<Val>, d: nat)
    requires
        i <= items.len(),
    ensures
        sem_list(h, s, lit_terms(items), i, acc, d)
            == (h, Ok::<Val, Fault>(Val::List(acc + items.subrange(i as int, items.len() as int).map_values(|l: Lit| lit_val(l))))),
    decreases items.len() - i,
{
    let ts = lit_terms(items);
    if i < items.len() {
        assert(ts[i as int] == Term::Lit(items[i as int]));
        assert(sem_eval(h, s, ts[i as int], d) == (h, Ok::<Val, Fault>(lit_val(items[i as int]))));
        assert(sem_list(h, s, ts, i, acc, d) == sem_list(h, s, ts, i + 1, acc.push(lit_val(items[i as int])), d));
        lemma_literal_list(h, s, items, i + 1, acc.push(lit_val(items[i as int])), d);
        assert(acc.push(lit_val(items[i as int])) + items.subrange(i + 1int, items.len() as int).map_values(|l: Lit| lit_val(l))
            =~= acc + items.subrange(i as int, items.len() as int).map_values(|l: Lit| lit_val(l)));
    } else {
        assert(acc + items.subrange(i as int, items.len() as int).map_values(|l: Lit| lit_val(l)) =~= acc);
    }
}

/// The tree `[items] -> map(fn(params) { body })`.
pub open spec fn map_over_list(items: Seq<Lit>, params: Seq<Seq<char>>, body: Term) -> Term {
    Term::Op2(
        Op::LazyMap,
        Box::new(Term::List(lit_terms(items))),
        Box::new(Term::Lambda(params, Box::new(body))),
    )
}

/// Building a lazy map over a list applies nothing: in the root scope of
/// the registry it makes the list's iterator, keeps the mapping function as
/// a value beside it, and yields an object whose one member is `next`. No
/// list is produced, and the scopes it adds are exactly these five: the run
/// scope of `iter`, the iterator's members, the function's scope, the state
/// of the map, and the map's members.
pub proof fn law_lazy_map_defers(h0: Seq<Frame>, items: Seq<Lit>, params: Seq<Seq<char>>, body: Term, d: nat)
    requires
        h0.len() + 16 <= usize::MAX,
        d >= 2,
    ensures
        ({
            let h = bootstrap(h0);
            let r = h0.len();
            let l = h.len();
            let vals = items.map_values(|x: Lit| lit_val(x));
            sem_eval(h, r, map_over_list(items, params, body), d) == (
                h + seq![
                    Frame { parent: Some(r), vars: Map::empty().insert("self"@, Val::List(vals)) },
                    Frame { parent: Option::None, vars: Map::empty().insert("next"@, native_next(Native::IterNext, l)) },
                    Frame { parent: Some(r), vars: Map::empty() },
                    Frame {
                        parent: Option::None,
                        vars: map_state(
                            Val::WithEnv(Box::new(Val::List(vals)), l + 1),
                            Val::FuncDef(params, Body::Code(body), l + 2),
                        ),
                    },
                    Frame { parent: Some(r), vars: Map::empty().insert("next"@, native_next(Native::MapNext, l + 3)) },
                ],
                Ok::<Val, Fault>(Val::WithEnv(Box::new(Val::Unit), l + 4)),
            )
        }),
{
    reveal_strlit("list");
    reveal_strlit("self");
    reveal_strlit("iter");
    let h = bootstrap(h0);
    let r = h0.len();
    let l = h.len();
    let vals = items.map_values(|x: Lit| lit_val(x));
    lemma_registry(h0);
    lemma_literal_list(h, r, items, 0, Seq::empty(), d);
    assert(Seq::<Val>::empty() + items.subrange(0, items.len() as int).map_values(|x: Lit| lit_val(x)) =~= vals);
    let recv = Val::List(vals);
    assert(sem_eval(h, r, Term::List(lit_terms(items)), d) == (h, Ok::<Val, Fault>(recv)));
    let tl = RuntimeType::List { env: (r + 5) as usize };
    assert(type_of(h, r, recv) == Ok::<RuntimeType, Fault>(tl));
    let iter_fn = native_next(Native::ListIter, r);
    assert(lookup(h, type_env(tl) as nat, "iter"@) == Some(iter_fn));

    let h1 = push_scope(h, Some(r), Map::empty().insert("self"@, recv));
    assert(h1[l as int].vars.contains_key("self"@));
    assert(lookup(h1, l, "self"@) == Some(recv));
    assert(sem_bind(h1, l, seq!["self"@], Seq::empty(), 0, (d - 1) as nat) == (h1, Option::<Fault>::None));
    let h2 = push_scope(h1, Option::None, Map::empty().insert("next"@, native_next(Native::IterNext, l)));
    let it = Val::WithEnv(Box::new(recv), l + 1);
    assert(sem_native(h1, Native::ListIter, l, (d - 2) as nat) == (h2, Ok::<Val, Fault>(it)));
    assert(sem_call(h, iter_fn, Seq::empty(), Map::empty().insert("self"@, recv), (d - 1) as nat) == (h2, Ok::<Val, Fault>(it)));
    let f = Val::FuncDef(params, Body::Code(body), l + 2);
    let h3 = push_scope(h2, Some(r), Map::empty());
    assert(sem_eval(h2, r, Term::Lambda(params, Box::new(body)), d) == (h3, Ok::<Val, Fault>(f)));
    let h4 = push_scope(h3, Option::None, map_state(it, f));
    let h5 = push_scope(h4, Some(r), Map::empty().insert("next"@, native_next(Native::MapNext, l + 3)));
    assert(sem_eval(h, r, map_over_list(items, params, body), d) == (h5, Ok::<Val, Fault>(Val::WithEnv(Box::new(Val::Unit), l + 4))));
    assert(h5 =~= h + seq![
        Frame { parent: Some(r), vars: Map::empty().insert("self"@, Val::List(vals)) },
        Frame { parent: Option::None, vars: Map::empty().insert("next"@, native_next(Native::IterNext, l)) },
        Frame { parent: Some(r), vars: Map::empty() },
        Frame { parent: Option::None, vars: map_state(it, f) },
        Frame { parent: Some(r), vars: Map::empty().insert("next"@, native_next(Native::MapNext, l + 3)) },
    ]);
}

/// The program `x = l; f = fn() { x }; f()`.
pub open spec fn closure_program(x: Seq<char>, f: Seq<char>, l: Lit) -> Seq<Term> {
    seq![
        Term::Op2(Op::Assign, Box::new(Term::Var(x)), Box::new(Term::Lit(l))),
        Term::Op2(Op::Assign, Box::new(Term::Var(f)), Box::new(Term::Lambda(Seq::empty(), Box::new(Term::Var(x))))),
        Term::Call(Box::new(Term::Var(f)), Seq::empty()),
    ]
}

/// A closure reads the variables of the scope it was defined in: after
/// `x = l; f = fn() { x }`, the call `f()` yields the value of `l`.
pub proof fn law_closure_reads_defining_scope(h: Seq<Frame>, s: nat, x: Seq<char>, f: Seq<char>, l: Lit, d: nat)
    requires
        s < h.len(),
        x != f,
        d >= 1,
    ensures
        sem_block(h, s, closure_program(x, f, l), 0, Val::Unit, d).1 == Ok::<Val, Fault>(lit_val(l)),
{
    let ts = closure_program(x, f, l);
    let v = lit_val(l);
    let h1 = assign(h, s, x, v);
    assert(sem_eval(h, s, Term::Lit(l), d) == (h, Ok::<Val, Fault>(v)));
    assert(sem_assign(h, s, Term::Var(x), v, d) == (h1, Ok::<Val, Fault>(Val::Unit)));
    assert(sem_eval(h, s, ts[0], d) == (h1, Ok::<Val, Fault>(Val::Unit)));
    let c = h1.len();
    let h2 = push_scope(h1, Some(s), Map::empty());
    let fv = Val::FuncDef(Seq::empty(), Body::Code(Term::Var(x)), c);
    let h3 = assign(h2, s, f, fv);
    assert(sem_eval(h1, s, Term::Lambda(Seq::empty(), Box::new(Term::Var(x))), d) == (h2, Ok::<Val, Fault>(fv)));
    assert(sem_assign(h2, s, Term::Var(f), fv, d) == (h3, Ok::<Val, Fault>(Val::Unit)));
    assert(sem_eval(h1, s, ts[1], d) == (h3, Ok::<Val, Fault>(Val::Unit)));
    assert(h3[s as int].vars.contains_key(f));
    assert(lookup(h3, s, f) == Some(fv));
    assert(sem_eval(h3, s, Term::Var(f), d) == (h3, Ok::<Val, Fault>(fv)));
    let run = h3.len();
    let h4 = push_scope(h3, Some(c), Map::empty());
    assert(sem_bind(h4, run, Seq::empty(), Seq::empty(), 0, d) == (h4, Option::<Fault>::None));
    assert(sem_call(h3, fv, Seq::empty(), Map::empty(), d) == sem_eval(h4, run, Term::Var(x), (d - 1) as nat));
    lemma_closure_lookup(h, s, x, f, v, fv);
    assert(sem_eval(h4, run, Term::Var(x), (d - 1) as nat) == (h4, Ok::<Val, Fault>(v)));
    assert(sem_eval(h3, s, ts[2], d) == (h4, Ok::<Val, Fault>(v)));
    assert(sem_block(h, s, ts, 0, Val::Unit, d) == sem_block(h1, s, ts, 1, Val::Unit, d));
    assert(sem_block(h1, s, ts, 1, Val::Unit, d) == sem_block(h3, s, ts, 2, Val::Unit, d));
    assert(sem_block(h3, s, ts, 2, Val::Unit, d) == sem_block(h4, s, ts, 3, v, d));
}

/// The lookup of `x` from the run scope of the closure in
/// `closure_program`.
proof fn lemma_closure_lookup(h: Seq<Frame>, s: nat, x: Seq<char>, f: Seq<char>, v: Val, fv: Val)
    requires
        s < h.len(),
        x != f,
    ensures
        ({
            let h1 = assign(h, s, x, v);
            let h3 = assign(push_scope(h1, Some(s), Map::empty()), s, f, fv);
            let h4 = push_scope(h3, Some(h1.len()), Map::empty());
            lookup(h4, h3.len(), x) == Some(v)
        }),
{
    let h1 = assign(h, s, x, v);
    let h3 = assign(push_scope(h1, Some(s), Map::empty()), s, f, fv);
    let h4 = push_scope(h3, Some(h1.len()), Map::empty());
    reveal_with_fuel(lookup, 3);
    assert(h4[s as int].vars.contains_key(x));
    assert(h4[s as int].vars[x] == v);
    assert(!h4[h1.len() as int].vars.contains_key(x));
    assert(!h4[h3.len() as int].vars.contains_key(x));
}

/// Over the bootstrap registry, `len()` of a list literal of literals is
/// its element count as an `i128`.
pub proof fn law_list_len(h0: Seq<Frame>, items: Seq<Lit>, d: nat)
    requires
        h0.len() + 8 <= usize::MAX,
        d >= 1,
    ensures
        sem_eval(bootstrap(h0), h0.len(), method_call(Term::List(lit_terms(items)), "len"@), d).1
            == Ok::<Val, Fault>(Val::Int128(items.len() as i128)),
{
    reveal_strlit("list");
    reveal_strlit("self");
    reveal_strlit("len");
    reveal_strlit("type");
    reveal_strlit("iter");
    let h = bootstrap(h0);
    let r = h0.len();
    lemma_registry(h0);
    let vals = items.map_values(|x: Lit| lit_val(x));
    lemma_literal_list(h, r, items, 0, Seq::empty(), d);
    assert(Seq::<Val>::empty() + items.subrange(0, items.len() as int).map_values(|x: Lit| lit_val(x)) =~= vals);
    let v = Val::List(vals);
    assert(sem_eval(h, r, Term::List(lit_terms(items)), d) == (h, Ok::<Val, Fault>(v)));
    let tl = RuntimeType::List { env: (r + 5) as usize };
    assert(type_of(h, r, v) == Ok::<RuntimeType, Fault>(tl));
    assert(h[r + 5int].vars.contains_key("len"@));
    assert("len"@[0] != "iter"@[0]);
    assert(lookup(h, r + 5, "len"@) == Some(native_next(Native::ListLen, r)));
    lemma_native_method_call(h, r, Term::List(lit_terms(items)), v, "len"@, tl, Native::ListLen, r, d);
    lemma_call_frames(h, r, v, "len"@);
}

/// Indexing a list value with an integer key gives the element at that
/// position when the key lies in `[0, len)`, and an index error otherwise;
/// the store is left as it is.
pub proof fn law_list_index(h: Seq<Frame>, s: nat, items: Seq<Val>, k: i64, d: nat)
    ensures
        0 <= k < items.len() ==> sem_get(h, s, true, Val::List(items), Term::Lit(Lit::I64(k)), false, d)
            == (h, Ok::<Val, Fault>(items[k as int])),
        !(0 <= k < items.len()) ==> sem_get(h, s, true, Val::List(items), Term::Lit(Lit::I64(k)), false, d)
            == (h, Err::<Val, Fault>(fail(ErrorKind::IndexOutOfRange))),
{
}

/// How `recv.name()` runs when `recv` evaluates, without touching the
/// store, to a bound value whose scope holds the native method `name`.
pub proof fn lemma_bound_method_call(h: Seq<Frame>, s: nat, recv: Term, inner: Val, e: nat, name: Seq<char>, n: Native, fenv: nat, d: nat)
    requires
        sem_eval(h, s, recv, d) == (h, Ok::<Val, Fault>(Val::WithEnv(Box::new(inner), e))),
        lookup(h, e, name) == Some(native_next(n, fenv)),
        fenv < h.len(),
        d >= 1,
    ensures
        sem_eval(h, s, method_call(recv, name), d)
            == sem_native(call_frames(h, fenv, Val::WithEnv(Box::new(inner), e)), n, h.len() + 1, (d - 1) as nat),
{
    let v = Val::WithEnv(Box::new(inner), e);
    let get = Term::Get(Box::new(recv), Box::new(Term::Var(name)), false, false);
    assert(sem_get(h, s, false, v, Term::Var(name), false, d) == static_get(h, s, v, Term::Var(name), false));
    let h1 = push_scope(h, Some(fenv), Map::empty().insert("self"@, v));
    let bound = Val::WithEnv(Box::new(native_next(n, fenv)), h.len());
    assert(static_get(h, s, v, Term::Var(name), false) == (h1, Ok::<Val, Fault>(bound)));
    assert(sem_eval(h, s, get, d) == (h1, Ok::<Val, Fault>(bound)));
    let h2 = push_scope(h1, Some(h.len()), Map::empty());
    assert(h2 == call_frames(h, fenv, v));
    assert(sem_bind(h2, h.len() + 1, seq!["self"@], Seq::empty(), 0, d) == (h2, Option::<Fault>::None));
    assert(sem_call(h1, bound, Seq::empty(), Map::empty(), d) == sem_native(h2, n, h.len() + 1, (d - 1) as nat));
}

/// The store in which the mapping function of a lazy map is applied during
/// one call of `next`: the scopes of the bound `next` of the map, those of
/// the bound `next` of its list iterator, and the iterator's position
/// advanced to `j + 1`.
pub open spec fn map_step_store(h: Seq<Frame>, m: Val, fenv: nat, it: Val, q: nat, ienv: nat, j: i64) -> Seq<Frame> {
    assign(call_frames(call_frames(h, fenv, m), q, it), ienv, "current"@, Val::Int64((j + 1) as i64))
}

/// One call of `next()` on a lazy map over the list `vs`, whose iterator
/// stands at position `j`, applies the mapping function `g` exactly once:
/// to `vs[j]`, bound to its first parameter, after the iterator has moved
/// to `j + 1`; the call's result is that application's result.
pub proof fn law_lazy_map_step(
    h: Seq<Frame>,
    s: nat,
    mname: Seq<char>,
    m_inner: Val,
    n: nat,
    fenv: nat,
    vs: Seq<Val>,
    ienv: nat,
    q: nat,
    g: Val,
    j: i64,
    d: nat,
)
    requires
        lookup(h, s, mname) == Some(Val::WithEnv(Box::new(m_inner), n)),
        lookup(h, n, "next"@) == Some(native_next(Native::MapNext, fenv)),
        lookup(h, fenv, "iter"@) == Some(Val::WithEnv(Box::new(Val::List(vs)), ienv)),
        lookup(h, fenv, "func"@) == Some(g),
        lookup(h, ienv, "next"@) == Some(native_next(Native::IterNext, q)),
        lookup(h, ienv, "current"@) == Some(Val::Int64(j)) || (lookup(h, ienv, "current"@) is None && j == 0),
        fenv < h.len(),
        ienv < h.len(),
        q < h.len(),
        0 <= j < vs.len(),
        j < i64::MAX,
        d >= 3,
    ensures
        sem_eval(h, s, method_call(Term::Var(mname), "next"@), d) == sem_call(
            map_step_store(h, Val::WithEnv(Box::new(m_inner), n), fenv, Val::WithEnv(Box::new(Val::List(vs)), ienv), q, ienv, j),
            g,
            Seq::empty(),
            first_param_binding(g, vs[j as int]),
            (d - 2) as nat,
        ),
{
    reveal_strlit("self");
    reveal_strlit("iter");
    reveal_strlit("func");
    reveal_strlit("current");
    reveal_strlit("next");
    assert("iter"@[0] != "self"@[0]);
    assert("func"@[0] != "self"@[0]);
    let m = Val::WithEnv(Box::new(m_inner), n);
    let it = Val::WithEnv(Box::new(Val::List(vs)), ienv);
    assert(sem_eval(h, s, Term::Var(mname), d) == (h, Ok::<Val, Fault>(m)));
    lemma_bound_method_call(h, s, Term::Var(mname), m_inner, n, "next"@, Native::MapNext, fenv, d);
    let h2 = call_frames(h, fenv, m);
    let run1 = h.len() + 1;
    lemma_call_frames(h, fenv, m, "iter"@);
    lemma_call_frames(h, fenv, m, "func"@);
    assert(lookup(h2, run1, "iter"@) == Some(it));
    assert(lookup(h2, run1, "func"@) == Some(g));
    assert(h2.subrange(0, h.len() as int) =~= h);
    lemma_lookup_prefix(h, h2, ienv, "next"@);
    lemma_lookup_prefix(h, h2, ienv, "current"@);
    let h3 = push_scope(h2, Some(q), Map::empty().insert("self"@, it));
    let nf = Val::WithEnv(Box::new(native_next(Native::IterNext, q)), h2.len());
    assert(static_get(h2, run1, it, Term::Var("next"@), false) == (h3, Ok::<Val, Fault>(nf)));
    let h4 = call_frames(h2, q, it);
    assert(sem_bind(h4, h2.len() + 1, seq!["self"@], Seq::empty(), 0, (d - 2) as nat) == (h4, Option::<Fault>::None));
    assert(sem_call(h3, nf, Seq::empty(), Map::empty(), (d - 2) as nat) == sem_native(h4, Native::IterNext, h2.len() + 1, (d - 3) as nat));
    lemma_call_frames(h2, q, it, "self"@);
    assert(q < h2.len());
    assert(h4.subrange(0, h2.len() as int) =~= h2);
    lemma_lookup_prefix(h2, h4, ienv, "current"@);
    let h5 = map_step_store(h, m, fenv, it, q, ienv, j);
    assert(sem_native(h4, Native::IterNext, h2.len() + 1, (d - 3) as nat) == (h5, Ok::<Val, Fault>(vs[j as int])));
    assert(sem_native(h2, Native::MapNext, run1, (d - 1) as nat)
        == sem_call(h5, g, Seq::empty(), first_param_binding(g, vs[j as int]), (d - 2) as nat));
}

} // verus!
