//! The bootstrap registry: the root scope with the primitive types, their
//! member scopes, and the object constructor.
use vstd::prelude::*;
use vstd::string::StringExecFns;
use crate::env::{Env, Frame, no_bindings, push_binding};
use crate::runtimes::{Body, BuiltinOrExpr, Native, RuntimeType, RuntimeValue, Val};
use crate::semantics::{decimal, digit_char, digits, native_next};

verus! {

/// The store after bootstrapping on `h`: the root scope first, then the
/// member scopes of `i64`, `i128`, `str`, `reg` and `list`.
pub open spec fn bootstrap(h: Seq<Frame>) -> Seq<Frame> {
    let r = h.len();
    h + seq![
        Frame {
            parent: Option::None,
            vars: Map::empty()
                .insert("i64"@, Val::RuntimeType(RuntimeType::Int64 { env: (r + 1) as usize }))
                .insert("i128"@, Val::RuntimeType(RuntimeType::Int128 { env: (r + 2) as usize }))
                .insert("str"@, Val::RuntimeType(RuntimeType::String { env: (r + 3) as usize }))
                .insert("reg"@, Val::RuntimeType(RuntimeType::Regex { env: (r + 4) as usize }))
                .insert("list"@, Val::RuntimeType(RuntimeType::List { env: (r + 5) as usize }))
                .insert("obj"@, Val::FuncDef(seq!["value"@], Body::Native(Native::Obj), r)),
        },
        Frame {
            parent: Option::None,
            vars: Map::empty().insert("str"@, native_next(Native::I64Str, r)).insert("type"@, native_next(Native::TypeName, r)),
        },
        Frame {
            parent: Option::None,
            vars: Map::empty().insert("str"@, native_next(Native::I128Str, r)).insert("type"@, native_next(Native::TypeName, r)),
        },
        Frame { parent: Option::None, vars: Map::empty().insert("type"@, native_next(Native::TypeName, r)) },
        Frame { parent: Option::None, vars: Map::empty().insert("type"@, native_next(Native::TypeName, r)) },
        Frame {
            parent: Option::None,
            vars: Map::empty()
                .insert("type"@, native_next(Native::TypeName, r))
                .insert("len"@, native_next(Native::ListLen, r))
                .insert("iter"@, native_next(Native::ListIter, r)),
        },
    ]
}

/// The one-character text of a decimal digit.
fn digit_str(d: u128) -> (r: &'static str)
    requires
        d < 10,
    ensures
        r@ == seq![digit_char(d as nat)],
{
    proof {
        reveal_strlit("0");
        reveal_strlit("1");
        reveal_strlit("2");
        reveal_strlit("3");
        reveal_strlit("4");
        reveal_strlit("5");
        reveal_strlit("6");
        reveal_strlit("7");
        reveal_strlit("8");
        reveal_strlit("9");
    }
    if d == 0 { "0" }
    else if d == 1 { "1" }
    else if d == 2 { "2" }
    else if d == 3 { "3" }
    else if d == 4 { "4" }
    else if d == 5 { "5" }
    else if d == 6 { "6" }
    else if d == 7 { "7" }
    else if d == 8 { "8" }
    else { "9" }
}

/// The decimal digits of `n`.
fn digits_string(n: u128) -> (r: String)
    ensures
        r@ == digits(n as nat),
    decreases n,
{
    if n < 10 {
        String::from_str(digit_str(n))
    } else {
        let mut s = digits_string(n / 10);
        s.append(digit_str(n % 10));
        s
    }
}

/// The decimal text of `i`.
pub fn decimal_string(i: i128) -> (r: String)
    ensures
        r@ == decimal(i as int),
{
    if i < 0 {
        let m: u128 = ((-(i + 1)) as u128) + 1;
        assert(m as nat == (-(i as int)) as nat);
        let mut s = String::from_str("-");
        proof {
            reveal_strlit("-");
        }
        let d = digits_string(m);
        s.append(d.as_str());
        s
    } else {
        digits_string(i as u128)
    }
}

/// The native method `n` over captured scope `root`.
pub(crate) fn method(n: Native, root: usize) -> (r: RuntimeValue)
    ensures
        r@ == native_next(n, root as nat),
{
    let parameters = vec![Box::new(String::from_str("self"))];
    let r = RuntimeValue::FuncDef { parameters, body: BuiltinOrExpr::Builtin(n), env: root };
    assert(crate::ast::names_view(parameters@) =~= seq!["self"@]);
    r
}

/// Builds the registry in `env` and returns the root scope: `i64`, `i128`,
/// `str`, `reg` and `list` name type descriptors whose member scopes hold
/// `type(self)`; `i64` and `i128` add `str(self)`, `list` adds `len(self)`
/// and `iter(self)`; `obj(value)` builds an object.
pub fn init_builtin(env: &mut Env) -> (root: usize)
    ensures
        root == old(env)@.len(),
        final(env)@ == bootstrap(old(env)@),
{
    let ghost h = env@;
    let root = env.new(Option::None);

    let mut v = no_bindings();
    push_binding(&mut v, String::from_str("str"), method(Native::I64Str, root));
    push_binding(&mut v, String::from_str("type"), method(Native::TypeName, root));
    let t_i64 = env.from(v, Option::None);

    let mut v = no_bindings();
    push_binding(&mut v, String::from_str("str"), method(Native::I128Str, root));
    push_binding(&mut v, String::from_str("type"), method(Native::TypeName, root));
    let t_i128 = env.from(v, Option::None);

    let mut v = no_bindings();
    push_binding(&mut v, String::from_str("type"), method(Native::TypeName, root));
    let t_str = env.from(v, Option::None);

    let mut v = no_bindings();
    push_binding(&mut v, String::from_str("type"), method(Native::TypeName, root));
    let t_reg = env.from(v, Option::None);

    let mut v = no_bindings();
    push_binding(&mut v, String::from_str("type"), method(Native::TypeName, root));
    push_binding(&mut v, String::from_str("len"), method(Native::ListLen, root));
    push_binding(&mut v, String::from_str("iter"), method(Native::ListIter, root));
    let t_list = env.from(v, Option::None);

    env.set(root, String::from_str("i64"), RuntimeValue::RuntimeType(RuntimeType::Int64 { env: t_i64 }));
    env.set(root, String::from_str("i128"), RuntimeValue::RuntimeType(RuntimeType::Int128 { env: t_i128 }));
    env.set(root, String::from_str("str"), RuntimeValue::RuntimeType(RuntimeType::String { env: t_str }));
    env.set(root, String::from_str("reg"), RuntimeValue::RuntimeType(RuntimeType::Regex { env: t_reg }));
    env.set(root, String::from_str("list"), RuntimeValue::RuntimeType(RuntimeType::List { env: t_list }));
    let obj_params = vec![Box::new(String::from_str("value"))];
    assert(crate::ast::names_view(obj_params@) =~= seq!["value"@]);
    env.set(root, String::from_str("obj"), RuntimeValue::FuncDef {
        parameters: obj_params,
        body: BuiltinOrExpr::Builtin(Native::Obj),
        env: root,
    });
    assert(env@ =~= bootstrap(h));
    root
}

} // verus!
