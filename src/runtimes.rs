use vstd::prelude::*;
use vstd::string::StringExecFns;
use crate::ast::{Expr, Term, names_view, clone_names};
use crate::env::{Env, lookup};

verus! {

/// The operations that the runtime implements natively.
#[derive(Debug, Clone, Copy, PartialEq, Eq, Structural)]
pub enum Native {
    /// `type(self)`: the name of the receiver's type.
    TypeName,
    /// `str(self)` of `i64`: decimal text.
    I64Str,
    /// `str(self)` of `i128`: decimal text.
    I128Str,
    /// `len(self)` of `list`: the element count as an `i128`.
    ListLen,
    /// `iter(self)` of `list`: an iterator object over the list.
    ListIter,
    /// `next(self)` of a list iterator: the element at `current`, advancing it.
    IterNext,
    /// `obj(value)`: a fresh object holding `value`.
    Obj,
    /// `next(self)` of a lazy map: the mapping function applied to the next
    /// element of the underlying iterator.
    MapNext,
}

/// The body of a function value.
#[derive(Debug, PartialEq, Eq)]
pub enum BuiltinOrExpr {
    Builtin(Native),
    Expr(Box<Expr>),
}

/// A type descriptor: one tag per primitive kind, each carrying the scope
/// that holds the kind's members.
#[derive(Debug, Clone, Copy, PartialEq, Eq, Structural)]
pub enum RuntimeType {
    Int64 { env: usize },
    Int128 { env: usize },
    String { env: usize },
    Regex { env: usize },
    List { env: usize },
    FuncDef { env: usize },
    Unit { env: usize },
}

/// A runtime value. Scopes are named by their index in the scope store.
#[derive(Debug, PartialEq, Eq)]
pub enum RuntimeValue {
    Int64(i64),
    Int128(i128),
    String(Box<String>),
    Regex(Box<String>),
    List(Vec<Box<RuntimeValue>>),
    Unit,
    FuncDef { parameters: Vec<Box<String>>, body: BuiltinOrExpr, env: usize },
    RuntimeType(RuntimeType),
    WithEnv { value: Box<RuntimeValue>, env: usize },
}

/// The mathematical form of a function body.
pub enum Body {
    Native(Native),
    Code(Term),
}

/// The mathematical form of a runtime value.
pub enum Val {
    Int64(i64),
    Int128(i128),
    String(Seq<char>),
    Regex(Seq<char>),
    List(Seq<Val>),
    Unit,
    FuncDef(Seq<Seq<char>>, Body, nat),
    RuntimeType(RuntimeType),
    WithEnv(Box<Val>, nat),
}

/// The kinds of error that end an evaluation.
#[derive(Debug, Clone, Copy, PartialEq, Eq, Structural)]
pub enum ErrorKind {
    /// A name is bound nowhere along the scope chain.
    UndefinedVariable,
    /// A member lookup missed on a strict access.
    UnknownMember,
    /// An operation met operands of kinds it does not combine.
    TypeMismatch,
    /// A call's target is not a function.
    NotCallable,
    /// A list index, or an iterator position, lies outside the list.
    IndexOutOfRange,
    /// An integer division by zero.
    DivisionByZero,
    /// An integer result does not fit its width.
    Overflow,
    /// An operator or node that the evaluator does not implement.
    UnsupportedOperation,
    /// A call passed more positional arguments than the function has parameters.
    TooManyArguments,
    /// A primitive type name is missing from the scope, or bound to a non-type.
    RegistryConsistency,
    /// The nesting of calls went deeper than the evaluation allows.
    DepthExceeded,
}

/// An error that ended an evaluation: its kind; the source span of the
/// innermost positioned expression whose evaluation it ended, if any; the
/// values it is about (the operands of a mismatch, the receiver of a missed
/// member, the value called); and the name it is about (the variable or
/// member not found), if any.
#[derive(Debug, PartialEq, Eq)]
pub struct EvalError {
    pub kind: ErrorKind,
    pub span: Option<(usize, usize)>,
    pub values: Vec<Box<RuntimeValue>>,
    pub name: Option<String>,
}

/// The mathematical form of an error.
pub struct Fault {
    pub kind: ErrorKind,
    pub span: Option<(usize, usize)>,
    pub values: Seq<Val>,
    pub name: Option<Seq<char>>,
}

/// An error of kind `kind` with no span and no context.
pub open spec fn fail(kind: ErrorKind) -> Fault {
    Fault { kind, span: Option::None, values: Seq::empty(), name: Option::None }
}

/// An error of kind `kind` about `values` and `name`, with no span yet.
pub open spec fn fail_with(kind: ErrorKind, values: Seq<Val>, name: Option<Seq<char>>) -> Fault {
    Fault { kind, span: Option::None, values, name }
}

/// An optional name in its mathematical form.
pub open spec fn name_view(n: Option<String>) -> Option<Seq<char>> {
    match n {
        Some(s) => Some(s@),
        Option::None => Option::None,
    }
}

impl View for EvalError {
    type V = Fault;

    open spec fn view(&self) -> Fault {
        Fault { kind: self.kind, span: self.span, values: values_view(self.values@), name: name_view(self.name) }
    }
}

/// An evaluation result with the span `[start, end)` given to an error that
/// has none yet.
pub open spec fn located(r: Result<Val, Fault>, start: usize, end: usize) -> Result<Val, Fault> {
    match r {
        Err(e) => if e.span is None {
            Err(Fault { span: Some((start, end)), ..e })
        } else {
            r
        },
        Ok(_) => r,
    }
}

/// The mathematical form of an optional error.
pub open spec fn fault_view(e: Option<EvalError>) -> Option<Fault> {
    match e {
        Some(x) => Some(x@),
        Option::None => Option::None,
    }
}

/// The mathematical form of a type lookup.
pub open spec fn type_res_view(r: Result<RuntimeType, EvalError>) -> Result<RuntimeType, Fault> {
    match r {
        Ok(t) => Ok(t),
        Err(e) => Err(e@),
    }
}

impl EvalError {
    /// An error of kind `kind` with no span and no context.
    pub fn new(kind: ErrorKind) -> (r: EvalError)
        ensures
            r@ == fail(kind),
    {
        let r = EvalError { kind, span: Option::None, values: Vec::new(), name: Option::None };
        assert(values_view(r.values@) =~= Seq::<Val>::empty());
        r
    }

    /// An error of kind `kind` about `values` and `name`.
    pub fn with(kind: ErrorKind, values: Vec<Box<RuntimeValue>>, name: Option<String>) -> (r: EvalError)
        ensures
            r@ == fail_with(kind, values_view(values@), name_view(name)),
    {
        EvalError { kind, span: Option::None, values, name }
    }

    /// This error with the span `[start, end)` when it has none yet.
    pub fn at(self, start: usize, end: usize) -> (r: EvalError)
        ensures
            located(Err(self@), start, end) == Err::<Val, Fault>(r@),
    {
        match self.span {
            Option::None => EvalError { kind: self.kind, span: Some((start, end)), values: self.values, name: self.name },
            Some(_) => self,
        }
    }
}

impl View for BuiltinOrExpr {
    type V = Body;

    open spec fn view(&self) -> Body {
        match self {
            BuiltinOrExpr::Builtin(n) => Body::Native(*n),
            BuiltinOrExpr::Expr(e) => Body::Code(e@),
        }
    }
}

impl RuntimeValue {
    /// The mathematical form of a value.
    pub open spec fn view_of(v: RuntimeValue) -> Val
        decreases v, 1nat,
    {
        match v {
            RuntimeValue::Int64(i) => Val::Int64(i),
            RuntimeValue::Int128(i) => Val::Int128(i),
            RuntimeValue::String(s) => Val::String(s@),
            RuntimeValue::Regex(s) => Val::Regex(s@),
            RuntimeValue::List(items) => Val::List(values_view(items@)),
            RuntimeValue::Unit => Val::Unit,
            RuntimeValue::FuncDef { parameters, body, env } => Val::FuncDef(names_view(parameters@), body@, env as nat),
            RuntimeValue::RuntimeType(t) => Val::RuntimeType(t),
            RuntimeValue::WithEnv { value, env } => Val::WithEnv(Box::new(RuntimeValue::view_of(*value)), env as nat),
        }
    }
}

/// The values of a sequence of boxed runtime values.
pub open spec fn values_view(v: Seq<Box<RuntimeValue>>) -> Seq<Val>
    decreases v, 0nat,
{
    if v.len() == 0 {
        Seq::empty()
    } else {
        values_view(v.subrange(0, v.len() - 1)).push(RuntimeValue::view_of(*v[v.len() - 1]))
    }
}

impl View for RuntimeValue {
    type V = Val;

    open spec fn view(&self) -> Val {
        RuntimeValue::view_of(*self)
    }
}

/// The values of a sequence of boxed values, element by element.
pub proof fn lemma_values_view(v: Seq<Box<RuntimeValue>>)
    ensures
        values_view(v).len() == v.len(),
        forall|i: int| 0 <= i < v.len() ==> #[trigger] values_view(v)[i] == RuntimeValue::view_of(*v[i]),
    decreases v.len(),
{
    if v.len() > 0 {
        lemma_values_view(v.subrange(0, v.len() - 1));
    }
}

/// The name under which the scope registers the type of a value of this kind.
pub open spec fn type_tag_name(t: RuntimeType) -> Seq<char> {
    match t {
        RuntimeType::Int64 { .. } => "i64"@,
        RuntimeType::Int128 { .. } => "i128"@,
        RuntimeType::String { .. } => "str"@,
        RuntimeType::Regex { .. } => "reg"@,
        RuntimeType::List { .. } => "list"@,
        RuntimeType::FuncDef { .. } => "fun"@,
        RuntimeType::Unit { .. } => "none"@,
    }
}

/// The type name of a value; a value bound to a scope has the name of the
/// value it wraps.
pub open spec fn value_type_name(v: Val) -> Seq<char>
    decreases v,
{
    match v {
        Val::Int64(_) => "i64"@,
        Val::Int128(_) => "i128"@,
        Val::String(_) => "str"@,
        Val::Regex(_) => "reg"@,
        Val::List(_) => "list"@,
        Val::FuncDef(..) => "fun"@,
        Val::Unit => "none"@,
        Val::RuntimeType(t) => type_tag_name(t),
        Val::WithEnv(inner, _) => value_type_name(*inner),
    }
}

/// The member scope of a type descriptor.
pub open spec fn type_env(t: RuntimeType) -> usize {
    match t {
        RuntimeType::Int64 { env } => env,
        RuntimeType::Int128 { env } => env,
        RuntimeType::String { env } => env,
        RuntimeType::Regex { env } => env,
        RuntimeType::List { env } => env,
        RuntimeType::FuncDef { env } => env,
        RuntimeType::Unit { env } => env,
    }
}

impl RuntimeType {
    /// The scope that holds this type's members.
    pub fn get_env(&self) -> (r: usize)
        ensures
            r == type_env(*self),
    {
        match self {
            RuntimeType::Int64 { env } => *env,
            RuntimeType::Int128 { env } => *env,
            RuntimeType::String { env } => *env,
            RuntimeType::Regex { env } => *env,
            RuntimeType::List { env } => *env,
            RuntimeType::FuncDef { env } => *env,
            RuntimeType::Unit { env } => *env,
        }
    }

    /// The type's name.
    pub fn name(&self) -> (r: String)
        ensures
            r@ == type_tag_name(*self),
    {
        match self {
            RuntimeType::Int64 { .. } => String::from_str("i64"),
            RuntimeType::Int128 { .. } => String::from_str("i128"),
            RuntimeType::String { .. } => String::from_str("str"),
            RuntimeType::Regex { .. } => String::from_str("reg"),
            RuntimeType::List { .. } => String::from_str("list"),
            RuntimeType::FuncDef { .. } => String::from_str("fun"),
            RuntimeType::Unit { .. } => String::from_str("none"),
        }
    }
}

/// The type name of a value.
pub fn get_value_type_name(t: &RuntimeValue) -> (r: String)
    ensures
        r@ == value_type_name(t@),
    decreases t,
{
    match t {
        RuntimeValue::Int64(_) => String::from_str("i64"),
        RuntimeValue::Int128(_) => String::from_str("i128"),
        RuntimeValue::String(_) => String::from_str("str"),
        RuntimeValue::Regex(_) => String::from_str("reg"),
        RuntimeValue::List(_) => String::from_str("list"),
        RuntimeValue::FuncDef { .. } => String::from_str("fun"),
        RuntimeValue::Unit => String::from_str("none"),
        RuntimeValue::RuntimeType(rt) => rt.name(),
        RuntimeValue::WithEnv { value, .. } => get_value_type_name(value),
    }
}

impl BuiltinOrExpr {
    /// A copy of the body.
    pub fn clone_body(&self) -> (r: BuiltinOrExpr)
        ensures
            r@ == self@,
    {
        match self {
            BuiltinOrExpr::Builtin(n) => BuiltinOrExpr::Builtin(*n),
            BuiltinOrExpr::Expr(e) => BuiltinOrExpr::Expr(Box::new(e.clone_expr())),
        }
    }
}

/// Sequences of boxed values with the same values, element by element,
/// have the same values.
proof fn lemma_values_view_ext(a: Seq<Box<RuntimeValue>>, b: Seq<Box<RuntimeValue>>)
    requires
        a.len() == b.len(),
        forall|i: int| 0 <= i < a.len() ==> RuntimeValue::view_of(*a[i]) == RuntimeValue::view_of(*b[i]),
    ensures
        values_view(a) == values_view(b),
{
    lemma_values_view(a);
    lemma_values_view(b);
    assert(values_view(a) =~= values_view(b));
}

/// A copy of a list of values.
pub fn clone_values(v: &Vec<Box<RuntimeValue>>) -> (r: Vec<Box<RuntimeValue>>)
    ensures
        values_view(r@) == values_view(v@),
    decreases v,
{
    let mut r: Vec<Box<RuntimeValue>> = Vec::new();
    let mut i: usize = 0;
    while i < v.len()
        invariant
            i <= v.len(),
            r.len() == i,
            forall|j: int| 0 <= j < i ==> RuntimeValue::view_of(*r@[j]) == RuntimeValue::view_of(*v@[j]),
        decreases v.len() - i,
    {
        proof {
            broadcast use vstd::std_specs::vec::axiom_vec_index_decreases;
        }
        assert(decreases_to!(v => v[i as int]));
        let e = v[i].clone_value();
        r.push(Box::new(e));
        i = i + 1;
    }
    proof {
        lemma_values_view_ext(r@, v@);
    }
    r
}

impl RuntimeValue {
    /// A copy of the value; scopes are shared, not copied.
    pub fn clone_value(&self) -> (r: RuntimeValue)
        ensures
            r@ == self@,
        decreases self,
    {
        match self {
            RuntimeValue::Int64(i) => RuntimeValue::Int64(*i),
            RuntimeValue::Int128(i) => RuntimeValue::Int128(*i),
            RuntimeValue::String(s) => RuntimeValue::String(Box::new((**s).clone())),
            RuntimeValue::Regex(s) => RuntimeValue::Regex(Box::new((**s).clone())),
            RuntimeValue::List(items) => RuntimeValue::List(clone_values(items)),
            RuntimeValue::Unit => RuntimeValue::Unit,
            RuntimeValue::FuncDef { parameters, body, env } => RuntimeValue::FuncDef {
                parameters: clone_names(parameters),
                body: body.clone_body(),
                env: *env,
            },
            RuntimeValue::RuntimeType(t) => RuntimeValue::RuntimeType(*t),
            RuntimeValue::WithEnv { value, env } => RuntimeValue::WithEnv { value: Box::new(value.clone_value()), env: *env },
        }
    }
}

impl Clone for BuiltinOrExpr {
    fn clone(&self) -> (r: BuiltinOrExpr)
        ensures
            r@ == self@,
    {
        self.clone_body()
    }
}

impl Clone for RuntimeValue {
    fn clone(&self) -> (r: RuntimeValue)
        ensures
            r@ == self@,
    {
        self.clone_value()
    }
}

/// The mathematical form of an evaluation result.
pub open spec fn res_view(r: Result<RuntimeValue, EvalError>) -> Result<Val, Fault> {
    match r {
        Ok(v) => Ok(v@),
        Err(e) => Err(e@),
    }
}

/// The member scope of the type registered, in the scope chain of `scope`,
/// under the type name of `value`.
pub fn get_type_env(env: &Env, scope: usize, value: &RuntimeValue) -> (r: Result<usize, EvalError>)
    ensures
        (match r {
            Ok(e) => Ok::<usize, Fault>(e),
            Err(x) => Err(x@),
        }) == (match lookup(env@, scope as nat, value_type_name(value@)) {
            Some(Val::RuntimeType(t)) => Ok::<usize, Fault>(type_env(t)),
            _ => Err(fail(ErrorKind::RegistryConsistency)),
        }),
{
    let name = get_value_type_name(value);
    match env.get(scope, &name) {
        Some(RuntimeValue::RuntimeType(t)) => Ok(t.get_env()),
        _ => Err(EvalError::new(ErrorKind::RegistryConsistency)),
    }
}

impl RuntimeValue {
    /// The type of this value seen from scope `scope` (see `type_of`).
    pub fn get_type(&self, env: &Env, scope: usize) -> (r: Result<RuntimeType, EvalError>)
        ensures
            type_res_view(r) == crate::semantics::type_of(env@, scope as nat, self@),
        decreases self,
    {
        match self {
            RuntimeValue::RuntimeType(r) => {
                return Ok(*r);
            },
            RuntimeValue::WithEnv { value, .. } => {
                return value.get_type(env, scope);
            },
            _ => {},
        }
        match get_type_env(env, scope, self) {
            Err(e) => Err(e),
            Ok(te) => match self {
                RuntimeValue::Int64(_) => Ok(RuntimeType::Int64 { env: te }),
                RuntimeValue::Int128(_) => Ok(RuntimeType::Int128 { env: te }),
                RuntimeValue::String(_) => Ok(RuntimeType::String { env: te }),
                RuntimeValue::Regex(_) => Ok(RuntimeType::Regex { env: te }),
                RuntimeValue::List(_) => Ok(RuntimeType::List { env: te }),
                RuntimeValue::FuncDef { .. } => Ok(RuntimeType::FuncDef { env: te }),
                _ => Ok(RuntimeType::Unit { env: te }),
            },
        }
    }
}

} // verus!
