use vstd::prelude::*;

verus! {

/// A literal as written in the source text.
#[derive(Debug, PartialEq, Eq)]
pub enum Value {
    String(Box<String>),
    Int64(i64),
    Int128(i128),
    Regex(Box<String>),
}

/// The operators of the language.
#[derive(Debug, Clone, Copy, PartialEq, Eq, Structural)]
pub enum Op {
    Eq,
    LazyMap,
    AsyncMap,
    Assign,
    Collect,
    Add,
    Sub,
    Mul,
    Div,
    Gt,
    Ge,
    Neg,
    Lt,
    Le,
    Ne,
    If,
    And,
    Or,
    Not,
    BAnd,
    BOr,
    BXor,
    BNot,
}

/// Control markers; reserved, never evaluated.
#[derive(Debug, Clone, Copy, PartialEq, Eq, Structural)]
pub enum Control {
    Ignore,
    Break,
}

/// A node of the syntax tree.
#[derive(Debug, PartialEq, Eq)]
pub enum Expr {
    FuncCall { func: Box<Expr>, arguments: Vec<Box<Expr>> },
    Variable(Box<String>),
    FuncDef { parameters: Vec<Box<String>>, body: Box<Expr> },
    Value(Value),
    /// `[a, b, c]`
    List(Vec<Box<Expr>>),
    /// `abc.xyz` (`is_expr == false`) or `abc[xyz]` (`is_expr == true`);
    /// a `weak` access yields none for a missing member.
    Get { from: Box<Expr>, key: Box<Expr>, is_expr: bool, weak: bool },
    ExprWithCodePos { exp: Box<Expr>, start: usize, end: usize },
    Block(Vec<Box<Expr>>),
    /// `!x`
    Op1 { op: Op, x: Box<Expr> },
    /// `x || y`
    Op2 { op: Op, x: Box<Expr>, y: Box<Expr> },
    /// `x ? y : z`
    Op3 { op: Op, x: Box<Expr>, y: Box<Expr>, z: Box<Expr> },
    Control(Control),
}

/// The mathematical form of a literal.
pub enum Lit {
    Str(Seq<char>),
    I64(i64),
    I128(i128),
    Re(Seq<char>),
}

/// The mathematical form of a syntax tree: names are character sequences,
/// children are sequences of trees.
pub enum Term {
    Call(Box<Term>, Seq<Term>),
    Var(Seq<char>),
    Lambda(Seq<Seq<char>>, Box<Term>),
    Lit(Lit),
    List(Seq<Term>),
    Get(Box<Term>, Box<Term>, bool, bool),
    Pos(Box<Term>, usize, usize),
    Block(Seq<Term>),
    Op1(Op, Box<Term>),
    Op2(Op, Box<Term>, Box<Term>),
    Op3(Op, Box<Term>, Box<Term>, Box<Term>),
    Control(Control),
}

impl View for Value {
    type V = Lit;

    open spec fn view(&self) -> Lit {
        match self {
            Value::String(s) => Lit::Str(s@),
            Value::Int64(i) => Lit::I64(*i),
            Value::Int128(i) => Lit::I128(*i),
            Value::Regex(s) => Lit::Re(s@),
        }
    }
}

/// The names of a parameter list.
pub open spec fn names_view(v: Seq<Box<String>>) -> Seq<Seq<char>> {
    v.map_values(|s: Box<String>| s@)
}

impl Expr {
    /// The mathematical form of a tree.
    pub open spec fn view_of(e: Expr) -> Term
        decreases e, 1nat,
    {
        match e {
            Expr::FuncCall { func, arguments } => Term::Call(Box::new(Expr::view_of(*func)), exprs_view(arguments@)),
            Expr::Variable(n) => Term::Var(n@),
            Expr::FuncDef { parameters, body } => Term::Lambda(names_view(parameters@), Box::new(Expr::view_of(*body))),
            Expr::Value(v) => Term::Lit(v@),
            Expr::List(items) => Term::List(exprs_view(items@)),
            Expr::Get { from, key, is_expr, weak } => Term::Get(Box::new(Expr::view_of(*from)), Box::new(Expr::view_of(*key)), is_expr, weak),
            Expr::ExprWithCodePos { exp, start, end } => Term::Pos(Box::new(Expr::view_of(*exp)), start, end),
            Expr::Block(items) => Term::Block(exprs_view(items@)),
            Expr::Op1 { op, x } => Term::Op1(op, Box::new(Expr::view_of(*x))),
            Expr::Op2 { op, x, y } => Term::Op2(op, Box::new(Expr::view_of(*x)), Box::new(Expr::view_of(*y))),
            Expr::Op3 { op, x, y, z } => Term::Op3(op, Box::new(Expr::view_of(*x)), Box::new(Expr::view_of(*y)), Box::new(Expr::view_of(*z))),
            Expr::Control(c) => Term::Control(c),
        }
    }
}

/// The trees of a sequence of boxed nodes.
pub open spec fn exprs_view(v: Seq<Box<Expr>>) -> Seq<Term>
    decreases v, 0nat,
{
    if v.len() == 0 {
        Seq::empty()
    } else {
        exprs_view(v.subrange(0, v.len() - 1)).push(Expr::view_of(*v[v.len() - 1]))
    }
}

impl View for Expr {
    type V = Term;

    open spec fn view(&self) -> Term {
        Expr::view_of(*self)
    }
}

/// The trees of a sequence of boxed nodes, element by element.
pub proof fn lemma_exprs_view(v: Seq<Box<Expr>>)
    ensures
        exprs_view(v).len() == v.len(),
        forall|i: int| 0 <= i < v.len() ==> #[trigger] exprs_view(v)[i] == Expr::view_of(*v[i]),
    decreases v.len(),
{
    if v.len() > 0 {
        lemma_exprs_view(v.subrange(0, v.len() - 1));
    }
}

/// Sequences of nodes with the same trees, element by element, have the
/// same trees.
pub proof fn lemma_exprs_view_ext(a: Seq<Box<Expr>>, b: Seq<Box<Expr>>)
    requires
        a.len() == b.len(),
        forall|i: int| 0 <= i < a.len() ==> Expr::view_of(*a[i]) == Expr::view_of(*b[i]),
    ensures
        exprs_view(a) == exprs_view(b),
{
    lemma_exprs_view(a);
    lemma_exprs_view(b);
    assert(exprs_view(a) =~= exprs_view(b));
}

/// A copy of a boxed string.
pub(crate) fn clone_string(s: &Box<String>) -> (r: Box<String>)
    ensures
        r@ == s@,
{
    Box::new((**s).clone())
}

/// A copy of a parameter list.
pub(crate) fn clone_names(v: &Vec<Box<String>>) -> (r: Vec<Box<String>>)
    ensures
        names_view(r@) == names_view(v@),
{
    let mut r: Vec<Box<String>> = Vec::new();
    let mut i: usize = 0;
    while i < v.len()
        invariant
            i <= v.len(),
            names_view(r@) =~= names_view(v@.subrange(0, i as int)),
        decreases v.len() - i,
    {
        r.push(clone_string(&v[i]));
        i = i + 1;
        assert(names_view(v@.subrange(0, i as int)) =~= names_view(v@.subrange(0, i - 1)).push(v@[i - 1]@));
    }
    assert(v@.subrange(0, v.len() as int) =~= v@);
    r
}

/// A copy of a sequence of nodes.
fn clone_exprs(v: &Vec<Box<Expr>>) -> (r: Vec<Box<Expr>>)
    ensures
        exprs_view(r@) == exprs_view(v@),
    decreases v,
{
    let mut r: Vec<Box<Expr>> = Vec::new();
    let mut i: usize = 0;
    while i < v.len()
        invariant
            i <= v.len(),
            r.len() == i,
            forall|j: int| 0 <= j < i ==> Expr::view_of(*r@[j]) == Expr::view_of(*v@[j]),
        decreases v.len() - i,
    {
        proof {
            broadcast use vstd::std_specs::vec::axiom_vec_index_decreases;
        }
        assert(decreases_to!(v => v[i as int]));
        let e = v[i].clone_expr();
        r.push(Box::new(e));
        i = i + 1;
    }
    proof {
        lemma_exprs_view_ext(r@, v@);
    }
    r
}

impl Value {
    /// A copy of the literal.
    pub fn clone_value(&self) -> (r: Value)
        ensures
            r@ == self@,
    {
        match self {
            Value::String(s) => Value::String(clone_string(s)),
            Value::Int64(i) => Value::Int64(*i),
            Value::Int128(i) => Value::Int128(*i),
            Value::Regex(s) => Value::Regex(clone_string(s)),
        }
    }
}

impl Expr {
    /// A copy of the tree.
    pub fn clone_expr(&self) -> (r: Expr)
        ensures
            r@ == self@,
        decreases self,
    {
        match self {
            Expr::FuncCall { func, arguments } => {
                let f = func.clone_expr();
                let a = clone_exprs(arguments);
                Expr::FuncCall { func: Box::new(f), arguments: a }
            },
            Expr::Variable(n) => Expr::Variable(clone_string(n)),
            Expr::FuncDef { parameters, body } => Expr::FuncDef { parameters: clone_names(parameters), body: Box::new(body.clone_expr()) },
            Expr::Value(v) => Expr::Value(v.clone_value()),
            Expr::List(items) => {
                let a = clone_exprs(items);
                Expr::List(a)
            },
            Expr::Get { from, key, is_expr, weak } => Expr::Get { from: Box::new(from.clone_expr()), key: Box::new(key.clone_expr()), is_expr: *is_expr, weak: *weak },
            Expr::ExprWithCodePos { exp, start, end } => Expr::ExprWithCodePos { exp: Box::new(exp.clone_expr()), start: *start, end: *end },
            Expr::Block(items) => {
                let a = clone_exprs(items);
                Expr::Block(a)
            },
            Expr::Op1 { op, x } => Expr::Op1 { op: *op, x: Box::new(x.clone_expr()) },
            Expr::Op2 { op, x, y } => Expr::Op2 { op: *op, x: Box::new(x.clone_expr()), y: Box::new(y.clone_expr()) },
            Expr::Op3 { op, x, y, z } => Expr::Op3 { op: *op, x: Box::new(x.clone_expr()), y: Box::new(y.clone_expr()), z: Box::new(z.clone_expr()) },
            Expr::Control(c) => Expr::Control(*c),
        }
    }
}

impl Clone for Value {
    fn clone(&self) -> (r: Value)
        ensures
            r@ == self@,
    {
        self.clone_value()
    }
}

impl Clone for Expr {
    fn clone(&self) -> (r: Expr)
        ensures
            r@ == self@,
    {
        self.clone_expr()
    }
}

} // verus!
