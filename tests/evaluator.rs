use text_flow::ast::{Expr, Op, Value};
use text_flow::builtins::init_builtin;
use text_flow::env::Env;
use text_flow::runtimes::{ErrorKind, EvalError, RuntimeValue};
use text_flow::vm::{eval, VM};

fn num(i: i64) -> Box<Expr> {
    Box::new(Expr::Value(Value::Int64(i)))
}

fn big(i: i128) -> Box<Expr> {
    Box::new(Expr::Value(Value::Int128(i)))
}

fn text(s: &str) -> Box<Expr> {
    Box::new(Expr::Value(Value::String(Box::new(s.to_string()))))
}

fn var(n: &str) -> Box<Expr> {
    Box::new(Expr::Variable(Box::new(n.to_string())))
}

fn pos(e: Box<Expr>) -> Box<Expr> {
    Box::new(Expr::ExprWithCodePos { exp: e, start: 0, end: 1 })
}

fn op2(op: Op, x: Box<Expr>, y: Box<Expr>) -> Box<Expr> {
    Box::new(Expr::Op2 { op, x, y })
}

fn assign(x: Box<Expr>, y: Box<Expr>) -> Box<Expr> {
    op2(Op::Assign, x, y)
}

fn call(f: Box<Expr>, arguments: Vec<Box<Expr>>) -> Box<Expr> {
    Box::new(Expr::FuncCall { func: f, arguments })
}

fn member(from: Box<Expr>, name: &str, weak: bool) -> Box<Expr> {
    Box::new(Expr::Get { from, key: var(name), is_expr: false, weak })
}

fn index(from: Box<Expr>, key: Box<Expr>) -> Box<Expr> {
    Box::new(Expr::Get { from, key, is_expr: true, weak: false })
}

fn method(from: Box<Expr>, name: &str, arguments: Vec<Box<Expr>>) -> Box<Expr> {
    call(member(from, name, false), arguments)
}

fn lambda(params: Vec<&str>, body: Box<Expr>) -> Box<Expr> {
    Box::new(Expr::FuncDef {
        parameters: params.into_iter().map(|p| Box::new(p.to_string())).collect(),
        body,
    })
}

fn list(items: Vec<Box<Expr>>) -> Box<Expr> {
    Box::new(Expr::List(items))
}

fn block(items: Vec<Box<Expr>>) -> Box<Expr> {
    Box::new(Expr::Block(items))
}

fn run(program: Vec<Box<Expr>>) -> Result<RuntimeValue, EvalError> {
    let mut env = Env::empty();
    let global = init_builtin(&mut env);
    VM::new().eval(&mut env, global, &program)
}

fn run_one(e: Box<Expr>) -> Result<RuntimeValue, EvalError> {
    run(vec![e])
}

fn kind(r: Result<RuntimeValue, EvalError>) -> Option<ErrorKind> {
    match r {
        Ok(_) => None,
        Err(e) => Some(e.kind),
    }
}

fn string(s: &str) -> RuntimeValue {
    RuntimeValue::String(Box::new(s.to_string()))
}

#[test]
fn add_int64_pairs() {
    assert_eq!(run_one(op2(Op::Add, num(2), num(3))), Ok(RuntimeValue::Int64(5)));
    assert_eq!(run_one(op2(Op::Add, num(-7), num(7))), Ok(RuntimeValue::Int64(0)));
    assert_eq!(run_one(op2(Op::Add, num(i64::MAX), num(-1))), Ok(RuntimeValue::Int64(i64::MAX - 1)));
}

#[test]
fn add_int64_overflow_is_an_error() {
    assert_eq!(kind(run_one(op2(Op::Add, num(i64::MAX), num(1)))), Some(ErrorKind::Overflow));
}

#[test]
fn add_promotes_to_int128_either_side() {
    let wide = (i64::MAX as i128) * 4;
    assert_eq!(run_one(op2(Op::Add, num(5), big(wide))), Ok(RuntimeValue::Int128(5 + wide)));
    assert_eq!(run_one(op2(Op::Add, big(wide), num(5))), Ok(RuntimeValue::Int128(5 + wide)));
    assert_eq!(run_one(op2(Op::Add, big(1), big(2))), Ok(RuntimeValue::Int128(3)));
}

#[test]
fn other_arithmetic_operators() {
    assert_eq!(run_one(op2(Op::Sub, num(3), num(10))), Ok(RuntimeValue::Int64(-7)));
    assert_eq!(run_one(op2(Op::Mul, num(6), big(7))), Ok(RuntimeValue::Int128(42)));
    assert_eq!(run_one(op2(Op::Div, num(-7), num(2))), Ok(RuntimeValue::Int64(-3)));
    assert_eq!(run_one(op2(Op::Div, big(7), num(-2))), Ok(RuntimeValue::Int128(-3)));
}

#[test]
fn division_by_zero_is_an_error() {
    assert_eq!(kind(run_one(op2(Op::Div, num(1), num(0)))), Some(ErrorKind::DivisionByZero));
    assert_eq!(kind(run_one(op2(Op::Div, big(1), num(0)))), Some(ErrorKind::DivisionByZero));
}

#[test]
fn division_overflow_is_an_error() {
    assert_eq!(kind(run_one(op2(Op::Div, num(i64::MIN), num(-1)))), Some(ErrorKind::Overflow));
}

#[test]
fn string_concatenation() {
    assert_eq!(run_one(op2(Op::Add, text("ab"), text("cd"))), Ok(string("abcd")));
}

#[test]
fn string_plus_integer_is_a_type_mismatch() {
    assert_eq!(kind(run_one(op2(Op::Add, text("ab"), num(1)))), Some(ErrorKind::TypeMismatch));
    assert_eq!(kind(run_one(op2(Op::Sub, text("ab"), text("b")))), Some(ErrorKind::TypeMismatch));
}

#[test]
fn closure_reads_defining_scope() {
    let program = vec![
        assign(var("x"), num(1)),
        assign(var("f"), lambda(vec![], op2(Op::Add, var("x"), num(1)))),
        call(var("f"), vec![]),
    ];
    assert_eq!(run(program), Ok(RuntimeValue::Int64(2)));
}

#[test]
fn assignment_in_closure_binds_in_its_own_scope() {
    let program = vec![
        assign(var("x"), num(1)),
        assign(var("f"), lambda(vec![], assign(var("x"), op2(Op::Add, var("x"), num(1))))),
        call(var("f"), vec![]),
        var("x"),
    ];
    assert_eq!(run(program), Ok(RuntimeValue::Int64(1)));
}

#[test]
fn member_dispatch_type_of_integer() {
    assert_eq!(run_one(method(num(1), "type", vec![])), Ok(string("i64")));
    assert_eq!(run_one(method(big(1), "type", vec![])), Ok(string("i128")));
    assert_eq!(run_one(method(text("a"), "type", vec![])), Ok(string("str")));
    assert_eq!(run_one(method(list(vec![]), "type", vec![])), Ok(string("list")));
}

#[test]
fn member_dispatch_str_of_integers() {
    assert_eq!(run_one(method(big(111111111111111111), "str", vec![])), Ok(string("111111111111111111")));
    assert_eq!(run_one(method(num(-42), "str", vec![])), Ok(string("-42")));
    assert_eq!(run_one(method(num(0), "str", vec![])), Ok(string("0")));
    assert_eq!(run_one(method(big(i128::MIN), "str", vec![])), Ok(string("-170141183460469231731687303715884105728")));
}

#[test]
fn list_len_and_index() {
    let l = || list(vec![num(1), num(2), num(3)]);
    assert_eq!(run_one(method(l(), "len", vec![])), Ok(RuntimeValue::Int128(3)));
    assert_eq!(run_one(index(l(), num(1))), Ok(RuntimeValue::Int64(2)));
    assert_eq!(run_one(index(l(), big(0))), Ok(RuntimeValue::Int64(1)));
}

#[test]
fn list_index_out_of_range() {
    let l = || list(vec![num(1), num(2), num(3)]);
    assert_eq!(kind(run_one(index(l(), num(3)))), Some(ErrorKind::IndexOutOfRange));
    assert_eq!(kind(run_one(index(l(), num(-1)))), Some(ErrorKind::IndexOutOfRange));
    assert_eq!(kind(run_one(index(l(), text("a")))), Some(ErrorKind::TypeMismatch));
}

#[test]
fn list_static_literal_key_indexes() {
    let e = Box::new(Expr::Get { from: list(vec![num(4), num(5)]), key: num(1), is_expr: false, weak: false });
    assert_eq!(run_one(e), Ok(RuntimeValue::Int64(5)));
}

#[test]
fn object_field_write_is_visible() {
    let program = vec![
        assign(var("o"), call(var("obj"), vec![assign(var("value"), num(1))])),
        assign(member(var("o"), "value", false), num(2)),
        member(var("o"), "value", false),
    ];
    assert_eq!(run(program), Ok(RuntimeValue::Int64(2)));
}

#[test]
fn object_field_reads_constructor_argument() {
    let program = vec![
        assign(var("o"), call(var("obj"), vec![num(7)])),
        member(var("o"), "value", false),
    ];
    assert_eq!(run(program), Ok(RuntimeValue::Int64(7)));
}

fn counted_map_program() -> Vec<Box<Expr>> {
    // c.value counts the calls of the mapping function.
    let body = block(vec![
        assign(member(var("c"), "value", false), op2(Op::Add, member(var("c"), "value", false), num(1))),
        op2(Op::Add, var("i"), num(1)),
    ]);
    vec![
        assign(var("c"), call(var("obj"), vec![num(0)])),
        assign(var("m"), op2(Op::LazyMap, list(vec![num(1), num(2), num(3)]), lambda(vec!["i"], body))),
    ]
}

#[test]
fn lazy_map_construction_calls_nothing() {
    let mut program = counted_map_program();
    program.push(member(var("c"), "value", false));
    assert_eq!(run(program), Ok(RuntimeValue::Int64(0)));
    let mut program = counted_map_program();
    program.push(var("m"));
    let m = run(program).unwrap();
    assert!(matches!(m, RuntimeValue::WithEnv { ref value, .. } if **value == RuntimeValue::Unit));
}

#[test]
fn lazy_map_next_yields_mapped_elements_in_order() {
    let mut env = Env::empty();
    let global = init_builtin(&mut env);
    let vm = VM::new();
    assert!(vm.eval(&mut env, global, &counted_map_program()).is_ok());
    for (expected, calls) in [(2, 1), (3, 2), (4, 3)] {
        let next = vec![method(var("m"), "next", vec![])];
        assert_eq!(vm.eval(&mut env, global, &next), Ok(RuntimeValue::Int64(expected)));
        let count = vec![member(var("c"), "value", false)];
        assert_eq!(vm.eval(&mut env, global, &count), Ok(RuntimeValue::Int64(calls)));
    }
    let next = vec![method(var("m"), "next", vec![])];
    assert_eq!(kind(vm.eval(&mut env, global, &next)), Some(ErrorKind::IndexOutOfRange));
}

#[test]
fn list_iterator_walks_the_list() {
    let program = vec![
        assign(var("it"), method(list(vec![num(5), text("x")]), "iter", vec![])),
        method(var("it"), "next", vec![]),
    ];
    assert_eq!(run(program), Ok(RuntimeValue::Int64(5)));
    let program = vec![
        assign(var("it"), method(list(vec![num(5), text("x")]), "iter", vec![])),
        method(var("it"), "next", vec![]),
        method(var("it"), "next", vec![]),
    ];
    assert_eq!(run(program), Ok(string("x")));
}

#[test]
fn weak_access_to_missing_member_is_unit() {
    let program = vec![
        assign(var("o"), call(var("obj"), vec![num(1)])),
        member(var("o"), "missing", true),
    ];
    assert_eq!(run(program), Ok(RuntimeValue::Unit));
    assert_eq!(run_one(member(num(1), "missing", true)), Ok(RuntimeValue::Unit));
}

#[test]
fn strict_access_to_missing_member_fails() {
    let program = vec![
        assign(var("o"), call(var("obj"), vec![num(1)])),
        member(var("o"), "missing", false),
    ];
    assert_eq!(kind(run(program)), Some(ErrorKind::UnknownMember));
    assert_eq!(kind(run_one(member(num(1), "missing", false))), Some(ErrorKind::UnknownMember));
}

#[test]
fn undefined_variable_fails() {
    assert_eq!(kind(run_one(var("nowhere"))), Some(ErrorKind::UndefinedVariable));
}

#[test]
fn calling_a_non_function_fails() {
    assert_eq!(kind(run_one(call(num(1), vec![]))), Some(ErrorKind::NotCallable));
}

#[test]
fn unsupported_operators_fail() {
    assert_eq!(kind(run_one(op2(Op::Eq, num(1), num(1)))), Some(ErrorKind::UnsupportedOperation));
    assert_eq!(kind(run_one(Box::new(Expr::Op1 { op: Op::Not, x: num(1) }))), Some(ErrorKind::UnsupportedOperation));
    assert_eq!(kind(run_one(assign(num(1), num(2)))), Some(ErrorKind::UnsupportedOperation));
    assert_eq!(kind(run_one(assign(index(list(vec![num(1)]), num(0)), num(2)))), Some(ErrorKind::UnsupportedOperation));
}

#[test]
fn too_many_arguments_fail() {
    assert_eq!(kind(run_one(call(lambda(vec![], num(1)), vec![num(5)]))), Some(ErrorKind::TooManyArguments));
}

#[test]
fn unregistered_type_name_fails() {
    assert_eq!(kind(run_one(method(lambda(vec![], num(1)), "type", vec![]))), Some(ErrorKind::RegistryConsistency));
}

#[test]
fn endless_recursion_hits_the_depth_bound() {
    let program = vec![
        assign(var("f"), lambda(vec![], call(var("f"), vec![]))),
        call(var("f"), vec![]),
    ];
    assert_eq!(kind(run(program)), Some(ErrorKind::DepthExceeded));
}

#[test]
fn named_and_positional_arguments() {
    let f = || lambda(vec!["a", "b"], op2(Op::Sub, var("a"), var("b")));
    assert_eq!(run_one(call(f(), vec![num(10), num(3)])), Ok(RuntimeValue::Int64(7)));
    assert_eq!(run_one(call(f(), vec![num(10), assign(var("b"), num(4))])), Ok(RuntimeValue::Int64(6)));
    assert_eq!(run_one(call(f(), vec![assign(var("b"), num(4)), assign(var("a"), num(1))])), Ok(RuntimeValue::Int64(-3)));
}

#[test]
fn position_wrappers_are_transparent() {
    assert_eq!(run_one(pos(op2(Op::Add, pos(num(1)), pos(num(2))))), Ok(RuntimeValue::Int64(3)));
    let program = vec![assign(pos(var("x")), num(4)), pos(var("x"))];
    assert_eq!(run(program), Ok(RuntimeValue::Int64(4)));
}

#[test]
fn block_yields_last_value_and_empty_is_unit() {
    assert_eq!(run_one(block(vec![num(1), num(2)])), Ok(RuntimeValue::Int64(2)));
    assert_eq!(run_one(block(vec![])), Ok(RuntimeValue::Unit));
    assert_eq!(run(vec![]), Ok(RuntimeValue::Unit));
}

#[test]
fn list_literal_keeps_order() {
    let r = run_one(list(vec![num(1), text("b"), big(3)]));
    let expected = RuntimeValue::List(vec![
        Box::new(RuntimeValue::Int64(1)),
        Box::new(string("b")),
        Box::new(RuntimeValue::Int128(3)),
    ]);
    assert_eq!(r, Ok(expected));
}

#[test]
fn regex_literal_keeps_its_text() {
    let e = Box::new(Expr::Value(Value::Regex(Box::new("a+".to_string()))));
    assert_eq!(run_one(e), Ok(RuntimeValue::Regex(Box::new("a+".to_string()))));
}

#[test]
fn free_eval_honours_depth() {
    let mut env = Env::empty();
    let global = init_builtin(&mut env);
    let program = vec![call(lambda(vec![], num(1)), vec![])];
    assert_eq!(kind(eval(&mut env, global, &program, 0)), Some(ErrorKind::DepthExceeded));
    assert_eq!(eval(&mut env, global, &program, 1), Ok(RuntimeValue::Int64(1)));
}

#[test]
fn error_carries_innermost_span() {
    let e = Box::new(Expr::ExprWithCodePos {
        exp: op2(
            Op::Add,
            num(1),
            Box::new(Expr::ExprWithCodePos { exp: var("missing"), start: 2, end: 9 }),
        ),
        start: 0,
        end: 9,
    });
    let err = run_one(e).unwrap_err();
    assert_eq!(err.kind, ErrorKind::UndefinedVariable);
    assert_eq!(err.span, Some((2, 9)));
    assert_eq!(err.name, Some("missing".to_string()));
    let outer = Box::new(Expr::ExprWithCodePos { exp: op2(Op::Div, num(1), num(0)), start: 0, end: 3 });
    let err = run_one(outer).unwrap_err();
    assert_eq!(err.kind, ErrorKind::DivisionByZero);
    assert_eq!(err.span, Some((0, 3)));
}

fn collect(x: Box<Expr>) -> Box<Expr> {
    Box::new(Expr::Op1 { op: Op::Collect, x })
}

#[test]
fn collect_forces_a_lazy_map() {
    let mut program = counted_map_program();
    program.push(collect(var("m")));
    let expected = RuntimeValue::List(vec![
        Box::new(RuntimeValue::Int64(2)),
        Box::new(RuntimeValue::Int64(3)),
        Box::new(RuntimeValue::Int64(4)),
    ]);
    assert_eq!(run(program), Ok(expected));
}

#[test]
fn collect_of_a_list_iterator_copies_the_list() {
    let program = vec![collect(method(list(vec![num(1), text("b")]), "iter", vec![]))];
    let expected = RuntimeValue::List(vec![Box::new(RuntimeValue::Int64(1)), Box::new(string("b"))]);
    assert_eq!(run(program), Ok(expected));
    let program = vec![collect(method(list(vec![]), "iter", vec![]))];
    assert_eq!(run(program), Ok(RuntimeValue::List(vec![])));
}

#[test]
fn collect_needs_a_sequence() {
    assert_eq!(kind(run_one(collect(num(5)))), Some(ErrorKind::UnknownMember));
}

#[test]
fn type_mismatch_carries_both_operands() {
    let err = run_one(op2(Op::Add, text("ab"), num(1))).unwrap_err();
    assert_eq!(err.kind, ErrorKind::TypeMismatch);
    assert_eq!(err.values, vec![Box::new(string("ab")), Box::new(RuntimeValue::Int64(1))]);
    assert_eq!(err.name, None);
}

#[test]
fn unknown_member_names_member_and_receiver() {
    let err = run_one(member(num(1), "missing", false)).unwrap_err();
    assert_eq!(err.kind, ErrorKind::UnknownMember);
    assert_eq!(err.name, Some("missing".to_string()));
    assert_eq!(err.values, vec![Box::new(RuntimeValue::Int64(1))]);
}

#[test]
fn not_callable_carries_the_called_value() {
    let err = run_one(call(text("f"), vec![num(1)])).unwrap_err();
    assert_eq!(err.kind, ErrorKind::NotCallable);
    assert_eq!(err.values, vec![Box::new(string("f"))]);
}

#[test]
fn type_descriptor_is_its_own_type() {
    let program = vec![
        assign(var("t"), var("i64")),
        assign(var("i64"), num(1)),
        method(var("t"), "type", vec![]),
    ];
    assert_eq!(run(program), Ok(string("i64")));
}

#[test]
fn binary_collect_forces_its_left_operand() {
    let mut program = counted_map_program();
    program.push(op2(Op::Collect, var("m"), var("not_evaluated")));
    let expected = RuntimeValue::List(vec![
        Box::new(RuntimeValue::Int64(2)),
        Box::new(RuntimeValue::Int64(3)),
        Box::new(RuntimeValue::Int64(4)),
    ]);
    assert_eq!(run(program), Ok(expected));
}
