use text_flow::ast::{Expr, Value};
use text_flow::env::Env;
use text_flow::runtimes::get_value_type_name;
use text_flow::scope_utils::get_var_from_env;
use text_flow::runtimes::{RuntimeType, RuntimeValue};
use text_flow::builtins::init_builtin;
use text_flow::scope_utils::{get_name_from_env, get_self_from_env, set_name_from_env};

fn key(s: &str) -> String {
    s.to_string()
}

#[test]
fn lookup_falls_through_to_parents() {
    let mut env = Env::empty();
    let root = env.new(None);
    let child = env.new(Some(root));
    env.set(root, key("x"), RuntimeValue::Int64(1));
    assert_eq!(env.get(child, &key("x")), Some(RuntimeValue::Int64(1)));
    assert_eq!(env.get(child, &key("y")), None);
}

#[test]
fn set_writes_the_local_scope_only() {
    let mut env = Env::empty();
    let root = env.new(None);
    let child = env.new(Some(root));
    env.set(root, key("x"), RuntimeValue::Int64(1));
    env.set(child, key("x"), RuntimeValue::Int64(2));
    assert_eq!(env.get(child, &key("x")), Some(RuntimeValue::Int64(2)));
    assert_eq!(env.get(root, &key("x")), Some(RuntimeValue::Int64(1)));
    env.set(child, key("x"), RuntimeValue::Int64(3));
    assert_eq!(env.get(child, &key("x")), Some(RuntimeValue::Int64(3)));
}

#[test]
fn from_binds_given_variables() {
    let mut env = Env::empty();
    let id = env.from(vec![(key("a"), RuntimeValue::Int64(1)), (key("a"), RuntimeValue::Int64(2))], None);
    assert_eq!(env.get(id, &key("a")), Some(RuntimeValue::Int64(2)));
    assert_eq!(env.len(), 1);
}

#[test]
fn merge_grafts_a_copy_under_the_receiver() {
    let mut env = Env::empty();
    let root = env.new(None);
    env.set(root, key("outer"), RuntimeValue::Int64(1));
    let bag = env.from(vec![(key("field"), RuntimeValue::Int64(2))], None);
    let merged = env.merge(root, bag);
    assert_eq!(env.get(merged, &key("field")), Some(RuntimeValue::Int64(2)));
    assert_eq!(env.get(merged, &key("outer")), Some(RuntimeValue::Int64(1)));
    env.set(merged, key("field"), RuntimeValue::Int64(3));
    assert_eq!(env.get(bag, &key("field")), Some(RuntimeValue::Int64(2)));
}

#[test]
fn scope_shorthands() {
    let mut env = Env::empty();
    let root = env.new(None);
    set_name_from_env(&mut env, root, key("self"), RuntimeValue::Int64(9));
    assert_eq!(get_self_from_env(&env, root), Some(RuntimeValue::Int64(9)));
    assert_eq!(get_name_from_env(&env, root, &key("other")), None);
}

#[test]
fn bootstrap_registers_primitive_types() {
    let mut env = Env::empty();
    let root = init_builtin(&mut env);
    assert_eq!(root, 0);
    assert_eq!(env.len(), 6);
    assert_eq!(env.get(root, &key("i64")), Some(RuntimeValue::RuntimeType(RuntimeType::Int64 { env: 1 })));
    assert_eq!(env.get(root, &key("list")), Some(RuntimeValue::RuntimeType(RuntimeType::List { env: 5 })));
    let v = RuntimeValue::Int64(3);
    assert_eq!(v.get_type(&env, root), Ok(RuntimeType::Int64 { env: 1 }));
    assert_eq!(RuntimeType::Int64 { env: 1 }.name(), "i64");
    assert_eq!(RuntimeType::Regex { env: 4 }.get_env(), 4);
}

#[test]
fn variable_shorthand_reads_names_only() {
    let mut env = Env::empty();
    let root = env.new(None);
    env.set(root, key("a"), RuntimeValue::Int64(4));
    let name = Expr::Variable(Box::new(key("a")));
    assert_eq!(get_var_from_env(&env, root, &name), Some(RuntimeValue::Int64(4)));
    let literal = Expr::Value(Value::Int64(4));
    assert_eq!(get_var_from_env(&env, root, &literal), None);
}

#[test]
fn type_names_of_values() {
    assert_eq!(get_value_type_name(&RuntimeValue::Int128(1)), "i128");
    assert_eq!(get_value_type_name(&RuntimeValue::Unit), "none");
    let bound = RuntimeValue::WithEnv { value: Box::new(RuntimeValue::Regex(Box::new(key("a")))), env: 0 };
    assert_eq!(get_value_type_name(&bound), "reg");
    assert_eq!(bound.clone(), bound);
}

#[test]
fn descriptor_type_needs_no_registry() {
    let env = Env::empty();
    let t = RuntimeValue::RuntimeType(RuntimeType::List { env: 7 });
    assert_eq!(t.get_type(&env, 0), Ok(RuntimeType::List { env: 7 }));
    let bound = RuntimeValue::WithEnv { value: Box::new(t), env: 3 };
    assert_eq!(bound.get_type(&env, 0), Ok(RuntimeType::List { env: 7 }));
}
