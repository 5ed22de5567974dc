use balloon_core::ast::BinaryOp;
use balloon_core::ast::UnaryOp;
use balloon_core::environment::Environment;
use balloon_core::operations::add;
use balloon_core::operations::divide;
use balloon_core::operations::floor_divide;
use balloon_core::operations::greater_than;
use balloon_core::operations::greater_than_or_equal;
use balloon_core::operations::less_than;
use balloon_core::operations::less_than_or_equal;
use balloon_core::operations::multiply;
use balloon_core::operations::subtract;
use balloon_core::operations::unary_minus;
use balloon_core::render::i64_dec;
use balloon_core::render::text_of_value;
use balloon_core::render::u64_dec;
use balloon_core::runtime::RuntimeError;
use balloon_core::value::copy_value;
use balloon_core::value::value_eq;
use balloon_core::value::Number;
use balloon_core::value::Value;

fn num(i: i64) -> Value {
    Value::Number(Number::Integer(i))
}

fn strv(s: &str) -> Value {
    Value::Str(s.to_string())
}

fn expect_num(r: Result<Value, RuntimeError>) -> i64 {
    match r {
        Ok(Value::Number(Number::Integer(i))) => i,
        _ => panic!("expected a number"),
    }
}

fn expect_bool(r: Result<Value, RuntimeError>) -> bool {
    match r {
        Ok(Value::Bool(b)) => b,
        _ => panic!("expected a boolean"),
    }
}

fn expect_some(o: Option<Value>) -> Value {
    match o {
        Some(v) => v,
        None => panic!("expected a binding"),
    }
}

fn expect_str(r: Result<Value, RuntimeError>) -> String {
    match r {
        Ok(Value::Str(s)) => s,
        _ => panic!("expected a string"),
    }
}

#[test]
fn add_numbers() {
    assert_eq!(expect_num(add(num(2), num(40))), 42);
}

#[test]
fn add_wraps_on_overflow() {
    assert_eq!(expect_num(add(num(i64::MAX), num(1))), i64::MIN);
}

#[test]
fn add_strings_concatenates() {
    assert_eq!(expect_str(add(strv("ab"), strv("cd"))), "abcd");
}

#[test]
fn add_number_and_string_coerces_left() {
    assert_eq!(expect_str(add(num(1), strv("x"))), "1x");
}

#[test]
fn add_string_and_number_coerces_right() {
    assert_eq!(expect_str(add(strv("x"), num(1))), "x1");
}

#[test]
fn add_string_and_bool_coerces() {
    assert_eq!(expect_str(add(strv("is "), Value::Bool(true))), "is true");
}

#[test]
fn add_tuples_concatenates() {
    let t1 = Value::Tuple(vec![num(1), num(2)]);
    let t2 = Value::Tuple(vec![num(3)]);
    let r = match add(t1, t2) {
        Ok(v) => v,
        Err(_) => panic!("tuple concatenation must succeed"),
    };
    let expected = Value::Tuple(vec![num(1), num(2), num(3)]);
    assert!(value_eq(&r, &expected));
}

#[test]
fn add_bools_is_type_error() {
    let r = add(Value::Bool(true), Value::Bool(false));
    assert!(matches!(r, Err(RuntimeError::BinaryTypeError(BinaryOp::Add, _, _))));
}

#[test]
fn subtract_and_multiply_numbers() {
    assert_eq!(expect_num(subtract(num(10), num(4))), 6);
    assert_eq!(expect_num(multiply(num(6), num(7))), 42);
}

#[test]
fn divide_truncates_toward_zero() {
    assert_eq!(expect_num(divide(num(7), num(2))), 3);
    assert_eq!(expect_num(divide(num(-7), num(2))), -3);
    assert_eq!(expect_num(divide(num(7), num(-2))), -3);
}

#[test]
fn divide_by_zero_is_reported() {
    assert!(matches!(divide(num(1), num(0)), Err(RuntimeError::DivisionByZero(BinaryOp::Div))));
}

#[test]
fn floor_divide_rounds_down() {
    assert_eq!(expect_num(floor_divide(num(7), num(2))), 3);
    assert_eq!(expect_num(floor_divide(num(-7), num(2))), -4);
    assert_eq!(expect_num(floor_divide(num(7), num(-2))), -4);
    assert_eq!(expect_num(floor_divide(num(-7), num(-2))), 3);
    assert_eq!(expect_num(floor_divide(num(6), num(2))), 3);
}

#[test]
fn floor_divide_by_zero_is_reported() {
    assert!(matches!(
        floor_divide(num(1), num(0)),
        Err(RuntimeError::DivisionByZero(BinaryOp::FloorDiv))
    ));
}

#[test]
fn unary_minus_negates_numbers_only() {
    assert_eq!(expect_num(unary_minus(num(5))), -5);
    assert!(matches!(
        unary_minus(Value::Bool(true)),
        Err(RuntimeError::UnaryTypeError(UnaryOp::Minus, _))
    ));
}

#[test]
fn comparisons_on_numbers() {
    assert!(expect_bool(less_than(num(1), num(2))));
    assert!(!expect_bool(less_than(num(2), num(2))));
    assert!(expect_bool(less_than_or_equal(num(2), num(2))));
    assert!(expect_bool(greater_than(num(3), num(2))));
    assert!(expect_bool(greater_than_or_equal(num(2), num(2))));
}

#[test]
fn comparison_on_strings_is_type_error() {
    assert!(matches!(
        less_than(strv("a"), strv("b")),
        Err(RuntimeError::BinaryTypeError(BinaryOp::LessThan, _, _))
    ));
}

#[test]
fn equality_is_structural_and_total() {
    assert!(value_eq(&num(3), &num(3)));
    assert!(!value_eq(&num(3), &num(4)));
    assert!(!value_eq(&num(1), &Value::Bool(true)));
    assert!(value_eq(&strv("ab"), &strv("ab")));
    assert!(value_eq(
        &Value::Tuple(vec![num(1), strv("x")]),
        &Value::Tuple(vec![num(1), strv("x")]),
    ));
    assert!(!value_eq(
        &Value::Tuple(vec![num(1)]),
        &Value::Tuple(vec![num(1), num(2)]),
    ));
}

#[test]
fn truthiness_follows_documented_rule() {
    assert!(num(1).is_truthy());
    assert!(!num(0).is_truthy());
    assert!(Value::Bool(true).is_truthy());
    assert!(!Value::Bool(false).is_truthy());
    assert!(strv("a").is_truthy());
    assert!(!strv("").is_truthy());
    assert!(Value::Tuple(vec![num(1)]).is_truthy());
    assert!(!Value::Tuple(vec![]).is_truthy());
}

#[test]
fn decimal_rendering_exact() {
    assert_eq!(u64_dec(0), "0");
    assert_eq!(u64_dec(90210), "90210");
    assert_eq!(i64_dec(-42), "-42");
    assert_eq!(i64_dec(i64::MIN), "-9223372036854775808");
    assert_eq!(i64_dec(i64::MAX), "9223372036854775807");
}

#[test]
fn value_rendering_exact() {
    assert_eq!(text_of_value(&num(-3)), "-3");
    assert_eq!(text_of_value(&Value::Bool(false)), "false");
    assert_eq!(text_of_value(&strv("hi")), "hi");
    assert_eq!(
        text_of_value(&Value::Tuple(vec![num(1), Value::Tuple(vec![strv("a"), num(2)])])),
        "(1, (a, 2))"
    );
    assert_eq!(text_of_value(&Value::Tuple(vec![])), "()");
}

#[test]
fn copy_value_preserves_structure() {
    let original = Value::Tuple(vec![num(1), strv("x"), Value::Tuple(vec![Value::Bool(true)])]);
    let copied = copy_value(&original);
    assert!(value_eq(&original, &copied));
}

#[test]
fn environment_declare_get_set() {
    let mut env = Environment::new_root();
    let x = "x".to_string();
    env.declare(0, &x, num(1));
    let got = expect_some(env.get(0, &x));
    assert!(value_eq(&got, &num(1)));

    let child = env.create_child(0);
    assert!(env.get(child, &x).is_some());
    env.declare(child, &x, num(2));
    let shadowed = expect_some(env.get(child, &x));
    assert!(value_eq(&shadowed, &num(2)));
    let outer = expect_some(env.get(0, &x));
    assert!(value_eq(&outer, &num(1)));

    let grandchild = env.create_child(child);
    assert!(env.set(grandchild, &x, num(9)));
    let mutated = expect_some(env.get(child, &x));
    assert!(value_eq(&mutated, &num(9)));

    let y = "y".to_string();
    assert!(!env.set(grandchild, &y, num(0)));
    assert!(env.get(grandchild, &y).is_none());
}

#[test]
fn divide_most_negative_by_minus_one_wraps() {
    assert_eq!(expect_num(divide(num(i64::MIN), num(-1))), i64::MIN);
    assert_eq!(expect_num(floor_divide(num(i64::MIN), num(-1))), i64::MIN);
}

#[test]
fn multiply_wraps_on_overflow() {
    assert_eq!(expect_num(multiply(num(i64::MAX), num(2))), -2);
}

#[test]
fn unary_minus_of_most_negative_wraps() {
    assert_eq!(expect_num(unary_minus(num(i64::MIN))), i64::MIN);
}
