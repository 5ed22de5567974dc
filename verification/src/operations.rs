//! Pure operator implementations over values, with their exact models.
//!
//! Numbers are exact integers; addition, subtraction, multiplication and
//! negation wrap on two's-complement 64-bit overflow, division by zero is a
//! reported error, and the single overflowing quotient wraps. `+` also
//! concatenates two tuples or two strings, and coerces the other operand to
//! text when exactly one operand is a string. Comparisons accept numbers
//! only. Every mismatch produces a typed error; nothing here panics.

use vstd::prelude::*;
use vstd::string::StringExecFns;

use crate::ast::BinaryOp;
use crate::ast::UnaryOp;
use crate::render::sp_text;
use crate::render::text_of_value;
use crate::runtime::RuntimeError;
use crate::runtime::SpecError;
use crate::value::Number;
use crate::value::SpecValue;
use crate::value::Value;
use crate::value::sp_type_of;
use crate::value::view_val;
use crate::value::view_vals;

verus! {

/// Model of an operation's outcome.
pub open spec fn view_val_res(r: Result<Value, RuntimeError>) -> Result<SpecValue, SpecError> {
    match r {
        Result::Ok(v) => Result::Ok(view_val(v)),
        Result::Err(e) => Result::Err(crate::runtime::view_error(e)),
    }
}

/// Truncating 64-bit quotient, as unbounded mathematics.
pub open spec fn sp_trunc_div(x: i64, y: i64) -> int {
    let a = x as int;
    let d = y as int;
    if a == 0 {
        0
    } else if a > 0 && d > 0 {
        a / d
    } else if a < 0 && d < 0 {
        (a * -1) / (d * -1)
    } else if a < 0 {
        ((a * -1) / d) * -1
    } else {
        (a / (d * -1)) * -1
    }
}

/// Truncating 64-bit remainder, as unbounded mathematics.
pub open spec fn sp_trunc_rem(x: i64, y: i64) -> int {
    let a = x as int;
    let d = y as int;
    if a == 0 {
        0
    } else if a > 0 && d > 0 {
        a % d
    } else if a < 0 && d < 0 {
        ((a * -1) % (d * -1)) * -1
    } else if a < 0 {
        ((a * -1) % d) * -1
    } else {
        a % (d * -1)
    }
}

/// Quotients wrap into the 64-bit range (only the most negative dividend
/// divided by minus one, and its floor adjustment, fall outside it).
pub open spec fn sp_div_wrap(q: int) -> i64 {
    if q > i64::MAX || q < i64::MIN {
        i64::MIN
    } else {
        q as i64
    }
}

/// Flooring quotient: the truncating quotient, adjusted down by one when
/// the division is inexact and the operand signs differ.
pub open spec fn sp_floor_div_int(x: i64, y: i64) -> int {
    let q = sp_trunc_div(x, y);
    if sp_trunc_rem(x, y) != 0 && ((x < 0) != (y < 0)) {
        q - 1
    } else {
        q
    }
}

/// Unary minus accepts numbers only and negates with wrapping.
pub open spec fn sp_unary_minus(a: SpecValue) -> Result<SpecValue, SpecError> {
    match a {
        SpecValue::Int(x) => Result::Ok(
            SpecValue::Int(vstd::wrapping::i64_specs::wrapping_sub(0, x)),
        ),
        _ => Result::Err(SpecError::UnaryTypeError(UnaryOp::Minus, sp_type_of(a))),
    }
}

/// `+`: numbers add (wrapping); two tuples concatenate; two strings
/// concatenate; a string beside any other value concatenates with that
/// value's textual form; anything else is a type error.
pub open spec fn sp_add(a: SpecValue, b: SpecValue) -> Result<SpecValue, SpecError> {
    match (a, b) {
        (SpecValue::Int(x), SpecValue::Int(y)) => Result::Ok(
            SpecValue::Int(vstd::wrapping::i64_specs::wrapping_add(x, y)),
        ),
        (SpecValue::Tuple(x), SpecValue::Tuple(y)) => Result::Ok(SpecValue::Tuple(x + y)),
        (SpecValue::Str(x), SpecValue::Str(y)) => Result::Ok(SpecValue::Str(x + y)),
        (SpecValue::Str(x), other) => Result::Ok(SpecValue::Str(x + sp_text(other))),
        (other, SpecValue::Str(y)) => Result::Ok(SpecValue::Str(sp_text(other) + y)),
        _ => Result::Err(
            SpecError::BinaryTypeError(BinaryOp::Add, sp_type_of(a), sp_type_of(b)),
        ),
    }
}

/// `-`, `*`: numbers only, wrapping.
pub open spec fn sp_subtract(a: SpecValue, b: SpecValue) -> Result<SpecValue, SpecError> {
    match (a, b) {
        (SpecValue::Int(x), SpecValue::Int(y)) => Result::Ok(
            SpecValue::Int(vstd::wrapping::i64_specs::wrapping_sub(x, y)),
        ),
        _ => Result::Err(
            SpecError::BinaryTypeError(BinaryOp::Sub, sp_type_of(a), sp_type_of(b)),
        ),
    }
}

pub open spec fn sp_multiply(a: SpecValue, b: SpecValue) -> Result<SpecValue, SpecError> {
    match (a, b) {
        (SpecValue::Int(x), SpecValue::Int(y)) => Result::Ok(
            SpecValue::Int(vstd::wrapping::i64_specs::wrapping_mul(x, y)),
        ),
        _ => Result::Err(
            SpecError::BinaryTypeError(BinaryOp::Mul, sp_type_of(a), sp_type_of(b)),
        ),
    }
}

/// `/`: truncating division of numbers; zero divisor is an error.
pub open spec fn sp_divide(a: SpecValue, b: SpecValue) -> Result<SpecValue, SpecError> {
    match (a, b) {
        (SpecValue::Int(x), SpecValue::Int(y)) => if y == 0 {
            Result::Err(SpecError::DivisionByZero(BinaryOp::Div))
        } else {
            Result::Ok(SpecValue::Int(sp_div_wrap(sp_trunc_div(x, y))))
        },
        _ => Result::Err(
            SpecError::BinaryTypeError(BinaryOp::Div, sp_type_of(a), sp_type_of(b)),
        ),
    }
}

/// `//`: flooring division of numbers, distinct from `/`.
pub open spec fn sp_floor_divide(a: SpecValue, b: SpecValue) -> Result<SpecValue, SpecError> {
    match (a, b) {
        (SpecValue::Int(x), SpecValue::Int(y)) => if y == 0 {
            Result::Err(SpecError::DivisionByZero(BinaryOp::FloorDiv))
        } else {
            Result::Ok(SpecValue::Int(sp_div_wrap(sp_floor_div_int(x, y))))
        },
        _ => Result::Err(
            SpecError::BinaryTypeError(BinaryOp::FloorDiv, sp_type_of(a), sp_type_of(b)),
        ),
    }
}

/// Comparisons accept numbers only and yield booleans.
pub open spec fn sp_compare(op: BinaryOp, a: SpecValue, b: SpecValue) -> Result<
    SpecValue,
    SpecError,
> {
    match (a, b) {
        (SpecValue::Int(x), SpecValue::Int(y)) => Result::Ok(
            SpecValue::Bool(
                match op {
                    BinaryOp::LessThan => x < y,
                    BinaryOp::LessThanOrEqual => x <= y,
                    BinaryOp::GreaterThan => x > y,
                    BinaryOp::GreaterThanOrEqual => x >= y,
                    _ => false,
                },
            ),
        ),
        _ => Result::Err(SpecError::BinaryTypeError(op, sp_type_of(a), sp_type_of(b))),
    }
}

proof fn lemma_view_vals_concat(a: Seq<Value>, b: Seq<Value>)
    ensures
        view_vals(a + b) == view_vals(a) + view_vals(b),
    decreases b,
{
    if b.len() == 0 {
        assert(a + b =~= a);
        assert(view_vals(a) + view_vals(b) =~= view_vals(a));
    } else {
        lemma_view_vals_concat(a, b.drop_last());
        assert((a + b).drop_last() =~= a + b.drop_last());
        assert((a + b).last() == b.last());
        assert(view_vals(a) + view_vals(b) =~= (view_vals(a) + view_vals(b.drop_last())).push(
            crate::value::view_val(b.last()),
        ));
    }
}

/// Unary numeric negation.
pub fn unary_minus(a: Value) -> (r: Result<Value, RuntimeError>)
    ensures
        view_val_res(r) == sp_unary_minus(view_val(a)),
{
    match a {
        Value::Number(Number::Integer(x)) => Result::Ok(
            Value::Number(Number::Integer((0 as i64).wrapping_sub(x))),
        ),
        x => {
            let t = x.get_type();
            Result::Err(RuntimeError::UnaryTypeError(UnaryOp::Minus, t))
        },
    }
}

/// Addition / concatenation / string coercion, as `sp_add` states.
pub fn add(a: Value, b: Value) -> (r: Result<Value, RuntimeError>)
    ensures
        view_val_res(r) == sp_add(view_val(a), view_val(b)),
{
    match (a, b) {
        (Value::Number(Number::Integer(x)), Value::Number(Number::Integer(y))) => Result::Ok(
            Value::Number(Number::Integer(x.wrapping_add(y))),
        ),
        (Value::Tuple(mut x), Value::Tuple(mut y)) => {
            proof {
                lemma_view_vals_concat(x@, y@);
            }
            x.append(&mut y);
            Result::Ok(Value::Tuple(x))
        },
        (Value::Str(x), Value::Str(y)) => Result::Ok(Value::Str(x.concat(y.as_str()))),
        (Value::Str(x), other) => {
            let t = text_of_value(&other);
            Result::Ok(Value::Str(x.concat(t.as_str())))
        },
        (other, Value::Str(y)) => {
            let t = text_of_value(&other);
            Result::Ok(Value::Str(t.concat(y.as_str())))
        },
        (x, y) => {
            let t1 = x.get_type();
            let t2 = y.get_type();
            Result::Err(RuntimeError::BinaryTypeError(BinaryOp::Add, t1, t2))
        },
    }
}

/// Subtraction of numbers.
pub fn subtract(a: Value, b: Value) -> (r: Result<Value, RuntimeError>)
    ensures
        view_val_res(r) == sp_subtract(view_val(a), view_val(b)),
{
    match (a, b) {
        (Value::Number(Number::Integer(x)), Value::Number(Number::Integer(y))) => Result::Ok(
            Value::Number(Number::Integer(x.wrapping_sub(y))),
        ),
        (x, y) => {
            let t1 = x.get_type();
            let t2 = y.get_type();
            Result::Err(RuntimeError::BinaryTypeError(BinaryOp::Sub, t1, t2))
        },
    }
}

/// Multiplication of numbers.
pub fn multiply(a: Value, b: Value) -> (r: Result<Value, RuntimeError>)
    ensures
        view_val_res(r) == sp_multiply(view_val(a), view_val(b)),
{
    match (a, b) {
        (Value::Number(Number::Integer(x)), Value::Number(Number::Integer(y))) => Result::Ok(
            Value::Number(Number::Integer(x.wrapping_mul(y))),
        ),
        (x, y) => {
            let t1 = x.get_type();
            let t2 = y.get_type();
            Result::Err(RuntimeError::BinaryTypeError(BinaryOp::Mul, t1, t2))
        },
    }
}

/// Ordinary (truncating) division of numbers.
pub fn divide(a: Value, b: Value) -> (r: Result<Value, RuntimeError>)
    ensures
        view_val_res(r) == sp_divide(view_val(a), view_val(b)),
{
    match (a, b) {
        (Value::Number(Number::Integer(x)), Value::Number(Number::Integer(y))) => {
            if y == 0 {
                Result::Err(RuntimeError::DivisionByZero(BinaryOp::Div))
            } else {
                match x.checked_div(y) {
                    Option::Some(q) => Result::Ok(Value::Number(Number::Integer(q))),
                    Option::None => Result::Ok(Value::Number(Number::Integer(i64::MIN))),
                }
            }
        },
        (x, y) => {
            let t1 = x.get_type();
            let t2 = y.get_type();
            Result::Err(RuntimeError::BinaryTypeError(BinaryOp::Div, t1, t2))
        },
    }
}

/// Flooring division of numbers: a dedicated operator, distinct from `/`.
pub fn floor_divide(a: Value, b: Value) -> (r: Result<Value, RuntimeError>)
    ensures
        view_val_res(r) == sp_floor_divide(view_val(a), view_val(b)),
{
    match (a, b) {
        (Value::Number(Number::Integer(x)), Value::Number(Number::Integer(y))) => {
            if y == 0 {
                Result::Err(RuntimeError::DivisionByZero(BinaryOp::FloorDiv))
            } else {
                match x.checked_div(y) {
                    Option::Some(q) => {
                        let inexact = match x.checked_rem(y) {
                            Option::Some(r) => r != 0,
                            Option::None => false,
                        };
                        if inexact && ((x < 0) != (y < 0)) {
                            match q.checked_sub(1) {
                                Option::Some(q1) => Result::Ok(
                                    Value::Number(Number::Integer(q1)),
                                ),
                                Option::None => Result::Ok(
                                    Value::Number(Number::Integer(i64::MIN)),
                                ),
                            }
                        } else {
                            Result::Ok(Value::Number(Number::Integer(q)))
                        }
                    },
                    Option::None => Result::Ok(Value::Number(Number::Integer(i64::MIN))),
                }
            }
        },
        (x, y) => {
            let t1 = x.get_type();
            let t2 = y.get_type();
            Result::Err(RuntimeError::BinaryTypeError(BinaryOp::FloorDiv, t1, t2))
        },
    }
}

/// `<` on numbers.
pub fn less_than(a: Value, b: Value) -> (r: Result<Value, RuntimeError>)
    ensures
        view_val_res(r) == sp_compare(BinaryOp::LessThan, view_val(a), view_val(b)),
{
    match (a, b) {
        (Value::Number(Number::Integer(x)), Value::Number(Number::Integer(y))) => Result::Ok(
            Value::Bool(x < y),
        ),
        (x, y) => {
            let t1 = x.get_type();
            let t2 = y.get_type();
            Result::Err(RuntimeError::BinaryTypeError(BinaryOp::LessThan, t1, t2))
        },
    }
}

/// `<=` on numbers.
pub fn less_than_or_equal(a: Value, b: Value) -> (r: Result<Value, RuntimeError>)
    ensures
        view_val_res(r) == sp_compare(BinaryOp::LessThanOrEqual, view_val(a), view_val(b)),
{
    match (a, b) {
        (Value::Number(Number::Integer(x)), Value::Number(Number::Integer(y))) => Result::Ok(
            Value::Bool(x <= y),
        ),
        (x, y) => {
            let t1 = x.get_type();
            let t2 = y.get_type();
            Result::Err(RuntimeError::BinaryTypeError(BinaryOp::LessThanOrEqual, t1, t2))
        },
    }
}

/// `>` on numbers.
pub fn greater_than(a: Value, b: Value) -> (r: Result<Value, RuntimeError>)
    ensures
        view_val_res(r) == sp_compare(BinaryOp::GreaterThan, view_val(a), view_val(b)),
{
    match (a, b) {
        (Value::Number(Number::Integer(x)), Value::Number(Number::Integer(y))) => Result::Ok(
            Value::Bool(x > y),
        ),
        (x, y) => {
            let t1 = x.get_type();
            let t2 = y.get_type();
            Result::Err(RuntimeError::BinaryTypeError(BinaryOp::GreaterThan, t1, t2))
        },
    }
}

/// `>=` on numbers.
pub fn greater_than_or_equal(a: Value, b: Value) -> (r: Result<Value, RuntimeError>)
    ensures
        view_val_res(r) == sp_compare(BinaryOp::GreaterThanOrEqual, view_val(a), view_val(b)),
{
    match (a, b) {
        (Value::Number(Number::Integer(x)), Value::Number(Number::Integer(y))) => Result::Ok(
            Value::Bool(x >= y),
        ),
        (x, y) => {
            let t1 = x.get_type();
            let t2 = y.get_type();
            Result::Err(RuntimeError::BinaryTypeError(BinaryOp::GreaterThanOrEqual, t1, t2))
        },
    }
}

} // verus!

