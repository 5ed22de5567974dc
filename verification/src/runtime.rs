//! Control signals and runtime errors. A run fails fast: the first runtime
//! error aborts the whole run and is returned once, paired with the source
//! position it arose at; errors crossing a call boundary are wrapped so the
//! caller sees that they originated inside a nested call.

use vstd::prelude::*;

use crate::ast::BinaryOp;
use crate::ast::SpanPos;
use crate::ast::UnaryOp;
use crate::value::SpecValue;
use crate::value::Value;
use crate::value::ValueType;
use crate::value::view_val;

verus! {

/// A runtime error, tagged with the operator / type / name / index context
/// that produced it.
pub enum RuntimeError {
    /// A name was found in no scope.
    ReferenceError(String),
    /// Assignment to a name no scope declares; assignment never declares.
    UndeclaredAssignment(String),
    /// A void result appeared where a value is required; carries the callee
    /// name when the void producer was a direct call of a named function.
    NoneError(Option<String>),
    /// Subscript outside a tuple's range (including negative indices).
    IndexOutOfBounds(i64),
    /// Subscript with a non-integral index.
    NonIntegralSubscript(ValueType),
    /// Subscript on a value that is not subscriptable.
    SubscriptOnNonSubscriptable(ValueType),
    /// Calling a value that is not a function.
    CallToNonFunction(Option<String>, ValueType),
    /// Wrong number of arguments for a non-variadic callee.
    ArgumentLength(Option<String>),
    /// An operand kind an unary operator does not accept.
    UnaryTypeError(UnaryOp, ValueType),
    /// Operand kinds a binary operator does not accept.
    BinaryTypeError(BinaryOp, ValueType, ValueType),
    /// Division (or floor division) by zero.
    DivisionByZero(BinaryOp),
    /// The evaluation budget ran out: nesting or iteration too deep.
    StackOverflow,
    /// An error raised inside a nested function call, with the inner
    /// error's own position preserved.
    InsideFunctionCall(Box<(RuntimeError, SpanPos)>),
}

/// An error paired with the source position it arose at.
pub type RuntimeErrorWithPosition = (RuntimeError, SpanPos);

/// The control signal a statement produces.
pub enum StmtResult {
    /// No value (declarations, assignments, void calls, and so on).
    NoValue,
    /// An expression statement's value.
    Value(Value),
    /// A `break`, propagating to the nearest enclosing loop.
    Break,
    /// A `return`, with its optional value, propagating to the call.
    Return(Option<Value>),
}

/// Model of a runtime error.
#[verifier::ext_equal]
pub enum SpecError {
    Reference(Seq<char>),
    Undeclared(Seq<char>),
    NoneVal(Option<Seq<char>>),
    IndexOutOfBounds(i64),
    NonIntegralSubscript(ValueType),
    SubscriptOnNonSubscriptable(ValueType),
    CallToNonFunction(Option<Seq<char>>, ValueType),
    ArgumentLength(Option<Seq<char>>),
    UnaryTypeError(UnaryOp, ValueType),
    BinaryTypeError(BinaryOp, ValueType, ValueType),
    DivisionByZero(BinaryOp),
    StackOverflow,
    Inside(Box<(SpecError, SpanPos)>),
}

/// Model of an error with its position.
pub type SpecErrorPos = (SpecError, SpanPos);

/// Model of a statement's control signal.
#[verifier::ext_equal]
pub enum SpecStmtResult {
    NoValue,
    Value(SpecValue),
    Break,
    Return(Option<SpecValue>),
}

pub open spec fn view_opt_string(o: Option<String>) -> Option<Seq<char>> {
    match o {
        Option::Some(s) => Option::Some(s@),
        Option::None => Option::None,
    }
}

pub open spec fn view_error(e: RuntimeError) -> SpecError
    decreases e,
{
    match e {
        RuntimeError::ReferenceError(n) => SpecError::Reference(n@),
        RuntimeError::UndeclaredAssignment(n) => SpecError::Undeclared(n@),
        RuntimeError::NoneError(n) => SpecError::NoneVal(view_opt_string(n)),
        RuntimeError::IndexOutOfBounds(i) => SpecError::IndexOutOfBounds(i),
        RuntimeError::NonIntegralSubscript(t) => SpecError::NonIntegralSubscript(t),
        RuntimeError::SubscriptOnNonSubscriptable(t) => SpecError::SubscriptOnNonSubscriptable(t),
        RuntimeError::CallToNonFunction(n, t) => SpecError::CallToNonFunction(
            view_opt_string(n),
            t,
        ),
        RuntimeError::ArgumentLength(n) => SpecError::ArgumentLength(view_opt_string(n)),
        RuntimeError::UnaryTypeError(op, t) => SpecError::UnaryTypeError(op, t),
        RuntimeError::BinaryTypeError(op, t1, t2) => SpecError::BinaryTypeError(op, t1, t2),
        RuntimeError::DivisionByZero(op) => SpecError::DivisionByZero(op),
        RuntimeError::StackOverflow => SpecError::StackOverflow,
        RuntimeError::InsideFunctionCall(inner) => SpecError::Inside(
            Box::new((view_error(inner.0), inner.1)),
        ),
    }
}

pub open spec fn view_error_pos(e: RuntimeErrorWithPosition) -> SpecErrorPos {
    (view_error(e.0), e.1)
}

pub open spec fn view_stmt_result(r: StmtResult) -> SpecStmtResult {
    match r {
        StmtResult::NoValue => SpecStmtResult::NoValue,
        StmtResult::Value(v) => SpecStmtResult::Value(view_val(v)),
        StmtResult::Break => SpecStmtResult::Break,
        StmtResult::Return(Option::Some(v)) => SpecStmtResult::Return(
            Option::Some(view_val(v)),
        ),
        StmtResult::Return(Option::None) => SpecStmtResult::Return(Option::None),
    }
}

} // verus!
