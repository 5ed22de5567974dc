//! The statement / expression tree that the evaluator and the type checker
//! walk. Nodes are position-tagged; a position is a byte-offset span in the
//! original source, opaque to this crate.

use std::rc::Rc;
use vstd::prelude::*;

verus! {

/// A source span: start and end offset. The core only carries it through.
pub type SpanPos = (usize, usize);

/// Arithmetic and comparison operators.
#[derive(Clone, Copy)]
pub enum BinaryOp {
    Add,
    Sub,
    Mul,
    Div,
    FloorDiv,
    LessThan,
    LessThanOrEqual,
    GreaterThan,
    GreaterThanOrEqual,
    StrictEquals,
}

/// Short-circuiting logical operators.
#[derive(Clone, Copy)]
pub enum LogicalBinaryOp {
    LogicalAnd,
    LogicalOr,
}

/// Unary numeric operators.
#[derive(Clone, Copy)]
pub enum UnaryOp {
    Minus,
}

/// Unary logical operators.
#[derive(Clone, Copy)]
pub enum LogicalUnaryOp {
    Not,
}

/// A static type constraint written in the source, e.g. on a parameter.
#[derive(Clone, Copy)]
pub enum ConstraintType {
    Number,
    Bool,
}

/// A literal value in the source.
pub enum Literal {
    Integer(i64),
    Bool(bool),
    Str(String),
}

/// The left-hand side of an assignment.
pub enum LhsExpr {
    Identifier(String),
}

/// A variable being declared.
pub enum Variable {
    Identifier(BindingType, String),
}

/// How a declared binding may be used later.
#[derive(Clone, Copy)]
pub enum BindingType {
    Mutable,
}

/// One parameter of a function definition: its name and an optional
/// type constraint.
pub struct Parameter {
    pub name: String,
    pub constraint: Option<ConstraintType>,
}

/// An expression.
pub enum Expr {
    Literal(Literal),
    Identifier(String),
    Tuple(Vec<ExprNode>),
    BinaryExpression(Box<ExprNode>, BinaryOp, Box<ExprNode>),
    BinaryLogicalExpression(Box<ExprNode>, LogicalBinaryOp, Box<ExprNode>),
    UnaryExpression(UnaryOp, Box<ExprNode>),
    UnaryLogicalExpression(LogicalUnaryOp, Box<ExprNode>),
    /// Callee expression and arguments, evaluated left to right.
    FunctionCall(Box<ExprNode>, Vec<ExprNode>),
    /// Optional name, parameters, body, optional declared return type.
    /// The body is shared: a definition expression hands the same tree to
    /// every closure value made from it.
    FunctionDefinition(Option<String>, Vec<Parameter>, Rc<StatementNode>, Option<ConstraintType>),
    /// Subscript: object expression and index expression.
    MemberByIdx(Box<ExprNode>, Box<ExprNode>),
}

/// A position-tagged expression.
pub struct ExprNode {
    pub pos: SpanPos,
    pub data: Expr,
}

/// A statement.
pub enum Statement {
    Assignment(LhsExpr, ExprNode),
    VariableDeclaration(Variable, ExprNode),
    Expression(ExprNode),
    Block(Vec<StatementNode>),
    IfThen(ExprNode, Box<StatementNode>),
    IfThenElse(ExprNode, Box<StatementNode>, Box<StatementNode>),
    Loop(Box<StatementNode>),
    Return(Option<ExprNode>),
    Break,
    Empty,
}

/// A position-tagged statement.
pub struct StatementNode {
    pub pos: SpanPos,
    pub data: Statement,
}

} // verus!
