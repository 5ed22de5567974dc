//! The tree-walking evaluator. Execution is defined twice: once as a pure,
//! fuel-bounded mathematical interpreter over the machine model (the
//! `sp_...` functions below), and once as executable code whose contracts
//! state that it computes exactly what the model names. The fuel bounds
//! loop iterations and call nesting; running out of it is reported as a
//! `StackOverflow` error, never a panic.
//!
//! The machine is the arena of scopes plus the output lines the `println`
//! builtin has produced.

use std::rc::Rc;
use vstd::prelude::*;

use crate::ast::BinaryOp;
use crate::ast::ConstraintType;
use crate::ast::Expr;
use crate::ast::ExprNode;
use crate::ast::LhsExpr;
use crate::ast::Literal;
use crate::ast::LogicalBinaryOp;
use crate::ast::LogicalUnaryOp;
use crate::ast::Parameter;
use crate::ast::Statement;
use crate::ast::StatementNode;
use crate::ast::UnaryOp;
use crate::ast::Variable;
use crate::builtins::sp_println_line;
use crate::environment::Environment;
use crate::environment::SpecScope;
use crate::environment::sp_declare;
use crate::environment::sp_assign;
use crate::environment::sp_lookup;
use crate::environment::sp_new_child;
use crate::environment::sp_root_scopes;
use crate::operations::sp_add;
use crate::operations::sp_compare;
use crate::operations::sp_divide;
use crate::operations::sp_floor_divide;
use crate::operations::sp_multiply;
use crate::operations::sp_subtract;
use crate::operations::sp_unary_minus;
use crate::render::sp_text;
use crate::runtime::RuntimeError;
use crate::runtime::RuntimeErrorWithPosition;
use crate::runtime::SpecError;
use crate::runtime::SpecErrorPos;
use crate::runtime::SpecStmtResult;
use crate::runtime::StmtResult;
use crate::runtime::view_error;
use crate::runtime::view_error_pos;
use crate::runtime::view_opt_string;
use crate::runtime::view_stmt_result;
use crate::value::CallSign;
use crate::value::Function;
use crate::value::NativeFn;
use crate::value::Value;
use crate::value::copy_value;
use crate::value::rc_as_ref;
use crate::value::view_function;
use crate::value::view_val;
use crate::value::view_vals;
use crate::value::SpecCallSign;
use crate::value::SpecFunction;
use crate::value::SpecValue;
use crate::value::sp_truthy;
use crate::value::sp_type_of;
use crate::value::sp_val_eq;

verus! {

/// The machine model: the scope arena and the output produced so far.
#[verifier::ext_equal]
pub struct SpecMachine {
    pub scopes: Seq<SpecScope>,
    pub out: Seq<Seq<char>>,
}

/// The machine a fresh interpreter starts from: a root scope holding the
/// builtin registry's functions, and no output.
pub open spec fn sp_initial_machine() -> SpecMachine {
    SpecMachine {
        scopes: sp_declare(
            sp_declare(
                sp_root_scopes(),
                0,
                crate::builtins::sp_println_name(),
                SpecValue::Function(crate::builtins::sp_println_fn()),
            ),
            0,
            crate::builtins::sp_text_name(),
            SpecValue::Function(crate::builtins::sp_text_fn()),
        ),
        out: Seq::empty(),
    }
}

pub open spec fn sp_with_scopes(m: SpecMachine, scopes: Seq<SpecScope>) -> SpecMachine {
    SpecMachine { scopes: scopes, out: m.out }
}

/// The value a literal denotes.
pub open spec fn sp_literal(l: Literal) -> SpecValue {
    match l {
        Literal::Integer(i) => SpecValue::Int(i),
        Literal::Bool(b) => SpecValue::Bool(b),
        Literal::Str(s) => SpecValue::Str(s@),
    }
}

/// The callee name recorded in errors: present exactly when the expression
/// is a direct call of a named function.
pub open spec fn sp_callee_name(e: ExprNode) -> Option<Seq<char>> {
    match e.data {
        Expr::FunctionCall(callee, _) => match callee.data {
            Expr::Identifier(id) => Option::Some(id@),
            _ => Option::None,
        },
        _ => Option::None,
    }
}

pub open spec fn sp_param_names(ps: Seq<Parameter>) -> Seq<Seq<char>> {
    ps.map_values(|p: Parameter| p.name@)
}

pub open spec fn sp_param_constraints(ps: Seq<Parameter>) -> Seq<
    Option<crate::ast::ConstraintType>,
> {
    ps.map_values(|p: Parameter| p.constraint)
}

/// Binds parameters to arguments positionally in the given scope.
pub open spec fn sp_declare_params(
    scopes: Seq<SpecScope>,
    scope: int,
    names: Seq<Seq<char>>,
    args: Seq<SpecValue>,
) -> Seq<SpecScope>
    decreases names.len(),
{
    if names.len() == 0 || args.len() == 0 {
        scopes
    } else {
        sp_declare_params(
            sp_declare(scopes, scope, names[0], args[0]),
            scope,
            names.drop_first(),
            args.drop_first(),
        )
    }
}

/// What a native callback does to the machine. Neither callback fails; the
/// void one appends a line of output, the returning one renders its
/// argument.
pub open spec fn sp_apply_native(m: SpecMachine, nf: NativeFn, args: Seq<SpecValue>) -> (
    SpecMachine,
    Option<SpecValue>,
) {
    match nf {
        NativeFn::Println => (
            SpecMachine { scopes: m.scopes, out: m.out.push(sp_println_line(args)) },
            Option::None,
        ),
        NativeFn::Text => (
            m,
            Option::Some(
                SpecValue::Str(
                    if args.len() == 1 {
                        sp_text(args[0])
                    } else {
                        Seq::empty()
                    },
                ),
            ),
        ),
    }
}

/// Executes one statement of the model.
pub open spec fn sp_eval_stmt(m: SpecMachine, s: StatementNode, env: int, fuel: nat) -> (
    SpecMachine,
    Result<SpecStmtResult, SpecErrorPos>,
)
    decreases fuel, s, 2int,
{
    match s.data {
        Statement::VariableDeclaration(var, expr) => {
            let (m1, r) = sp_eval_expr_value(m, expr, env, fuel);
            match r {
                Result::Err(e) => (m1, Result::Err(e)),
                Result::Ok(v) => match var {
                    Variable::Identifier(_, name) => (
                        sp_with_scopes(m1, sp_declare(m1.scopes, env, name@, v)),
                        Result::Ok(SpecStmtResult::NoValue),
                    ),
                },
            }
        },
        Statement::Assignment(lhs, expr) => {
            let (m1, r) = sp_eval_expr_value(m, expr, env, fuel);
            match r {
                Result::Err(e) => (m1, Result::Err(e)),
                Result::Ok(v) => match lhs {
                    LhsExpr::Identifier(id) => {
                        let (scopes2, found) = sp_assign(m1.scopes, env, id@, v);
                        if found {
                            (sp_with_scopes(m1, scopes2), Result::Ok(SpecStmtResult::NoValue))
                        } else {
                            (m1, Result::Err((SpecError::Undeclared(id@), s.pos)))
                        }
                    },
                },
            }
        },
        Statement::Block(stmts) => {
            let child = m.scopes.len() as int;
            let m1 = sp_with_scopes(m, sp_new_child(m.scopes, env));
            sp_block_stmts(m1, stmts@, child, fuel)
        },
        Statement::Expression(expr) => {
            let (m1, r) = sp_eval_expr(m, expr, env, fuel);
            match r {
                Result::Err(e) => (m1, Result::Err(e)),
                Result::Ok(Option::None) => (m1, Result::Ok(SpecStmtResult::NoValue)),
                Result::Ok(Option::Some(v)) => (m1, Result::Ok(SpecStmtResult::Value(v))),
            }
        },
        Statement::IfThen(cond, then_b) => {
            let (m1, r) = sp_eval_expr_value(m, cond, env, fuel);
            match r {
                Result::Err(e) => (m1, Result::Err(e)),
                Result::Ok(v) => if sp_truthy(v) {
                    let (m2, r2) = sp_eval_stmt(m1, *then_b, env, fuel);
                    match r2 {
                        Result::Err(e) => (m2, Result::Err(e)),
                        Result::Ok(SpecStmtResult::Break) => (
                            m2,
                            Result::Ok(SpecStmtResult::Break),
                        ),
                        Result::Ok(SpecStmtResult::Return(x)) => (
                            m2,
                            Result::Ok(SpecStmtResult::Return(x)),
                        ),
                        Result::Ok(_) => (m2, Result::Ok(SpecStmtResult::NoValue)),
                    }
                } else {
                    (m1, Result::Ok(SpecStmtResult::NoValue))
                },
            }
        },
        Statement::IfThenElse(cond, then_b, else_b) => {
            let (m1, r) = sp_eval_expr_value(m, cond, env, fuel);
            match r {
                Result::Err(e) => (m1, Result::Err(e)),
                Result::Ok(v) => {
                    let (m2, r2) = if sp_truthy(v) {
                        sp_eval_stmt(m1, *then_b, env, fuel)
                    } else {
                        sp_eval_stmt(m1, *else_b, env, fuel)
                    };
                    match r2 {
                        Result::Err(e) => (m2, Result::Err(e)),
                        Result::Ok(SpecStmtResult::Break) => (
                            m2,
                            Result::Ok(SpecStmtResult::Break),
                        ),
                        Result::Ok(SpecStmtResult::Return(x)) => (
                            m2,
                            Result::Ok(SpecStmtResult::Return(x)),
                        ),
                        Result::Ok(_) => (m2, Result::Ok(SpecStmtResult::NoValue)),
                    }
                },
            }
        },
        Statement::Loop(body) => {
            let child = m.scopes.len() as int;
            let m1 = sp_with_scopes(m, sp_new_child(m.scopes, env));
            sp_run_loop(m1, *body, child, fuel)
        },
        Statement::Return(Option::Some(expr)) => {
            let (m1, r) = sp_eval_expr_value(m, expr, env, fuel);
            match r {
                Result::Err(e) => (m1, Result::Err(e)),
                Result::Ok(v) => (
                    m1,
                    Result::Ok(SpecStmtResult::Return(Option::Some(v))),
                ),
            }
        },
        Statement::Return(Option::None) => (
            m,
            Result::Ok(SpecStmtResult::Return(Option::None)),
        ),
        Statement::Break => (m, Result::Ok(SpecStmtResult::Break)),
        Statement::Empty => (m, Result::Ok(SpecStmtResult::NoValue)),
    }
}

/// Executes the statements of a block, in order, in the block's scope. A
/// `Break` or `Return` from any statement stops the block at once and
/// propagates unchanged; otherwise the block's result is the last
/// statement's result (`NoValue` when empty).
pub open spec fn sp_block_stmts(m: SpecMachine, stmts: Seq<StatementNode>, env: int, fuel: nat) -> (
    SpecMachine,
    Result<SpecStmtResult, SpecErrorPos>,
)
    decreases fuel, stmts, 2int,
{
    if stmts.len() == 0 {
        (m, Result::Ok(SpecStmtResult::NoValue))
    } else {
        let (m1, r) = sp_eval_stmt(m, stmts[0], env, fuel);
        match r {
            Result::Err(e) => (m1, Result::Err(e)),
            Result::Ok(SpecStmtResult::Break) => (m1, Result::Ok(SpecStmtResult::Break)),
            Result::Ok(SpecStmtResult::Return(x)) => (
                m1,
                Result::Ok(SpecStmtResult::Return(x)),
            ),
            Result::Ok(last) => if stmts.len() == 1 {
                (m1, Result::Ok(last))
            } else {
                sp_block_stmts(m1, stmts.drop_first(), env, fuel)
            },
        }
    }
}

/// Executes a program's statements in order against the given scope. The
/// program's result is its last statement's result, `None` when the
/// program is empty; control signals do not stop the sequence here.
pub open spec fn sp_top_stmts(m: SpecMachine, stmts: Seq<StatementNode>, env: int, fuel: nat) -> (
    SpecMachine,
    Result<Option<SpecStmtResult>, SpecErrorPos>,
)
    decreases fuel, stmts, 2int,
{
    if stmts.len() == 0 {
        (m, Result::Ok(Option::None))
    } else {
        let (m1, r) = sp_eval_stmt(m, stmts[0], env, fuel);
        match r {
            Result::Err(e) => (m1, Result::Err(e)),
            Result::Ok(last) => if stmts.len() == 1 {
                (m1, Result::Ok(Option::Some(last)))
            } else {
                sp_top_stmts(m1, stmts.drop_first(), env, fuel)
            },
        }
    }
}

/// Repeats the loop body in the loop's single child scope. `Break` ends
/// the loop with result `NoValue`; `Return` propagates at once; each
/// iteration costs one unit of fuel.
pub open spec fn sp_run_loop(m: SpecMachine, body: StatementNode, env: int, fuel: nat) -> (
    SpecMachine,
    Result<SpecStmtResult, SpecErrorPos>,
)
    decreases fuel, body, 3int,
{
    if fuel == 0 {
        (m, Result::Err((SpecError::StackOverflow, body.pos)))
    } else {
        let (m1, r) = sp_eval_stmt(m, body, env, (fuel - 1) as nat);
        match r {
            Result::Err(e) => (m1, Result::Err(e)),
            Result::Ok(SpecStmtResult::Break) => (m1, Result::Ok(SpecStmtResult::NoValue)),
            Result::Ok(SpecStmtResult::Return(x)) => (
                m1,
                Result::Ok(SpecStmtResult::Return(x)),
            ),
            Result::Ok(_) => sp_run_loop(m1, body, env, (fuel - 1) as nat),
        }
    }
}

/// Evaluates an expression at a value-required site: a void result is the
/// `NoneError`, naming the callee when the void producer is a direct call
/// of a named function.
pub open spec fn sp_eval_expr_value(m: SpecMachine, e: ExprNode, env: int, fuel: nat) -> (
    SpecMachine,
    Result<SpecValue, SpecErrorPos>,
)
    decreases fuel, e, 1int,
{
    let (m1, r) = sp_eval_expr(m, e, env, fuel);
    match r {
        Result::Err(err) => (m1, Result::Err(err)),
        Result::Ok(Option::Some(v)) => (m1, Result::Ok(v)),
        Result::Ok(Option::None) => (
            m1,
            Result::Err((SpecError::NoneVal(sp_callee_name(e)), e.pos)),
        ),
    }
}

/// Evaluates a list of expressions left to right, each value-required,
/// appending the values to the accumulator.
pub open spec fn sp_eval_args(
    m: SpecMachine,
    args: Seq<ExprNode>,
    env: int,
    fuel: nat,
    acc: Seq<SpecValue>,
) -> (SpecMachine, Result<Seq<SpecValue>, SpecErrorPos>)
    decreases fuel, args, 2int,
{
    if args.len() == 0 {
        (m, Result::Ok(acc))
    } else {
        let (m1, r) = sp_eval_expr_value(m, args[0], env, fuel);
        match r {
            Result::Err(e) => (m1, Result::Err(e)),
            Result::Ok(v) => sp_eval_args(m1, args.drop_first(), env, fuel, acc.push(v)),
        }
    }
}

/// Evaluates one expression; `Ok(None)` is the void result of calling a
/// void function.
pub open spec fn sp_eval_expr(m: SpecMachine, e: ExprNode, env: int, fuel: nat) -> (
    SpecMachine,
    Result<Option<SpecValue>, SpecErrorPos>,
)
    decreases fuel, e, 0int,
{
    match e.data {
        Expr::Literal(l) => (m, Result::Ok(Option::Some(sp_literal(l)))),
        Expr::Identifier(id) => {
            match sp_lookup(m.scopes, env, id@) {
                Option::Some(v) => (m, Result::Ok(Option::Some(v))),
                Option::None => (m, Result::Err((SpecError::Reference(id@), e.pos))),
            }
        },
        Expr::Tuple(elems) => {
            let (m1, r) = sp_eval_args(m, elems@, env, fuel, Seq::empty());
            match r {
                Result::Err(err) => (m1, Result::Err(err)),
                Result::Ok(vs) => (m1, Result::Ok(Option::Some(SpecValue::Tuple(vs)))),
            }
        },
        Expr::UnaryExpression(op, inner) => {
            let (m1, r) = sp_eval_expr_value(m, *inner, env, fuel);
            match r {
                Result::Err(err) => (m1, Result::Err(err)),
                Result::Ok(v) => match op {
                    UnaryOp::Minus => match sp_unary_minus(v) {
                        Result::Ok(res) => (m1, Result::Ok(Option::Some(res))),
                        Result::Err(err) => (m1, Result::Err((err, e.pos))),
                    },
                },
            }
        },
        Expr::UnaryLogicalExpression(op, inner) => {
            let (m1, r) = sp_eval_expr_value(m, *inner, env, fuel);
            match r {
                Result::Err(err) => (m1, Result::Err(err)),
                Result::Ok(v) => match op {
                    LogicalUnaryOp::Not => (
                        m1,
                        Result::Ok(Option::Some(SpecValue::Bool(!sp_truthy(v)))),
                    ),
                },
            }
        },
        Expr::BinaryExpression(e1, op, e2) => {
            let (m1, r1) = sp_eval_expr_value(m, *e1, env, fuel);
            match r1 {
                Result::Err(err) => (m1, Result::Err(err)),
                Result::Ok(v1) => {
                    let (m2, r2) = sp_eval_expr_value(m1, *e2, env, fuel);
                    match r2 {
                        Result::Err(err) => (m2, Result::Err(err)),
                        Result::Ok(v2) => {
                            let res = match op {
                                BinaryOp::Add => sp_add(v1, v2),
                                BinaryOp::Sub => sp_subtract(v1, v2),
                                BinaryOp::Mul => sp_multiply(v1, v2),
                                BinaryOp::Div => sp_divide(v1, v2),
                                BinaryOp::FloorDiv => sp_floor_divide(v1, v2),
                                BinaryOp::StrictEquals => Result::Ok(
                                    SpecValue::Bool(sp_val_eq(v1, v2)),
                                ),
                                _ => sp_compare(op, v1, v2),
                            };
                            match res {
                                Result::Ok(v) => (m2, Result::Ok(Option::Some(v))),
                                Result::Err(err) => (m2, Result::Err((err, e.pos))),
                            }
                        },
                    }
                },
            }
        },
        Expr::BinaryLogicalExpression(e1, op, e2) => {
            match op {
                LogicalBinaryOp::LogicalAnd => {
                    let (m1, r1) = sp_eval_expr_value(m, *e1, env, fuel);
                    match r1 {
                        Result::Err(err) => (m1, Result::Err(err)),
                        Result::Ok(v1) => if !sp_truthy(v1) {
                            (m1, Result::Ok(Option::Some(SpecValue::Bool(false))))
                        } else {
                            let (m2, r2) = sp_eval_expr_value(m1, *e2, env, fuel);
                            match r2 {
                                Result::Err(err) => (m2, Result::Err(err)),
                                Result::Ok(v2) => (
                                    m2,
                                    Result::Ok(Option::Some(SpecValue::Bool(sp_truthy(v2)))),
                                ),
                            }
                        },
                    }
                },
                LogicalBinaryOp::LogicalOr => {
                    let (m1, r1) = sp_eval_expr_value(m, *e1, env, fuel);
                    match r1 {
                        Result::Err(err) => (m1, Result::Err(err)),
                        Result::Ok(v1) => if sp_truthy(v1) {
                            (m1, Result::Ok(Option::Some(SpecValue::Bool(true))))
                        } else {
                            let (m2, r2) = sp_eval_expr_value(m1, *e2, env, fuel);
                            match r2 {
                                Result::Err(err) => (m2, Result::Err(err)),
                                Result::Ok(v2) => (
                                    m2,
                                    Result::Ok(Option::Some(SpecValue::Bool(sp_truthy(v2)))),
                                ),
                            }
                        },
                    }
                },
            }
        },
        Expr::MemberByIdx(obj, idx) => {
            let (m1, r1) = sp_eval_expr_value(m, *obj, env, fuel);
            match r1 {
                Result::Err(err) => (m1, Result::Err(err)),
                Result::Ok(ov) => {
                    let (m2, r2) = sp_eval_expr_value(m1, *idx, env, fuel);
                    match r2 {
                        Result::Err(err) => (m2, Result::Err(err)),
                        Result::Ok(iv) => match ov {
                            SpecValue::Tuple(elems) => match iv {
                                SpecValue::Int(i) => if i < 0 || i >= elems.len() {
                                    (m2, Result::Err((SpecError::IndexOutOfBounds(i), e.pos)))
                                } else {
                                    (m2, Result::Ok(Option::Some(elems[i as int])))
                                },
                                _ => (
                                    m2,
                                    Result::Err(
                                        (
                                            SpecError::NonIntegralSubscript(sp_type_of(iv)),
                                            idx.pos,
                                        ),
                                    ),
                                ),
                            },
                            _ => (
                                m2,
                                Result::Err(
                                    (
                                        SpecError::SubscriptOnNonSubscriptable(sp_type_of(ov)),
                                        obj.pos,
                                    ),
                                ),
                            ),
                        },
                    }
                },
            }
        },
        Expr::FunctionDefinition(maybe_name, params, body, ret_type) => {
            let f = SpecFunction::User {
                call_sign: SpecCallSign {
                    num_params: params@.len() as int,
                    variadic: false,
                    param_types: sp_param_constraints(params@),
                },
                params: sp_param_names(params@),
                body: *body,
                env: env,
                ret_type: ret_type,
            };
            let fv = SpecValue::Function(f);
            match maybe_name {
                Option::Some(name) => (
                    sp_with_scopes(m, sp_declare(m.scopes, env, name@, fv)),
                    Result::Ok(Option::Some(fv)),
                ),
                Option::None => (m, Result::Ok(Option::Some(fv))),
            }
        },
        Expr::FunctionCall(callee, args) => {
            let (m1, r1) = sp_eval_expr_value(m, *callee, env, fuel);
            match r1 {
                Result::Err(err) => (m1, Result::Err(err)),
                Result::Ok(SpecValue::Function(f)) => {
                    let (m2, r2) = sp_eval_args(m1, args@, env, fuel, Seq::empty());
                    match r2 {
                        Result::Err(err) => (m2, Result::Err(err)),
                        Result::Ok(avs) => {
                            let cs = sp_call_sign_of(f);
                            if !cs.variadic && cs.num_params != avs.len() {
                                (
                                    m2,
                                    Result::Err(
                                        (SpecError::ArgumentLength(sp_callee_name(e)), e.pos),
                                    ),
                                )
                            } else if fuel == 0 {
                                (m2, Result::Err((SpecError::StackOverflow, e.pos)))
                            } else {
                                let (m3, r3) = sp_call(m2, f, avs, (fuel - 1) as nat);
                                match r3 {
                                    Result::Err(err) => (m3, Result::Err((err, e.pos))),
                                    Result::Ok(opt) => (m3, Result::Ok(opt)),
                                }
                            }
                        },
                    }
                },
                Result::Ok(v) => (
                    m1,
                    Result::Err(
                        (
                            SpecError::CallToNonFunction(sp_callee_name(e), sp_type_of(v)),
                            callee.pos,
                        ),
                    ),
                ),
            }
        },
    }
}

pub open spec fn sp_call_sign_of(f: SpecFunction) -> SpecCallSign {
    match f {
        SpecFunction::NativeVoid(cs, _) => cs,
        SpecFunction::NativeReturning(cs, _) => cs,
        SpecFunction::User { call_sign, .. } => call_sign,
    }
}

/// Calls a function value on already evaluated arguments. Native
/// callbacks run directly. A user function gets a parameter scope that is
/// a child of its captured defining scope, and one further nested scope
/// for its body; `Return` yields the call's value, any other outcome is
/// void, and an error inside is wrapped to record that it crossed a call
/// boundary, preserving its original position.
pub open spec fn sp_call(m: SpecMachine, f: SpecFunction, args: Seq<SpecValue>, fuel: nat) -> (
    SpecMachine,
    Result<Option<SpecValue>, SpecError>,
)
    decreases fuel, f->User_body, 3int,
{
    match f {
        SpecFunction::NativeVoid(_, nf) => {
            let (m1, _r) = sp_apply_native(m, nf, args);
            (m1, Result::Ok(Option::None))
        },
        SpecFunction::NativeReturning(_, nf) => {
            let (m1, r) = sp_apply_native(m, nf, args);
            (m1, Result::Ok(r))
        },
        SpecFunction::User { params, body, env, .. } => {
            let pscope = m.scopes.len() as int;
            let scopes1 = sp_new_child(m.scopes, env);
            let scopes2 = sp_declare_params(scopes1, pscope, params, args);
            let inner = scopes2.len() as int;
            let scopes3 = sp_new_child(scopes2, pscope);
            let m1 = sp_with_scopes(m, scopes3);
            let (m2, r) = sp_eval_stmt(m1, body, inner, fuel);
            match r {
                Result::Err(e) => (m2, Result::Err(SpecError::Inside(Box::new(e)))),
                Result::Ok(SpecStmtResult::Return(Option::Some(v))) => (
                    m2,
                    Result::Ok(Option::Some(v)),
                ),
                Result::Ok(SpecStmtResult::Return(Option::None)) => (
                    m2,
                    Result::Ok(Option::None),
                ),
                Result::Ok(_) => (m2, Result::Ok(Option::None)),
            }
        },
    }
}

/// Running a whole program: its statements in order from the root scope.
pub open spec fn sp_run_program(m: SpecMachine, program: Seq<StatementNode>, env: int, fuel: nat)
    -> (SpecMachine, Result<Option<SpecStmtResult>, SpecErrorPos>) {
    sp_top_stmts(m, program, env, fuel)
}

/// The tree-walking interpreter: the scope arena, the output produced so
/// far, and the index of the root scope.
pub struct AstWalkInterpreter {
    env: Environment,
    output: Vec<String>,
    root_env: usize,
}

impl View for AstWalkInterpreter {
    type V = SpecMachine;

    closed spec fn view(&self) -> SpecMachine {
        SpecMachine { scopes: self.env@, out: self.output@.map_values(|s: String| s@) }
    }
}

impl AstWalkInterpreter {
    /// The index of the root scope in the arena.
    pub closed spec fn spec_root_env(self) -> int {
        self.root_env as int
    }

    /// The root scope's index; every run starts there.
    pub fn root_env(&self) -> (r: usize)
        ensures
            r as int == self.spec_root_env(),
    {
        self.root_env
    }
}

pub open spec fn view_stmt_res(r: Result<StmtResult, RuntimeErrorWithPosition>) -> Result<
    SpecStmtResult,
    SpecErrorPos,
> {
    match r {
        Result::Ok(sr) => Result::Ok(view_stmt_result(sr)),
        Result::Err(e) => Result::Err(view_error_pos(e)),
    }
}

pub open spec fn view_opt_stmt_res(r: Result<Option<StmtResult>, RuntimeErrorWithPosition>)
    -> Result<Option<SpecStmtResult>, SpecErrorPos> {
    match r {
        Result::Ok(Option::Some(sr)) => Result::Ok(Option::Some(view_stmt_result(sr))),
        Result::Ok(Option::None) => Result::Ok(Option::None),
        Result::Err(e) => Result::Err(view_error_pos(e)),
    }
}

pub open spec fn view_expr_res(r: Result<Option<Value>, RuntimeErrorWithPosition>) -> Result<
    Option<SpecValue>,
    SpecErrorPos,
> {
    match r {
        Result::Ok(Option::Some(v)) => Result::Ok(Option::Some(view_val(v))),
        Result::Ok(Option::None) => Result::Ok(Option::None),
        Result::Err(e) => Result::Err(view_error_pos(e)),
    }
}

pub open spec fn view_value_res(r: Result<Value, RuntimeErrorWithPosition>) -> Result<
    SpecValue,
    SpecErrorPos,
> {
    match r {
        Result::Ok(v) => Result::Ok(view_val(v)),
        Result::Err(e) => Result::Err(view_error_pos(e)),
    }
}

pub open spec fn view_vals_res(r: Result<Vec<Value>, RuntimeErrorWithPosition>) -> Result<
    Seq<SpecValue>,
    SpecErrorPos,
> {
    match r {
        Result::Ok(vs) => Result::Ok(view_vals(vs@)),
        Result::Err(e) => Result::Err(view_error_pos(e)),
    }
}

pub open spec fn view_call_res(r: Result<Option<Value>, RuntimeError>) -> Result<
    Option<SpecValue>,
    SpecError,
> {
    match r {
        Result::Ok(Option::Some(v)) => Result::Ok(Option::Some(view_val(v))),
        Result::Ok(Option::None) => Result::Ok(Option::None),
        Result::Err(e) => Result::Err(view_error(e)),
    }
}

/// The name recorded in errors for a direct call of a named function.
pub(crate) fn callee_name(e: &ExprNode) -> (r: Option<String>)
    ensures
        view_opt_string(r) == sp_callee_name(*e),
{
    match &e.data {
        Expr::FunctionCall(callee, _) => match &callee.data {
            Expr::Identifier(id) => Option::Some(id.clone()),
            _ => Option::None,
        },
        _ => Option::None,
    }
}

fn names_of(params: &Vec<Parameter>) -> (r: Vec<String>)
    ensures
        crate::value::view_strings(r@) =~= sp_param_names(params@),
{
    let mut r: Vec<String> = Vec::new();
    let mut i: usize = 0;
    while i < params.len()
        invariant
            0 <= i <= params@.len(),
            r@.len() == i,
            forall|j: int| 0 <= j < i ==> r@[j]@ == params@[j].name@,
        decreases params@.len() - i,
    {
        r.push(params[i].name.clone());
        i = i + 1;
    }
    r
}

fn constraints_of(params: &Vec<Parameter>) -> (r: Vec<Option<ConstraintType>>)
    ensures
        r@ =~= sp_param_constraints(params@),
{
    let mut r: Vec<Option<ConstraintType>> = Vec::new();
    let mut i: usize = 0;
    while i < params.len()
        invariant
            0 <= i <= params@.len(),
            r@.len() == i,
            forall|j: int| 0 <= j < i ==> r@[j] == params@[j].constraint,
        decreases params@.len() - i,
    {
        let c = match &params[i].constraint {
            Option::Some(ConstraintType::Number) => Option::Some(ConstraintType::Number),
            Option::Some(ConstraintType::Bool) => Option::Some(ConstraintType::Bool),
            Option::None => Option::None,
        };
        r.push(c);
        i = i + 1;
    }
    r
}

/// Validates an argument list against a call signature: a non-variadic
/// callee demands exactly its number of parameters. The result is `Ok`
/// exactly when the signature is variadic or the counts match; otherwise
/// it is the `ArgumentLength` error, naming the callee when the call
/// expression names one.
pub fn check_args_compat(arg_vals: &Vec<Value>, call_sign: &CallSign, expr: &ExprNode) -> (r:
    Result<(), RuntimeErrorWithPosition>)
    ensures
        r is Ok <==> (call_sign.variadic || call_sign.num_params == arg_vals@.len()),
        r is Err ==> view_error_pos(r->Err_0) == (
            SpecError::ArgumentLength(sp_callee_name(*expr)),
            expr.pos,
        ),
{
    if !call_sign.variadic && call_sign.num_params != arg_vals.len() {
        Result::Err((RuntimeError::ArgumentLength(callee_name(expr)), expr.pos))
    } else {
        Result::Ok(())
    }
}

fn interpret_statement(it: &mut AstWalkInterpreter, s: &StatementNode, env: usize, fuel: u64)
    -> (r: Result<StmtResult, RuntimeErrorWithPosition>)
    ensures
        final(it).spec_root_env() == old(it).spec_root_env(),
        final(it)@ == sp_eval_stmt(old(it)@, *s, env as int, fuel as nat).0,
        view_stmt_res(r) == sp_eval_stmt(old(it)@, *s, env as int, fuel as nat).1,
    decreases fuel, *s, 2int,
{
    match &s.data {
        Statement::VariableDeclaration(var, expr) => {
            match interpret_expr_as_value(it, expr, env, fuel) {
                Result::Err(e) => Result::Err(e),
                Result::Ok(v) => {
                    match var {
                        Variable::Identifier(_, name) => {
                            it.env.declare(env, name, v);
                        },
                    }
                    Result::Ok(StmtResult::NoValue)
                },
            }
        },
        Statement::Assignment(lhs, expr) => {
            match interpret_expr_as_value(it, expr, env, fuel) {
                Result::Err(e) => Result::Err(e),
                Result::Ok(v) => {
                    match lhs {
                        LhsExpr::Identifier(id) => {
                            if it.env.set(env, id, v) {
                                Result::Ok(StmtResult::NoValue)
                            } else {
                                Result::Err(
                                    (RuntimeError::UndeclaredAssignment(id.clone()), s.pos),
                                )
                            }
                        },
                    }
                },
            }
        },
        Statement::Block(stmts) => {
            proof {
                assert(*stmts == s.data->Block_0);
                assert(decreases_to!(*s => s.data));
                assert(decreases_to!(s.data => s.data->Block_0));
                assert(decreases_to!(*stmts => stmts@));
                assert(stmts@.subrange(0, stmts@.len() as int) =~= stmts@);
            }
            let child = it.env.create_child(env);
            interpret_block_stmts(it, stmts, 0, child, fuel)
        },
        Statement::Expression(expr) => {
            match interpret_expr(it, expr, env, fuel) {
                Result::Err(e) => Result::Err(e),
                Result::Ok(Option::None) => Result::Ok(StmtResult::NoValue),
                Result::Ok(Option::Some(v)) => Result::Ok(StmtResult::Value(v)),
            }
        },
        Statement::IfThen(cond, then_b) => {
            match interpret_expr_as_value(it, cond, env, fuel) {
                Result::Err(e) => Result::Err(e),
                Result::Ok(v) => {
                    if v.is_truthy() {
                        match interpret_statement(it, then_b, env, fuel) {
                            Result::Err(e) => Result::Err(e),
                            Result::Ok(StmtResult::Break) => Result::Ok(StmtResult::Break),
                            Result::Ok(StmtResult::Return(x)) => Result::Ok(
                                StmtResult::Return(x),
                            ),
                            Result::Ok(_) => Result::Ok(StmtResult::NoValue),
                        }
                    } else {
                        Result::Ok(StmtResult::NoValue)
                    }
                },
            }
        },
        Statement::IfThenElse(cond, then_b, else_b) => {
            match interpret_expr_as_value(it, cond, env, fuel) {
                Result::Err(e) => Result::Err(e),
                Result::Ok(v) => {
                    let branch_r = if v.is_truthy() {
                        interpret_statement(it, then_b, env, fuel)
                    } else {
                        interpret_statement(it, else_b, env, fuel)
                    };
                    match branch_r {
                        Result::Err(e) => Result::Err(e),
                        Result::Ok(StmtResult::Break) => Result::Ok(StmtResult::Break),
                        Result::Ok(StmtResult::Return(x)) => Result::Ok(StmtResult::Return(x)),
                        Result::Ok(_) => Result::Ok(StmtResult::NoValue),
                    }
                },
            }
        },
        Statement::Loop(body) => {
            let child = it.env.create_child(env);
            run_loop(it, body, child, fuel)
        },
        Statement::Return(Option::Some(expr)) => {
            match interpret_expr_as_value(it, expr, env, fuel) {
                Result::Err(e) => Result::Err(e),
                Result::Ok(v) => Result::Ok(StmtResult::Return(Option::Some(v))),
            }
        },
        Statement::Return(Option::None) => Result::Ok(StmtResult::Return(Option::None)),
        Statement::Break => Result::Ok(StmtResult::Break),
        Statement::Empty => Result::Ok(StmtResult::NoValue),
    }
}

fn interpret_block_stmts(
    it: &mut AstWalkInterpreter,
    stmts: &Vec<StatementNode>,
    idx: usize,
    env: usize,
    fuel: u64,
) -> (r: Result<StmtResult, RuntimeErrorWithPosition>)
    requires
        idx <= stmts@.len(),
    ensures
        final(it).spec_root_env() == old(it).spec_root_env(),
        final(it)@ == sp_block_stmts(
            old(it)@,
            stmts@.subrange(idx as int, stmts@.len() as int),
            env as int,
            fuel as nat,
        ).0,
        view_stmt_res(r) == sp_block_stmts(
            old(it)@,
            stmts@.subrange(idx as int, stmts@.len() as int),
            env as int,
            fuel as nat,
        ).1,
    decreases fuel, stmts@.subrange(idx as int, stmts@.len() as int), 2int,
{
    let ghost rest = stmts@.subrange(idx as int, stmts@.len() as int);
    if idx == stmts.len() {
        Result::Ok(StmtResult::NoValue)
    } else {
        proof {
            assert(rest[0] == stmts@[idx as int]);
            assert(decreases_to!(rest => rest[0]));
            assert(rest.drop_first() =~= stmts@.subrange(idx + 1, stmts@.len() as int));
            assert(decreases_to!(rest => rest.drop_first()));
        }
        match interpret_statement(it, &stmts[idx], env, fuel) {
            Result::Err(e) => Result::Err(e),
            Result::Ok(StmtResult::Break) => Result::Ok(StmtResult::Break),
            Result::Ok(StmtResult::Return(x)) => Result::Ok(StmtResult::Return(x)),
            Result::Ok(last) => {
                if idx + 1 == stmts.len() {
                    Result::Ok(last)
                } else {
                    interpret_block_stmts(it, stmts, idx + 1, env, fuel)
                }
            },
        }
    }
}

fn interpret_statements_from(
    it: &mut AstWalkInterpreter,
    stmts: &Vec<StatementNode>,
    idx: usize,
    env: usize,
    fuel: u64,
) -> (r: Result<Option<StmtResult>, RuntimeErrorWithPosition>)
    requires
        idx <= stmts@.len(),
    ensures
        final(it).spec_root_env() == old(it).spec_root_env(),
        final(it)@ == sp_top_stmts(
            old(it)@,
            stmts@.subrange(idx as int, stmts@.len() as int),
            env as int,
            fuel as nat,
        ).0,
        view_opt_stmt_res(r) == sp_top_stmts(
            old(it)@,
            stmts@.subrange(idx as int, stmts@.len() as int),
            env as int,
            fuel as nat,
        ).1,
    decreases fuel, stmts@.subrange(idx as int, stmts@.len() as int), 2int,
{
    let ghost rest = stmts@.subrange(idx as int, stmts@.len() as int);
    if idx == stmts.len() {
        Result::Ok(Option::None)
    } else {
        proof {
            assert(rest[0] == stmts@[idx as int]);
            assert(decreases_to!(rest => rest[0]));
            assert(rest.drop_first() =~= stmts@.subrange(idx + 1, stmts@.len() as int));
            assert(decreases_to!(rest => rest.drop_first()));
        }
        match interpret_statement(it, &stmts[idx], env, fuel) {
            Result::Err(e) => Result::Err(e),
            Result::Ok(last) => {
                if idx + 1 == stmts.len() {
                    Result::Ok(Option::Some(last))
                } else {
                    interpret_statements_from(it, stmts, idx + 1, env, fuel)
                }
            },
        }
    }
}

fn run_loop(it: &mut AstWalkInterpreter, body: &StatementNode, env: usize, fuel: u64) -> (r:
    Result<StmtResult, RuntimeErrorWithPosition>)
    ensures
        final(it).spec_root_env() == old(it).spec_root_env(),
        final(it)@ == sp_run_loop(old(it)@, *body, env as int, fuel as nat).0,
        view_stmt_res(r) == sp_run_loop(old(it)@, *body, env as int, fuel as nat).1,
    decreases fuel, *body, 3int,
{
    if fuel == 0 {
        Result::Err((RuntimeError::StackOverflow, body.pos))
    } else {
        match interpret_statement(it, body, env, fuel - 1) {
            Result::Err(e) => Result::Err(e),
            Result::Ok(StmtResult::Break) => Result::Ok(StmtResult::NoValue),
            Result::Ok(StmtResult::Return(x)) => Result::Ok(StmtResult::Return(x)),
            Result::Ok(_) => run_loop(it, body, env, fuel - 1),
        }
    }
}

fn interpret_expr_as_value(it: &mut AstWalkInterpreter, e: &ExprNode, env: usize, fuel: u64)
    -> (r: Result<Value, RuntimeErrorWithPosition>)
    ensures
        final(it).spec_root_env() == old(it).spec_root_env(),
        final(it)@ == sp_eval_expr_value(old(it)@, *e, env as int, fuel as nat).0,
        view_value_res(r) == sp_eval_expr_value(old(it)@, *e, env as int, fuel as nat).1,
    decreases fuel, *e, 1int,
{
    match interpret_expr(it, e, env, fuel) {
        Result::Err(err) => Result::Err(err),
        Result::Ok(Option::Some(v)) => Result::Ok(v),
        Result::Ok(Option::None) => Result::Err(
            (RuntimeError::NoneError(callee_name(e)), e.pos),
        ),
    }
}

fn interpret_args(
    it: &mut AstWalkInterpreter,
    args: &Vec<ExprNode>,
    idx: usize,
    env: usize,
    fuel: u64,
    acc: Vec<Value>,
) -> (r: Result<Vec<Value>, RuntimeErrorWithPosition>)
    requires
        idx <= args@.len(),
    ensures
        final(it).spec_root_env() == old(it).spec_root_env(),
        final(it)@ == sp_eval_args(
            old(it)@,
            args@.subrange(idx as int, args@.len() as int),
            env as int,
            fuel as nat,
            view_vals(acc@),
        ).0,
        view_vals_res(r) == sp_eval_args(
            old(it)@,
            args@.subrange(idx as int, args@.len() as int),
            env as int,
            fuel as nat,
            view_vals(acc@),
        ).1,
    decreases fuel, args@.subrange(idx as int, args@.len() as int), 2int,
{
    let ghost rest = args@.subrange(idx as int, args@.len() as int);
    if idx == args.len() {
        Result::Ok(acc)
    } else {
        proof {
            assert(rest[0] == args@[idx as int]);
            assert(decreases_to!(rest => rest[0]));
            assert(rest.drop_first() =~= args@.subrange(idx + 1, args@.len() as int));
            assert(decreases_to!(rest => rest.drop_first()));
        }
        match interpret_expr_as_value(it, &args[idx], env, fuel) {
            Result::Err(e) => Result::Err(e),
            Result::Ok(v) => {
                let mut acc2 = acc;
                proof {
                    crate::value::lemma_view_vals_push(acc2@, v);
                }
                acc2.push(v);
                interpret_args(it, args, idx + 1, env, fuel, acc2)
            },
        }
    }
}

#[verifier::rlimit(100)]
fn interpret_expr(it: &mut AstWalkInterpreter, e: &ExprNode, env: usize, fuel: u64) -> (r:
    Result<Option<Value>, RuntimeErrorWithPosition>)
    ensures
        final(it).spec_root_env() == old(it).spec_root_env(),
        final(it)@ == sp_eval_expr(old(it)@, *e, env as int, fuel as nat).0,
        view_expr_res(r) == sp_eval_expr(old(it)@, *e, env as int, fuel as nat).1,
    decreases fuel, *e, 0int,
{
    match &e.data {
        Expr::Literal(l) => {
            let v = match l {
                Literal::Integer(i) => Value::Number(crate::value::Number::Integer(*i)),
                Literal::Bool(b) => Value::Bool(*b),
                Literal::Str(s) => Value::Str(s.clone()),
            };
            Result::Ok(Option::Some(v))
        },
        Expr::Identifier(id) => {
            match it.env.get(env, id) {
                Option::Some(v) => Result::Ok(Option::Some(v)),
                Option::None => Result::Err((RuntimeError::ReferenceError(id.clone()), e.pos)),
            }
        },
        Expr::Tuple(elems) => {
            proof {
                assert(*elems == e.data->Tuple_0);
                assert(decreases_to!(*e => e.data));
                assert(decreases_to!(e.data => e.data->Tuple_0));
                assert(decreases_to!(*elems => elems@));
                assert(elems@.subrange(0, elems@.len() as int) =~= elems@);
            }
            match interpret_args(it, elems, 0, env, fuel, Vec::new()) {
                Result::Err(err) => Result::Err(err),
                Result::Ok(vs) => Result::Ok(Option::Some(Value::Tuple(vs))),
            }
        },
        Expr::UnaryExpression(op, inner) => {
            match interpret_expr_as_value(it, inner, env, fuel) {
                Result::Err(err) => Result::Err(err),
                Result::Ok(v) => match op {
                    UnaryOp::Minus => match crate::operations::unary_minus(v) {
                        Result::Ok(res) => Result::Ok(Option::Some(res)),
                        Result::Err(err) => Result::Err((err, e.pos)),
                    },
                },
            }
        },
        Expr::UnaryLogicalExpression(op, inner) => {
            match interpret_expr_as_value(it, inner, env, fuel) {
                Result::Err(err) => Result::Err(err),
                Result::Ok(v) => match op {
                    LogicalUnaryOp::Not => Result::Ok(Option::Some(Value::Bool(!v.is_truthy()))),
                },
            }
        },
        Expr::BinaryExpression(e1, op, e2) => {
            match interpret_expr_as_value(it, e1, env, fuel) {
                Result::Err(err) => Result::Err(err),
                Result::Ok(v1) => {
                    match interpret_expr_as_value(it, e2, env, fuel) {
                        Result::Err(err) => Result::Err(err),
                        Result::Ok(v2) => {
                            let res = match op {
                                BinaryOp::Add => crate::operations::add(v1, v2),
                                BinaryOp::Sub => crate::operations::subtract(v1, v2),
                                BinaryOp::Mul => crate::operations::multiply(v1, v2),
                                BinaryOp::Div => crate::operations::divide(v1, v2),
                                BinaryOp::FloorDiv => crate::operations::floor_divide(v1, v2),
                                BinaryOp::StrictEquals => Result::Ok(
                                    Value::Bool(crate::value::value_eq(&v1, &v2)),
                                ),
                                BinaryOp::LessThan => crate::operations::less_than(v1, v2),
                                BinaryOp::LessThanOrEqual => crate::operations::less_than_or_equal(
                                    v1,
                                    v2,
                                ),
                                BinaryOp::GreaterThan => crate::operations::greater_than(v1, v2),
                                BinaryOp::GreaterThanOrEqual =>
                                    crate::operations::greater_than_or_equal(v1, v2),
                            };
                            match res {
                                Result::Ok(v) => Result::Ok(Option::Some(v)),
                                Result::Err(err) => Result::Err((err, e.pos)),
                            }
                        },
                    }
                },
            }
        },
        Expr::BinaryLogicalExpression(e1, op, e2) => {
            match op {
                LogicalBinaryOp::LogicalAnd => {
                    match interpret_expr_as_value(it, e1, env, fuel) {
                        Result::Err(err) => Result::Err(err),
                        Result::Ok(v1) => {
                            if !v1.is_truthy() {
                                Result::Ok(Option::Some(Value::Bool(false)))
                            } else {
                                match interpret_expr_as_value(it, e2, env, fuel) {
                                    Result::Err(err) => Result::Err(err),
                                    Result::Ok(v2) => Result::Ok(
                                        Option::Some(Value::Bool(v2.is_truthy())),
                                    ),
                                }
                            }
                        },
                    }
                },
                LogicalBinaryOp::LogicalOr => {
                    match interpret_expr_as_value(it, e1, env, fuel) {
                        Result::Err(err) => Result::Err(err),
                        Result::Ok(v1) => {
                            if v1.is_truthy() {
                                Result::Ok(Option::Some(Value::Bool(true)))
                            } else {
                                match interpret_expr_as_value(it, e2, env, fuel) {
                                    Result::Err(err) => Result::Err(err),
                                    Result::Ok(v2) => Result::Ok(
                                        Option::Some(Value::Bool(v2.is_truthy())),
                                    ),
                                }
                            }
                        },
                    }
                },
            }
        },
        Expr::MemberByIdx(obj, idx) => {
            match interpret_expr_as_value(it, obj, env, fuel) {
                Result::Err(err) => Result::Err(err),
                Result::Ok(ov) => {
                    match interpret_expr_as_value(it, idx, env, fuel) {
                        Result::Err(err) => Result::Err(err),
                        Result::Ok(iv) => match ov {
                            Value::Tuple(elems) => match iv {
                                Value::Number(crate::value::Number::Integer(i)) => {
                                    proof {
                                        crate::value::lemma_view_vals_len(elems@);
                                    }
                                    if i < 0 || (i as u64) >= (elems.len() as u64) {
                                        Result::Err(
                                            (RuntimeError::IndexOutOfBounds(i), e.pos),
                                        )
                                    } else {
                                        proof {
                                            crate::value::lemma_view_vals_index(elems@, i as int);
                                        }
                                        Result::Ok(
                                            Option::Some(copy_value(&elems[i as usize])),
                                        )
                                    }
                                },
                                non_int => {
                                    let t = non_int.get_type();
                                    Result::Err(
                                        (RuntimeError::NonIntegralSubscript(t), idx.pos),
                                    )
                                },
                            },
                            other => {
                                let t = other.get_type();
                                Result::Err(
                                    (RuntimeError::SubscriptOnNonSubscriptable(t), obj.pos),
                                )
                            },
                        },
                    }
                },
            }
        },
        Expr::FunctionDefinition(maybe_name, params, body, ret_type) => {
            let f = Function::User {
                call_sign: CallSign {
                    num_params: params.len(),
                    variadic: false,
                    param_types: constraints_of(params),
                },
                param_names: names_of(params),
                body: crate::value::rc_share(body),
                env: env,
                ret_type: match ret_type {
                    Option::Some(ConstraintType::Number) => Option::Some(ConstraintType::Number),
                    Option::Some(ConstraintType::Bool) => Option::Some(ConstraintType::Bool),
                    Option::None => Option::None,
                },
            };
            let fv = Value::Function(Box::new(f));
            proof {
                assert(view_val(fv) =~= sp_eval_expr(old(it)@, *e, env as int, fuel as nat).1
                    ->Ok_0->Some_0);
            }
            match maybe_name {
                Option::Some(name) => {
                    let copy = copy_value(&fv);
                    it.env.declare(env, name, copy);
                    Result::Ok(Option::Some(fv))
                },
                Option::None => Result::Ok(Option::Some(fv)),
            }
        },
        Expr::FunctionCall(callee, args) => {
            match interpret_expr_as_value(it, callee, env, fuel) {
                Result::Err(err) => Result::Err(err),
                Result::Ok(Value::Function(fbox)) => {
                    proof {
                        assert(*args == e.data->FunctionCall_1);
                        assert(decreases_to!(*e => e.data));
                        assert(decreases_to!(e.data => e.data->FunctionCall_1));
                        assert(decreases_to!(*args => args@));
                        assert(args@.subrange(0, args@.len() as int) =~= args@);
                    }
                    match interpret_args(it, args, 0, env, fuel, Vec::new()) {
                        Result::Err(err) => Result::Err(err),
                        Result::Ok(avs) => {
                            proof {
                                crate::value::lemma_view_vals_len(avs@);
                            }
                            match check_args_compat(&avs, (&*fbox).get_call_sign(), e) {
                                Result::Err(err) => Result::Err(err),
                                Result::Ok(_u) => {
                                    if fuel == 0 {
                                        Result::Err((RuntimeError::StackOverflow, e.pos))
                                    } else {
                                        match call_func(it, &fbox, &avs, fuel - 1) {
                                            Result::Err(err) => Result::Err((err, e.pos)),
                                            Result::Ok(opt) => Result::Ok(opt),
                                        }
                                    }
                                },
                            }
                        },
                    }
                },
                Result::Ok(v) => {
                    let t = v.get_type();
                    Result::Err(
                        (RuntimeError::CallToNonFunction(callee_name(e), t), callee.pos),
                    )
                },
            }
        },
    }
}

fn declare_params(
    it: &mut AstWalkInterpreter,
    names: &Vec<String>,
    args: &Vec<Value>,
    scope: usize,
    idx: usize,
)
    requires
        idx <= names@.len(),
    ensures
        final(it).spec_root_env() == old(it).spec_root_env(),
        final(it)@.scopes == sp_declare_params(
            old(it)@.scopes,
            scope as int,
            crate::value::view_strings(names@).subrange(idx as int, names@.len() as int),
            view_vals(args@).subrange(
                if idx as int <= args@.len() { idx as int } else { args@.len() as int },
                args@.len() as int,
            ),
        ),
        final(it)@.out == old(it)@.out,
    decreases names@.len() - idx,
{
    proof {
        crate::value::lemma_view_vals_len(args@);
    }
    if idx < names.len() && idx < args.len() {
        let ghost nrest = crate::value::view_strings(names@).subrange(
            idx as int,
            names@.len() as int,
        );
        let ghost arest = view_vals(args@).subrange(idx as int, args@.len() as int);
        proof {
            crate::value::lemma_view_vals_index(args@, idx as int);
            assert(nrest[0] == names@[idx as int]@);
            assert(arest[0] == view_val(args@[idx as int]));
            assert(nrest.drop_first() =~= crate::value::view_strings(names@).subrange(
                idx + 1,
                names@.len() as int,
            ));
            assert(arest.drop_first() =~= view_vals(args@).subrange(
                idx + 1,
                args@.len() as int,
            ));
        }
        let v = copy_value(&args[idx]);
        it.env.declare(scope, &names[idx], v);
        declare_params(it, names, args, scope, idx + 1);
    }
}

/// Calls a function value on already evaluated arguments: the calling
/// convention of the language. Dispatches on the closed set of function
/// variants; for a user function it builds the parameter scope as a child
/// of the captured defining scope, one further nested scope for the body,
/// interprets the body, and interprets `Return` as the call's result.
pub fn call_func(it: &mut AstWalkInterpreter, func: &Function, args: &Vec<Value>, fuel: u64)
    -> (r: Result<Option<Value>, RuntimeError>)
    ensures
        final(it).spec_root_env() == old(it).spec_root_env(),
        final(it)@ == sp_call(old(it)@, view_function(*func), view_vals(args@), fuel as nat).0,
        view_call_res(r) == sp_call(old(it)@, view_function(*func), view_vals(args@), fuel as nat).1,
    decreases fuel, func->User_body, 3int,
{
    match func {
        Function::NativeVoid(_, nf) => {
            match nf {
                NativeFn::Println => {
                    let line = crate::builtins::println_line(args);
                    it.output.push(line);
                    proof {
                        assert(it@.out =~= old(it)@.out.push(
                            sp_println_line(view_vals(args@)),
                        ));
                        assert(it@ =~= sp_call(
                            old(it)@,
                            view_function(*func),
                            view_vals(args@),
                            fuel as nat,
                        ).0);
                    }
                },
                NativeFn::Text => {},
            }
            Result::Ok(Option::None)
        },
        Function::NativeReturning(_, nf) => {
            // The registry only hands out `Text` as value-returning, but
            // dispatch is total over both tags in either variant.
            match nf {
                NativeFn::Println => {
                    let line = crate::builtins::println_line(args);
                    it.output.push(line);
                    proof {
                        assert(it@.out =~= old(it)@.out.push(
                            sp_println_line(view_vals(args@)),
                        ));
                        assert(it@ =~= sp_call(
                            old(it)@,
                            view_function(*func),
                            view_vals(args@),
                            fuel as nat,
                        ).0);
                    }
                    Result::Ok(Option::None)
                },
                NativeFn::Text => {
                    proof {
                        crate::value::lemma_view_vals_len(args@);
                    }
                    let s = if args.len() == 1 {
                        proof {
                            crate::value::lemma_view_vals_index(args@, 0);
                        }
                        crate::render::text_of_value(&args[0])
                    } else {
                        String::new()
                    };
                    Result::Ok(Option::Some(Value::Str(s)))
                },
            }
        },
        Function::User { call_sign: _, param_names, body, env: fenv, ret_type: _ } => {
            let pscope = it.env.create_child(*fenv);
            proof {
                crate::value::lemma_view_vals_len(args@);
                assert(crate::value::view_strings(param_names@).subrange(
                    0,
                    param_names@.len() as int,
                ) =~= crate::value::view_strings(param_names@));
                assert(view_vals(args@).subrange(0, args@.len() as int) =~= view_vals(args@));
            }
            declare_params(it, param_names, args, pscope, 0);
            proof {
                lemma_declare_params_len(
                    sp_new_child(old(it)@.scopes, *fenv as int),
                    pscope as int,
                    crate::value::view_strings(param_names@),
                    view_vals(args@),
                );
            }
            let inner = it.env.create_child(pscope);
            let b = rc_as_ref(body);
            match interpret_statement(it, b, inner, fuel) {
                Result::Err(ep) => Result::Err(RuntimeError::InsideFunctionCall(Box::new(ep))),
                Result::Ok(StmtResult::Return(Option::Some(v))) => Result::Ok(Option::Some(v)),
                Result::Ok(StmtResult::Return(Option::None)) => Result::Ok(Option::None),
                Result::Ok(_) => Result::Ok(Option::None),
            }
        },
    }
}

proof fn lemma_declare_params_len(
    scopes: Seq<SpecScope>,
    scope: int,
    names: Seq<Seq<char>>,
    args: Seq<SpecValue>,
)
    ensures
        sp_declare_params(scopes, scope, names, args).len() == scopes.len(),
    decreases names.len(),
{
    if names.len() != 0 && args.len() != 0 {
        lemma_declare_params_len(
            sp_declare(scopes, scope, names[0], args[0]),
            scope,
            names.drop_first(),
            args.drop_first(),
        );
    }
}

impl AstWalkInterpreter {
    /// A fresh interpreter: a root environment holding the builtin
    /// registry's functions, and no output yet.
    pub fn new() -> (it: AstWalkInterpreter)
        ensures
            it@ == sp_initial_machine(),
            it.spec_root_env() == 0,
    {
        proof {
            reveal_strlit("println");
            reveal_strlit("text");
        }
        let mut env = Environment::new_root();
        let println_key = String::from_str("println");
        let text_key = String::from_str("text");
        proof {
            assert(println_key@ =~= crate::builtins::sp_println_name());
            assert(text_key@ =~= crate::builtins::sp_text_name());
        }
        match crate::builtins::get_builtin_from_name(&println_key) {
            Option::Some(f) => {
                env.declare(0, &println_key, Value::Function(Box::new(f)));
            },
            Option::None => {
                proof {
                    assert(false);
                }
            },
        }
        match crate::builtins::get_builtin_from_name(&text_key) {
            Option::Some(f) => {
                env.declare(0, &text_key, Value::Function(Box::new(f)));
            },
            Option::None => {
                proof {
                    assert(false);
                }
            },
        }
        let it = AstWalkInterpreter { env, output: Vec::new(), root_env: 0 };
        proof {
            assert(it@.out =~= Seq::<Seq<char>>::empty());
            assert(it@ =~= sp_initial_machine());
        }
        it
    }

    /// Runs a sequence of statements against the root environment; the
    /// result is the last statement's control signal, `None` when there
    /// are no statements.
    pub fn run_ast_as_statements(&mut self, statements: &Vec<StatementNode>, fuel: u64) -> (r:
        Result<Option<StmtResult>, RuntimeErrorWithPosition>)
        ensures
            final(self)@ == sp_run_program(
                old(self)@,
                statements@,
                old(self).spec_root_env(),
                fuel as nat,
            ).0,
            view_opt_stmt_res(r) == sp_run_program(
                old(self)@,
                statements@,
                old(self).spec_root_env(),
                fuel as nat,
            ).1,
            final(self).spec_root_env() == old(self).spec_root_env(),
    {
        proof {
            assert(statements@.subrange(0, statements@.len() as int) =~= statements@);
        }
        let root = self.root_env;
        interpret_statements_from(self, statements, 0, root, fuel)
    }

    /// Runs a whole program: the same as running its statements in order.
    pub fn run_ast_as_program(&mut self, program: &Vec<StatementNode>, fuel: u64) -> (r: Result<
        Option<StmtResult>,
        RuntimeErrorWithPosition,
    >)
        ensures
            final(self)@ == sp_run_program(
                old(self)@,
                program@,
                old(self).spec_root_env(),
                fuel as nat,
            ).0,
            view_opt_stmt_res(r) == sp_run_program(
                old(self)@,
                program@,
                old(self).spec_root_env(),
                fuel as nat,
            ).1,
            final(self).spec_root_env() == old(self).spec_root_env(),
    {
        self.run_ast_as_statements(program, fuel)
    }

    /// The output lines the run has produced so far, oldest first.
    pub fn output_lines(&self) -> (r: &Vec<String>)
        ensures
            r@.map_values(|s: String| s@) == self@.out,
    {
        &self.output
    }
}

/// A loop whose body signals `Break` on its first iteration terminates at
/// once, with result `NoValue` and with exactly the machine the body left.
pub proof fn lemma_loop_breaks_immediately(
    m: SpecMachine,
    body: StatementNode,
    env: int,
    fuel: nat,
    m1: SpecMachine,
)
    requires
        fuel > 0,
        sp_eval_stmt(m, body, env, (fuel - 1) as nat) == (
            m1,
            Result::<SpecStmtResult, SpecErrorPos>::Ok(SpecStmtResult::Break),
        ),
    ensures
        sp_run_loop(m, body, env, fuel) == (
            m1,
            Result::<SpecStmtResult, SpecErrorPos>::Ok(SpecStmtResult::NoValue),
        ),
{
}

/// The value-required rule's backing invariant: a void result can only
/// come from a function call expression. Every other expression either
/// produces a value or fails, so the `NoneError` that value-required
/// sites raise always concerns a call.
pub proof fn lemma_void_result_is_a_call(m: SpecMachine, e: ExprNode, env: int, fuel: nat)
    ensures
        sp_eval_expr(m, e, env, fuel).1 matches Result::Ok(v) && v is None ==> e.data matches
            Expr::FunctionCall(_, _),
{
}

/// Determinism: a run's outcome is a function of the program, the
/// starting machine and the budget alone. Two runs of the same program
/// from equal machines — in particular, from two fresh root environments,
/// whose machines are both `sp_initial_machine()` — end in identical
/// machines with identical results.
pub proof fn lemma_run_deterministic(
    m1: SpecMachine,
    m2: SpecMachine,
    program: Seq<StatementNode>,
    env: int,
    fuel: nat,
)
    requires
        m1 == m2,
    ensures
        sp_run_program(m1, program, env, fuel) == sp_run_program(m2, program, env, fuel),
{
}

/// Short-circuit of `and`: when the left operand evaluates to a falsy
/// value, the whole conjunction is `Bool(false)` and the right operand is
/// never evaluated — the machine is exactly the one the left operand left,
/// whatever the right operand is (it need not even name declared
/// functions).
pub proof fn lemma_and_short_circuit(
    m: SpecMachine,
    e: ExprNode,
    e1: ExprNode,
    e2: ExprNode,
    m1: SpecMachine,
    v1: SpecValue,
    env: int,
    fuel: nat,
)
    requires
        e.data matches Expr::BinaryLogicalExpression(l, op, r) && *l == e1 && op
            == LogicalBinaryOp::LogicalAnd && *r == e2,
        sp_eval_expr_value(m, e1, env, fuel) == (m1, Result::<SpecValue, SpecErrorPos>::Ok(v1)),
        !sp_truthy(v1),
    ensures
        sp_eval_expr(m, e, env, fuel) == (
            m1,
            Result::<Option<SpecValue>, SpecErrorPos>::Ok(
                Option::Some(SpecValue::Bool(false)),
            ),
        ),
{
}

/// Short-circuit of `or`: when the left operand evaluates to a truthy
/// value, the whole disjunction is `Bool(true)` and the right operand is
/// never evaluated.
pub proof fn lemma_or_short_circuit(
    m: SpecMachine,
    e: ExprNode,
    e1: ExprNode,
    e2: ExprNode,
    m1: SpecMachine,
    v1: SpecValue,
    env: int,
    fuel: nat,
)
    requires
        e.data matches Expr::BinaryLogicalExpression(l, op, r) && *l == e1 && op
            == LogicalBinaryOp::LogicalOr && *r == e2,
        sp_eval_expr_value(m, e1, env, fuel) == (m1, Result::<SpecValue, SpecErrorPos>::Ok(v1)),
        sp_truthy(v1),
    ensures
        sp_eval_expr(m, e, env, fuel) == (
            m1,
            Result::<Option<SpecValue>, SpecErrorPos>::Ok(Option::Some(SpecValue::Bool(true))),
        ),
{
}

} // verus!
