use std::rc::Rc;

use balloon_core::ast::BinaryOp;
use balloon_core::ast::BindingType;
use balloon_core::ast::Expr;
use balloon_core::ast::ExprNode;
use balloon_core::ast::LhsExpr;
use balloon_core::ast::Literal;
use balloon_core::ast::LogicalBinaryOp;
use balloon_core::ast::LogicalUnaryOp;
use balloon_core::ast::Parameter;
use balloon_core::ast::Statement;
use balloon_core::ast::StatementNode;
use balloon_core::ast::Variable;
use balloon_core::ast_walk_interpreter::AstWalkInterpreter;
use balloon_core::runtime::RuntimeError;
use balloon_core::runtime::StmtResult;
use balloon_core::value::value_eq;
use balloon_core::value::Number;
use balloon_core::value::Value;

const FUEL: u64 = 100_000;

fn e(data: Expr) -> ExprNode {
    ExprNode { pos: (0, 0), data }
}

fn st(data: Statement) -> StatementNode {
    StatementNode { pos: (0, 0), data }
}

fn int_lit(i: i64) -> ExprNode {
    e(Expr::Literal(Literal::Integer(i)))
}

fn boolean(b: bool) -> ExprNode {
    e(Expr::Literal(Literal::Bool(b)))
}

fn strlit(s: &str) -> ExprNode {
    e(Expr::Literal(Literal::Str(s.to_string())))
}

fn ident(n: &str) -> ExprNode {
    e(Expr::Identifier(n.to_string()))
}

fn binary(l: ExprNode, op: BinaryOp, r: ExprNode) -> ExprNode {
    e(Expr::BinaryExpression(Box::new(l), op, Box::new(r)))
}

fn decl(name: &str, init: ExprNode) -> StatementNode {
    st(Statement::VariableDeclaration(
        Variable::Identifier(BindingType::Mutable, name.to_string()),
        init,
    ))
}

fn assign(name: &str, rhs: ExprNode) -> StatementNode {
    st(Statement::Assignment(LhsExpr::Identifier(name.to_string()), rhs))
}

fn call(callee: ExprNode, args: Vec<ExprNode>) -> ExprNode {
    e(Expr::FunctionCall(Box::new(callee), args))
}

fn fn_def(name: Option<&str>, params: Vec<&str>, body: Vec<StatementNode>) -> ExprNode {
    e(Expr::FunctionDefinition(
        name.map(|s| s.to_string()),
        params
            .into_iter()
            .map(|p| Parameter { name: p.to_string(), constraint: None })
            .collect(),
        Rc::new(st(Statement::Block(body))),
        None,
    ))
}

fn run(program: Vec<StatementNode>) -> Result<Option<StmtResult>, (RuntimeError, (usize, usize))> {
    let mut it = AstWalkInterpreter::new();
    it.run_ast_as_program(&program, FUEL)
}

fn expect_value(r: Result<Option<StmtResult>, (RuntimeError, (usize, usize))>) -> Value {
    match r {
        Ok(Some(StmtResult::Value(v))) => v,
        _ => panic!("expected a value result"),
    }
}

fn num(i: i64) -> Value {
    Value::Number(Number::Integer(i))
}

#[test]
fn empty_program_yields_no_result() {
    let r = run(vec![]);
    assert!(matches!(r, Ok(None)));
}

#[test]
fn literal_expression_is_program_result() {
    let v = expect_value(run(vec![st(Statement::Expression(int_lit(42)))]));
    assert!(value_eq(&v, &num(42)));
}

#[test]
fn determinism_two_fresh_interpreters_agree() {
    let program = vec![
        decl("x", int_lit(3)),
        st(Statement::Expression(call(ident("println"), vec![ident("x")]))),
        st(Statement::Expression(binary(ident("x"), BinaryOp::Mul, int_lit(14)))),
    ];
    let mut it1 = AstWalkInterpreter::new();
    let mut it2 = AstWalkInterpreter::new();
    let r1 = it1.run_ast_as_program(&program, FUEL);
    let r2 = it2.run_ast_as_program(&program, FUEL);
    let v1 = expect_value(r1);
    let v2 = expect_value(r2);
    assert!(value_eq(&v1, &v2));
    assert!(value_eq(&v1, &num(42)));
    assert_eq!(it1.output_lines(), it2.output_lines());
    assert_eq!(it1.output_lines()[0], "3");
}

#[test]
fn shadowing_inner_declaration_leaves_outer_alone() {
    let program = vec![
        decl("x", int_lit(1)),
        st(Statement::Block(vec![decl("x", int_lit(2))])),
        st(Statement::Expression(ident("x"))),
    ];
    let v = expect_value(run(program));
    assert!(value_eq(&v, &num(1)));
}

#[test]
fn shadowing_inner_assignment_mutates_outer() {
    let program = vec![
        decl("x", int_lit(1)),
        st(Statement::Block(vec![assign("x", int_lit(2))])),
        st(Statement::Expression(ident("x"))),
    ];
    let v = expect_value(run(program));
    assert!(value_eq(&v, &num(2)));
}

#[test]
fn assignment_to_undeclared_name_fails() {
    let program = vec![assign("nowhere", int_lit(1))];
    let r = run(program);
    assert!(matches!(r, Err((RuntimeError::UndeclaredAssignment(ref n), _)) if n == "nowhere"));
}

#[test]
fn short_circuit_and_skips_undefined_callee() {
    let program = vec![st(Statement::Expression(e(Expr::BinaryLogicalExpression(
        Box::new(boolean(false)),
        LogicalBinaryOp::LogicalAnd,
        Box::new(call(ident("undefinedFn"), vec![])),
    ))))];
    let v = expect_value(run(program));
    assert!(matches!(v, Value::Bool(false)));
}

#[test]
fn short_circuit_or_skips_undefined_callee() {
    let program = vec![st(Statement::Expression(e(Expr::BinaryLogicalExpression(
        Box::new(boolean(true)),
        LogicalBinaryOp::LogicalOr,
        Box::new(call(ident("undefinedFn"), vec![])),
    ))))];
    let v = expect_value(run(program));
    assert!(matches!(v, Value::Bool(true)));
}

#[test]
fn and_evaluates_right_operand_when_left_truthy() {
    let program = vec![st(Statement::Expression(e(Expr::BinaryLogicalExpression(
        Box::new(boolean(true)),
        LogicalBinaryOp::LogicalAnd,
        Box::new(call(ident("undefinedFn"), vec![])),
    ))))];
    let r = run(program);
    assert!(matches!(r, Err((RuntimeError::ReferenceError(ref n), _)) if n == "undefinedFn"));
}

fn two_param_program(n_args: usize) -> Vec<StatementNode> {
    let args: Vec<ExprNode> = (0..n_args as i64).map(int_lit).collect();
    vec![
        decl(
            "add2",
            fn_def(
                None,
                vec!["a", "b"],
                vec![st(Statement::Return(Some(binary(
                    ident("a"),
                    BinaryOp::Add,
                    ident("b"),
                ))))],
            ),
        ),
        st(Statement::Expression(call(ident("add2"), args))),
    ]
}

#[test]
fn arity_two_param_function_rejects_one_argument() {
    let r = run(two_param_program(1));
    assert!(matches!(r, Err((RuntimeError::ArgumentLength(Some(ref n)), _)) if n == "add2"));
}

#[test]
fn arity_two_param_function_rejects_three_arguments() {
    let r = run(two_param_program(3));
    assert!(matches!(r, Err((RuntimeError::ArgumentLength(Some(ref n)), _)) if n == "add2"));
}

#[test]
fn arity_two_param_function_accepts_two_arguments() {
    let v = expect_value(run(two_param_program(2)));
    assert!(value_eq(&v, &num(1)));
}

fn tuple_index_program(idx: i64) -> Vec<StatementNode> {
    vec![st(Statement::Expression(e(Expr::MemberByIdx(
        Box::new(e(Expr::Tuple(vec![int_lit(10), int_lit(20), int_lit(30)]))),
        Box::new(int_lit(idx)),
    ))))]
}

#[test]
fn tuple_index_in_range() {
    let v = expect_value(run(tuple_index_program(1)));
    assert!(value_eq(&v, &num(20)));
}

#[test]
fn tuple_index_past_end_is_out_of_bounds() {
    let r = run(tuple_index_program(5));
    assert!(matches!(r, Err((RuntimeError::IndexOutOfBounds(5), _))));
}

#[test]
fn tuple_index_negative_is_out_of_bounds() {
    let r = run(tuple_index_program(-1));
    assert!(matches!(r, Err((RuntimeError::IndexOutOfBounds(-1), _))));
}

#[test]
fn closure_counter_mutates_defining_scope() {
    // let mk = fn() { let mutable n = 0; return fn() { n = n + 1; return n; }; };
    // let counter = mk(); counter(); counter();  -- the second call yields 2.
    let inner = fn_def(
        None,
        vec![],
        vec![
            assign("n", binary(ident("n"), BinaryOp::Add, int_lit(1))),
            st(Statement::Return(Some(ident("n")))),
        ],
    );
    let mk = fn_def(
        None,
        vec![],
        vec![decl("n", int_lit(0)), st(Statement::Return(Some(inner)))],
    );
    let program = vec![
        decl("mk", mk),
        decl("counter", call(ident("mk"), vec![])),
        st(Statement::Expression(call(ident("counter"), vec![]))),
        st(Statement::Expression(call(ident("counter"), vec![]))),
    ];
    let v = expect_value(run(program));
    assert!(value_eq(&v, &num(2)));
}

#[test]
fn named_function_definition_allows_self_recursion() {
    // let f = fn fact(n) { if (n < 1) { return 1; } return n * fact(n - 1); };
    let body = vec![
        st(Statement::IfThen(
            binary(ident("n"), BinaryOp::LessThan, int_lit(1)),
            Box::new(st(Statement::Block(vec![st(Statement::Return(Some(int_lit(1))))]))),
        )),
        st(Statement::Return(Some(binary(
            ident("n"),
            BinaryOp::Mul,
            call(ident("fact"), vec![binary(ident("n"), BinaryOp::Sub, int_lit(1))]),
        )))),
    ];
    let program = vec![
        st(Statement::Expression(fn_def(Some("fact"), vec!["n"], body))),
        st(Statement::Expression(call(ident("fact"), vec![int_lit(5)]))),
    ];
    let v = expect_value(run(program));
    assert!(value_eq(&v, &num(120)));
}

#[test]
fn loop_with_break_terminates_with_no_value() {
    let program = vec![st(Statement::Loop(Box::new(st(Statement::Block(vec![st(
        Statement::Break,
    )])))))];
    let r = run(program);
    assert!(matches!(r, Ok(Some(StmtResult::NoValue))));
}

#[test]
fn loop_without_break_reports_stack_overflow() {
    let program = vec![st(Statement::Loop(Box::new(st(Statement::Block(vec![st(
        Statement::Empty,
    )])))))];
    let mut it = AstWalkInterpreter::new();
    let r = it.run_ast_as_program(&program, 50);
    assert!(matches!(r, Err((RuntimeError::StackOverflow, _))));
}

#[test]
fn loop_scope_is_created_once_and_kept_across_iterations() {
    // let mutable i = 0; loop { i = i + 1; if (2 < i) { break; } } i
    let program = vec![
        decl("i", int_lit(0)),
        st(Statement::Loop(Box::new(st(Statement::Block(vec![
            assign("i", binary(ident("i"), BinaryOp::Add, int_lit(1))),
            st(Statement::IfThen(
                binary(int_lit(2), BinaryOp::LessThan, ident("i")),
                Box::new(st(Statement::Block(vec![st(Statement::Break)]))),
            )),
        ]))))),
        st(Statement::Expression(ident("i"))),
    ];
    let v = expect_value(run(program));
    assert!(value_eq(&v, &num(3)));
}

#[test]
fn string_coercion_number_plus_string() {
    let v = expect_value(run(vec![st(Statement::Expression(binary(
        int_lit(1),
        BinaryOp::Add,
        strlit("x"),
    )))]));
    match v {
        Value::Str(s) => assert_eq!(s, "1x"),
        _ => panic!("expected a string"),
    }
}

#[test]
fn string_coercion_string_plus_number() {
    let v = expect_value(run(vec![st(Statement::Expression(binary(
        strlit("x"),
        BinaryOp::Add,
        int_lit(1),
    )))]));
    match v {
        Value::Str(s) => assert_eq!(s, "x1"),
        _ => panic!("expected a string"),
    }
}

#[test]
fn println_appends_one_output_line() {
    let program = vec![st(Statement::Expression(call(
        ident("println"),
        vec![int_lit(1), strlit("two"), boolean(true)],
    )))];
    let mut it = AstWalkInterpreter::new();
    let r = it.run_ast_as_program(&program, FUEL);
    assert!(matches!(r, Ok(Some(StmtResult::NoValue))));
    let lines = it.output_lines();
    assert_eq!(lines.len(), 1);
    assert_eq!(lines[0], "1 two true");
}

#[test]
fn println_as_value_is_none_error_naming_callee() {
    let program = vec![decl("x", call(ident("println"), vec![]))];
    let r = run(program);
    assert!(matches!(r, Err((RuntimeError::NoneError(Some(ref n)), _)) if n == "println"));
}

#[test]
fn text_builtin_renders_tuples() {
    let program = vec![st(Statement::Expression(call(
        ident("text"),
        vec![e(Expr::Tuple(vec![int_lit(1), strlit("a"), boolean(false)]))],
    )))];
    let v = expect_value(run(program));
    match v {
        Value::Str(s) => assert_eq!(s, "(1, a, false)"),
        _ => panic!("expected a string"),
    }
}

#[test]
fn calling_a_number_is_call_to_non_function() {
    let program = vec![decl("n", int_lit(5)), st(Statement::Expression(call(ident("n"), vec![])))];
    let r = run(program);
    assert!(matches!(r, Err((RuntimeError::CallToNonFunction(Some(ref n), _), _)) if n == "n"));
}

#[test]
fn unknown_identifier_is_reference_error() {
    let r = run(vec![st(Statement::Expression(ident("ghost_name")))]);
    assert!(matches!(r, Err((RuntimeError::ReferenceError(ref n), _)) if n == "ghost_name"));
}

#[test]
fn subscript_on_number_rejected() {
    let program = vec![st(Statement::Expression(e(Expr::MemberByIdx(
        Box::new(int_lit(4)),
        Box::new(int_lit(0)),
    ))))];
    let r = run(program);
    assert!(matches!(r, Err((RuntimeError::SubscriptOnNonSubscriptable(_), _))));
}

#[test]
fn subscript_with_bool_index_rejected() {
    let program = vec![st(Statement::Expression(e(Expr::MemberByIdx(
        Box::new(e(Expr::Tuple(vec![int_lit(1)]))),
        Box::new(boolean(true)),
    ))))];
    let r = run(program);
    assert!(matches!(r, Err((RuntimeError::NonIntegralSubscript(_), _))));
}

#[test]
fn error_inside_call_is_wrapped() {
    let program = vec![
        decl(
            "f",
            fn_def(None, vec![], vec![st(Statement::Expression(ident("missing")))]),
        ),
        st(Statement::Expression(call(ident("f"), vec![]))),
    ];
    let r = run(program);
    match r {
        Err((RuntimeError::InsideFunctionCall(inner), _)) => {
            assert!(matches!(inner.0, RuntimeError::ReferenceError(ref n) if n == "missing"));
        }
        _ => panic!("expected a wrapped error"),
    }
}

#[test]
fn if_then_else_takes_exactly_one_branch() {
    let program = vec![
        decl("x", int_lit(0)),
        st(Statement::IfThenElse(
            boolean(false),
            Box::new(st(Statement::Block(vec![assign("x", int_lit(1))]))),
            Box::new(st(Statement::Block(vec![assign("x", int_lit(2))]))),
        )),
        st(Statement::Expression(ident("x"))),
    ];
    let v = expect_value(run(program));
    assert!(value_eq(&v, &num(2)));
}

#[test]
fn logical_not_uses_truthiness() {
    let not = |inner: ExprNode| {
        e(Expr::UnaryLogicalExpression(LogicalUnaryOp::Not, Box::new(inner)))
    };
    let v = expect_value(run(vec![st(Statement::Expression(not(boolean(true))))]));
    assert!(matches!(v, Value::Bool(false)));
    let v = expect_value(run(vec![st(Statement::Expression(not(int_lit(0))))]));
    assert!(matches!(v, Value::Bool(true)));
    let v = expect_value(run(vec![st(Statement::Expression(not(strlit(""))))]));
    assert!(matches!(v, Value::Bool(true)));
}

#[test]
fn strict_equals_never_fails_across_kinds() {
    let v = expect_value(run(vec![st(Statement::Expression(binary(
        int_lit(1),
        BinaryOp::StrictEquals,
        boolean(true),
    )))]));
    assert!(matches!(v, Value::Bool(false)));
    let v = expect_value(run(vec![st(Statement::Expression(binary(
        int_lit(1),
        BinaryOp::StrictEquals,
        int_lit(1),
    )))]));
    assert!(matches!(v, Value::Bool(true)));
}

#[test]
fn return_outside_value_sites_propagates_through_blocks() {
    // A Return inside a nested block stops the function body at once.
    let f = fn_def(
        None,
        vec![],
        vec![
            st(Statement::Block(vec![st(Statement::Return(Some(int_lit(7))))])),
            st(Statement::Expression(ident("never_reached"))),
        ],
    );
    let program = vec![
        decl("f", f),
        st(Statement::Expression(call(ident("f"), vec![]))),
    ];
    let v = expect_value(run(program));
    assert!(value_eq(&v, &num(7)));
}
