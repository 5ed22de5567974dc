use balloon_core::ast::BinaryOp;
use balloon_core::ast::BindingType;
use balloon_core::ast::Expr;
use balloon_core::ast::ExprNode;
use balloon_core::ast::LhsExpr;
use balloon_core::ast::Literal;
use balloon_core::ast::Statement;
use balloon_core::ast::StatementNode;
use balloon_core::ast::UnaryOp;
use balloon_core::ast::Variable;
use balloon_core::typechecker::check_binary_arithmetic_for_types;
use balloon_core::typechecker::check_binary_comparison_for_types;
use balloon_core::typechecker::check_program;
use balloon_core::typechecker::check_statements;
use balloon_core::typechecker::check_unary_minus_for_type;
use balloon_core::typechecker::Type;
use balloon_core::typechecker::TypeCheckerIssue;
use balloon_core::typechecker::TypeEnvironment;

fn e(data: Expr) -> ExprNode {
    ExprNode { pos: (0, 0), data }
}

fn st(data: Statement) -> StatementNode {
    StatementNode { pos: (0, 0), data }
}

fn int_lit(i: i64) -> ExprNode {
    e(Expr::Literal(Literal::Integer(i)))
}

fn boolean(b: bool) -> ExprNode {
    e(Expr::Literal(Literal::Bool(b)))
}

fn ident(n: &str) -> ExprNode {
    e(Expr::Identifier(n.to_string()))
}

fn binary(l: ExprNode, op: BinaryOp, r: ExprNode) -> ExprNode {
    e(Expr::BinaryExpression(Box::new(l), op, Box::new(r)))
}

fn decl(name: &str, init: ExprNode) -> StatementNode {
    st(Statement::VariableDeclaration(
        Variable::Identifier(BindingType::Mutable, name.to_string()),
        init,
    ))
}

fn assign(name: &str, rhs: ExprNode) -> StatementNode {
    st(Statement::Assignment(LhsExpr::Identifier(name.to_string()), rhs))
}

#[test]
fn clean_program_checks_ok() {
    let program = vec![
        decl("x", int_lit(1)),
        st(Statement::Expression(binary(ident("x"), BinaryOp::Add, int_lit(2)))),
    ];
    assert!(check_program(&program).is_ok());
}

#[test]
fn branch_merge_disagreement_warns_once_and_forces_any() {
    // let x = 1; if (cond) { x = true; } else { }
    let program = vec![
        decl("cond", boolean(true)),
        decl("x", int_lit(1)),
        st(Statement::IfThenElse(
            ident("cond"),
            Box::new(st(Statement::Block(vec![assign("x", boolean(true))]))),
            Box::new(st(Statement::Block(vec![]))),
        )),
    ];
    let mut env = TypeEnvironment::new();
    env.start_scope();
    let r = check_statements(&program, &mut env);
    let issues = r.expect_err("a branch warning is expected");
    let warnings: Vec<_> = issues
        .iter()
        .filter(|(i, _)| {
            matches!(i, TypeCheckerIssue::MultipleTypesFromBranchWarning(ref n) if n == "x")
        })
        .collect();
    assert_eq!(warnings.len(), 1);
    assert_eq!(issues.len(), 1);
    let x_type = env.get_type(&"x".to_string());
    assert_eq!(x_type, Some(Type::Any));
}

#[test]
fn branch_merge_agreement_keeps_type_and_stays_silent() {
    let program = vec![
        decl("cond", boolean(true)),
        decl("x", int_lit(1)),
        st(Statement::IfThenElse(
            ident("cond"),
            Box::new(st(Statement::Block(vec![assign("x", int_lit(2))]))),
            Box::new(st(Statement::Block(vec![assign("x", int_lit(3))]))),
        )),
    ];
    let mut env = TypeEnvironment::new();
    env.start_scope();
    assert!(check_statements(&program, &mut env).is_ok());
    assert_eq!(env.get_type(&"x".to_string()), Some(Type::Number));
}

#[test]
fn unknown_name_is_static_reference_error() {
    let program = vec![st(Statement::Expression(ident("nowhere")))];
    let issues = check_program(&program).expect_err("a reference error is expected");
    assert_eq!(issues.len(), 1);
    assert!(matches!(issues[0].0, TypeCheckerIssue::ReferenceError(ref n) if n == "nowhere"));
}

#[test]
fn unknown_callee_is_static_reference_error() {
    let program = vec![st(Statement::Expression(e(Expr::FunctionCall(
        Box::new(ident("mystery")),
        vec![],
    ))))];
    let issues = check_program(&program).expect_err("a reference error is expected");
    assert!(matches!(issues[0].0, TypeCheckerIssue::ReferenceError(ref n) if n == "mystery"));
}

#[test]
fn void_builtin_in_value_position_is_none_error() {
    let program = vec![decl(
        "x",
        e(Expr::FunctionCall(Box::new(ident("println")), vec![])),
    )];
    let issues = check_program(&program).expect_err("a none error is expected");
    assert!(matches!(issues[0].0, TypeCheckerIssue::NoneError(Some(ref n)) if n == "println"));
}

#[test]
fn returning_builtin_checks_as_any() {
    let program = vec![
        decl("x", e(Expr::FunctionCall(Box::new(ident("text")), vec![int_lit(1)]))),
        st(Statement::Expression(binary(ident("x"), BinaryOp::Add, int_lit(1)))),
    ];
    assert!(check_program(&program).is_ok());
}

#[test]
fn arithmetic_on_bool_is_static_type_error() {
    let program = vec![st(Statement::Expression(binary(
        boolean(true),
        BinaryOp::Sub,
        int_lit(1),
    )))];
    let issues = check_program(&program).expect_err("a type error is expected");
    assert!(matches!(
        issues[0].0,
        TypeCheckerIssue::BinaryTypeError(BinaryOp::Sub, Type::Bool, Type::Number)
    ));
}

#[test]
fn issues_accumulate_across_siblings() {
    // Both operands fail: both findings are reported.
    let program = vec![st(Statement::Expression(binary(
        ident("ghost_a"),
        BinaryOp::Add,
        ident("ghost_b"),
    )))];
    let issues = check_program(&program).expect_err("two reference errors are expected");
    assert_eq!(issues.len(), 2);
    assert!(matches!(issues[0].0, TypeCheckerIssue::ReferenceError(ref n) if n == "ghost_a"));
    assert!(matches!(issues[1].0, TypeCheckerIssue::ReferenceError(ref n) if n == "ghost_b"));
}

#[test]
fn assignment_to_undeclared_is_static_issue() {
    let program = vec![assign("nowhere", int_lit(1))];
    let issues = check_program(&program).expect_err("an undeclared assignment is expected");
    assert!(
        matches!(issues[0].0, TypeCheckerIssue::UndeclaredAssignment(ref n) if n == "nowhere")
    );
}

#[test]
fn string_literal_checks_as_any() {
    let program = vec![
        decl("s", e(Expr::Literal(Literal::Str("x".to_string())))),
        st(Statement::Expression(binary(ident("s"), BinaryOp::Add, int_lit(1)))),
    ];
    assert!(check_program(&program).is_ok());
}

#[test]
fn declaration_tracks_flow_sensitive_type() {
    let mut env = TypeEnvironment::new();
    env.start_scope();
    let program = vec![decl("x", int_lit(1)), assign("x", boolean(true))];
    assert!(check_statements(&program, &mut env).is_ok());
    assert_eq!(env.get_type(&"x".to_string()), Some(Type::Bool));
}

#[test]
fn block_scope_types_vanish_after_block() {
    let mut env = TypeEnvironment::new();
    env.start_scope();
    let program = vec![st(Statement::Block(vec![decl("inner_only", int_lit(1))]))];
    assert!(check_statements(&program, &mut env).is_ok());
    assert_eq!(env.get_type(&"inner_only".to_string()), None);
}

#[test]
fn leaf_checks_exact_results() {
    assert!(matches!(check_unary_minus_for_type(Type::Number), Ok(Type::Number)));
    assert!(matches!(check_unary_minus_for_type(Type::Any), Ok(Type::Any)));
    assert!(check_unary_minus_for_type(Type::Bool).is_err());

    assert!(matches!(
        check_binary_arithmetic_for_types(BinaryOp::Add, Type::Number, Type::Number),
        Ok(Type::Number)
    ));
    assert!(matches!(
        check_binary_arithmetic_for_types(BinaryOp::Add, Type::Any, Type::Bool),
        Ok(Type::Any)
    ));
    assert!(check_binary_arithmetic_for_types(BinaryOp::Add, Type::Bool, Type::Number).is_err());

    assert!(matches!(
        check_binary_comparison_for_types(BinaryOp::LessThan, Type::Number, Type::Number),
        Ok(Type::Bool)
    ));
    assert!(
        check_binary_comparison_for_types(BinaryOp::LessThan, Type::Bool, Type::Bool).is_err()
    );
}

#[test]
fn unary_minus_issue_carries_operator() {
    let program = vec![st(Statement::Expression(e(Expr::UnaryExpression(
        UnaryOp::Minus,
        Box::new(boolean(true)),
    ))))];
    let issues = check_program(&program).expect_err("a unary type error is expected");
    assert!(matches!(
        issues[0].0,
        TypeCheckerIssue::UnaryTypeError(UnaryOp::Minus, Type::Bool)
    ));
}

#[test]
fn type_environment_scope_and_keys() {
    let mut env = TypeEnvironment::new();
    env.start_scope();
    env.declare(
        &Variable::Identifier(BindingType::Mutable, "a".to_string()),
        &Type::Number,
    );
    env.start_scope();
    env.declare(
        &Variable::Identifier(BindingType::Mutable, "b".to_string()),
        &Type::Bool,
    );
    env.declare(
        &Variable::Identifier(BindingType::Mutable, "a".to_string()),
        &Type::Bool,
    );
    let keys = env.get_all_keys();
    assert_eq!(keys, vec!["a".to_string(), "b".to_string()]);
    assert_eq!(env.get_type(&"a".to_string()), Some(Type::Bool));
    env.end_scope();
    assert_eq!(env.get_type(&"a".to_string()), Some(Type::Number));
    assert_eq!(env.get_type(&"b".to_string()), None);
    assert!(env.set(&"a".to_string(), Type::Any));
    assert_eq!(env.get_type(&"a".to_string()), Some(Type::Any));
    assert!(!env.set(&"b".to_string(), Type::Any));
}

#[test]
fn void_condition_still_checks_then_block() {
    // if (println()) { zzz }  -- the void-call NoneError is recorded and
    // the block is still checked, so the unknown name is reported too.
    let program = vec![st(Statement::IfThen(
        e(Expr::FunctionCall(Box::new(ident("println")), vec![])),
        Box::new(st(Statement::Block(vec![st(Statement::Expression(ident("zzz")))]))),
    ))];
    let issues = check_program(&program).expect_err("two findings are expected");
    assert_eq!(issues.len(), 2);
    assert!(matches!(issues[0].0, TypeCheckerIssue::NoneError(Some(ref n)) if n == "println"));
    assert!(matches!(issues[1].0, TypeCheckerIssue::ReferenceError(ref n) if n == "zzz"));
}

#[test]
fn void_condition_still_checks_both_branches_and_merges() {
    // let x = 1; if (println()) { x = true; } else { }
    let program = vec![
        decl("x", int_lit(1)),
        st(Statement::IfThenElse(
            e(Expr::FunctionCall(Box::new(ident("println")), vec![])),
            Box::new(st(Statement::Block(vec![assign("x", boolean(true))]))),
            Box::new(st(Statement::Block(vec![]))),
        )),
    ];
    let mut env = TypeEnvironment::new();
    env.start_scope();
    let issues = check_statements(&program, &mut env).expect_err("two findings are expected");
    assert_eq!(issues.len(), 2);
    assert!(matches!(issues[0].0, TypeCheckerIssue::NoneError(Some(ref n)) if n == "println"));
    assert!(matches!(
        issues[1].0,
        TypeCheckerIssue::MultipleTypesFromBranchWarning(ref n) if n == "x"
    ));
    assert_eq!(env.get_type(&"x".to_string()), Some(Type::Any));
}
