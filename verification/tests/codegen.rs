use greyhawk::ast::Assignment;
use greyhawk::ast::BinOp;
use greyhawk::ast::BinaryOperator;
use greyhawk::ast::Declaration;
use greyhawk::ast::Expression;
use greyhawk::ast::FunctionDecl;
use greyhawk::ast::Statement;
use greyhawk::ast::Statements;
use greyhawk::codegen::convert_last_expression_to_return;
use greyhawk::codegen::evaluate_expr;
use greyhawk::codegen::evaluate_stat;
use greyhawk::codegen::generate_ops;
use greyhawk::codegen::CallPolicy;
use greyhawk::codegen::CompileError;
use greyhawk::function::Function;
use greyhawk::function::Op;
use greyhawk::scope::Scope;
use greyhawk::types::get_int_type;
use greyhawk::types::INT_TYPE_ID;

fn const_int(v: i64) -> Expression {
    Expression::ConstInt { value: v }
}

fn ret(e: Expression) -> Box<Statement> {
    Box::new(Statement::Return(e))
}

fn decl(name: &str, e: Expression) -> Box<Statement> {
    Box::new(Statement::Declaration(Declaration { name: name.to_string(), expression: e }))
}

#[test]
fn allocate_local_indices_increase_from_zero() {
    let mut scope = Scope::new();
    let a = scope.allocate_local(get_int_type());
    let b = scope.allocate_local(get_int_type());
    let c = scope.allocate_local(get_int_type());
    assert_eq!(a.index, 0);
    assert_eq!(b.index, 1);
    assert_eq!(c.index, 2);
    assert_ne!(a.index, b.index);
    assert_ne!(b.index, c.index);
    assert_eq!(scope.local_count(), 3);
}

#[test]
fn declaration_binds_name_to_typed_register() {
    let mut scope = Scope::new();
    let mut ops: Vec<Op> = Vec::new();
    let stmt = Statement::Declaration(Declaration {
        name: "x".to_string(),
        expression: const_int(2),
    });
    let r = evaluate_stat(&stmt, &mut scope, &mut ops, &CallPolicy::Strict);
    assert!(r.is_ok());
    let looked = scope.get_local(&"x".to_string()).expect("x must resolve");
    assert_eq!(looked.index, 1);
    assert_eq!(looked.typ.id(), INT_TYPE_ID);
}

#[test]
fn binop_emits_left_before_right() {
    let mut scope = Scope::new();
    let mut ops: Vec<Op> = Vec::new();
    let expr = Expression::BinOp(BinOp {
        op: BinaryOperator::Plus,
        left: Box::new(const_int(1)),
        right: Box::new(const_int(2)),
    });
    let r = evaluate_expr(&expr, &mut scope, &mut ops, &CallPolicy::Strict);
    assert!(r.is_ok());
    assert_eq!(ops.len(), 3);
    match &ops[0] {
        Op::IntLoad { register, constant } => {
            assert_eq!(*register, 0);
            assert_eq!(*constant, 1);
        },
        _ => panic!("first instruction must load the left operand"),
    }
    match &ops[1] {
        Op::IntLoad { register, constant } => {
            assert_eq!(*register, 1);
            assert_eq!(*constant, 2);
        },
        _ => panic!("second instruction must load the right operand"),
    }
    match &ops[2] {
        Op::Binop { left, right, target, .. } => {
            assert_eq!(*left, 0);
            assert_eq!(*right, 1);
            assert_eq!(*target, 2);
        },
        _ => panic!("third instruction must be the operator"),
    }
}

#[test]
fn unresolved_symbol_is_a_compile_error() {
    let statements: Statements = vec![ret(Expression::Symbol("nope".to_string()))];
    let r = generate_ops(&statements, &CallPolicy::Strict);
    match r {
        Err(CompileError::UnresolvedSymbol { name }) => assert_eq!(name, "nope"),
        _ => panic!("an unbound symbol must fail generation"),
    }
}

#[test]
fn nested_function_declaration_is_rejected() {
    let statements: Statements = vec![Box::new(Statement::FunctionDecl(FunctionDecl {
        name: "inner".to_string(),
        statements: vec![],
        typ: "None".to_string(),
    }))];
    let r = generate_ops(&statements, &CallPolicy::Strict);
    match r {
        Err(CompileError::NestedFunction { name }) => assert_eq!(name, "inner"),
        _ => panic!("a nested function declaration must be rejected"),
    }
}

#[test]
fn binop_on_non_integers_is_rejected() {
    let statements: Statements = vec![ret(Expression::BinOp(BinOp {
        op: BinaryOperator::Plus,
        left: Box::new(Expression::ConstString { value: "a".to_string() }),
        right: Box::new(const_int(1)),
    }))];
    let r = generate_ops(&statements, &CallPolicy::Strict);
    match r {
        Err(CompileError::OperandTypeMismatch) => {},
        _ => panic!("string + int must be rejected"),
    }
}

#[test]
fn assignment_with_changed_type_is_rejected() {
    let statements: Statements = vec![
        decl("x", const_int(1)),
        Box::new(Statement::Assignment(Assignment {
            name: "x".to_string(),
            expression: Expression::ConstString { value: "a".to_string() },
        })),
    ];
    let r = generate_ops(&statements, &CallPolicy::Strict);
    match r {
        Err(CompileError::AssignmentTypeMismatch { name }) => assert_eq!(name, "x"),
        _ => panic!("an assignment may not change a register's type"),
    }
}

#[test]
fn assignment_to_unknown_name_is_rejected() {
    let statements: Statements = vec![Box::new(Statement::Assignment(Assignment {
        name: "ghostly".to_string(),
        expression: const_int(1),
    }))];
    let r = generate_ops(&statements, &CallPolicy::Strict);
    match r {
        Err(CompileError::UnresolvedSymbol { name }) => assert_eq!(name, "ghostly"),
        _ => panic!("assigning to an undeclared name must fail"),
    }
}

#[test]
fn generated_function_defaults_to_none_return_type() {
    let statements: Statements = vec![Box::new(Statement::Expr(const_int(1)))];
    let f = generate_ops(&statements, &CallPolicy::Strict).expect("generation succeeds");
    assert_eq!(f.return_type().id(), greyhawk::types::NONE_TYPE_ID);
}

#[test]
fn explicit_return_sets_the_return_type() {
    let statements: Statements = vec![ret(const_int(3))];
    let f = generate_ops(&statements, &CallPolicy::Strict).expect("generation succeeds");
    assert_eq!(f.return_type().id(), INT_TYPE_ID);
    match &f {
        Function::VMFunction(vmf) => assert_eq!(vmf.name, ""),
        _ => panic!("generation yields an interpreter-defined function"),
    }
}

#[test]
fn convert_trailing_expression_into_return() {
    let mut statements: Statements = vec![decl("x", const_int(1)), Box::new(Statement::Expr(const_int(7)))];
    convert_last_expression_to_return(&mut statements);
    assert_eq!(statements.len(), 2);
    match &*statements[1] {
        Statement::Return(Expression::ConstInt { value }) => assert_eq!(*value, 7),
        _ => panic!("the trailing expression must become a return"),
    }
}

#[test]
fn convert_keeps_non_expression_tail() {
    let mut statements: Statements = vec![ret(const_int(1))];
    convert_last_expression_to_return(&mut statements);
    assert_eq!(statements.len(), 1);
    match &*statements[0] {
        Statement::Return(Expression::ConstInt { value }) => assert_eq!(*value, 1),
        _ => panic!("a trailing return must stay as it is"),
    }
}

#[test]
fn operator_symbols_are_their_source_spelling() {
    assert_eq!(BinaryOperator::Plus.symbol(), "+");
    assert_eq!(BinaryOperator::Sub.symbol(), "-");
    assert_eq!(BinaryOperator::Mul.symbol(), "*");
    assert_eq!(BinaryOperator::Div.symbol(), "/");
    assert_eq!(BinaryOperator::Equal.symbol(), "==");
    assert_eq!(BinaryOperator::Neq.symbol(), "!=");
    assert_eq!(BinaryOperator::Le.symbol(), "<");
    assert_eq!(BinaryOperator::Leq.symbol(), "<=");
    assert_eq!(BinaryOperator::Ge.symbol(), ">");
    assert_eq!(BinaryOperator::Geq.symbol(), ">=");
}
