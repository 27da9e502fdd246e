use std::rc::Rc;

use greyhawk::ast::BinOp;
use greyhawk::ast::BinaryOperator;
use greyhawk::ast::Declaration;
use greyhawk::ast::Expression;
use greyhawk::ast::Statement;
use greyhawk::ast::Statements;
use greyhawk::codegen::generate_ops;
use greyhawk::codegen::print_function;
use greyhawk::codegen::CallPolicy;
use greyhawk::codegen::CompileError;
use greyhawk::engine::RuntimeError;
use greyhawk::engine::VM;
use greyhawk::function::Function;
use greyhawk::function::Object;
use greyhawk::function::Op;
use greyhawk::function::VMFunction;
use greyhawk::scope::Scope;
use greyhawk::types::get_float_type;
use greyhawk::types::get_int_type;
use greyhawk::types::get_none_type;
use greyhawk::types::Type;
use greyhawk::types::TypeRef;
use greyhawk::types::same_type;
use greyhawk::types::FLOAT_TYPE_ID;
use greyhawk::types::INT_TYPE_ID;
use greyhawk::types::NONE_TYPE_ID;
use greyhawk::types::STRING_TYPE_ID;

fn const_int(v: i64) -> Expression {
    Expression::ConstInt { value: v }
}

fn ret(e: Expression) -> Box<Statement> {
    Box::new(Statement::Return(e))
}

fn binop(op: BinaryOperator, l: Expression, r: Expression) -> Expression {
    Expression::BinOp(BinOp { op, left: Box::new(l), right: Box::new(r) })
}

fn run(statements: &Statements) -> Result<Object, RuntimeError> {
    let f = generate_ops(statements, &CallPolicy::Strict).expect("generation succeeds");
    let mut vm = VM::new();
    f.call(&mut vm, &[])
}

fn run_int(statements: &Statements) -> i64 {
    let obj = run(statements).expect("execution succeeds");
    assert_eq!(obj.typ.id(), INT_TYPE_ID);
    obj.value
}

#[test]
fn constant_return_round_trip() {
    assert_eq!(run_int(&vec![ret(const_int(5))]), 5);
}

#[test]
fn declaration_and_symbol_round_trip() {
    let statements: Statements = vec![
        Box::new(Statement::Declaration(Declaration {
            name: "x".to_string(),
            expression: const_int(2),
        })),
        ret(Expression::Symbol("x".to_string())),
    ];
    let f = generate_ops(&statements, &CallPolicy::Strict).expect("generation succeeds");
    match &f {
        Function::VMFunction(vmf) => assert_eq!(vmf.scope.local_count(), 2),
        _ => panic!("generation yields an interpreter-defined function"),
    }
    let mut vm = VM::new();
    let obj = f.call(&mut vm, &[]).expect("execution succeeds");
    assert_eq!(obj.value, 2);
    assert_eq!(obj.typ.id(), INT_TYPE_ID);
}

#[test]
fn addition_round_trip() {
    assert_eq!(run_int(&vec![ret(binop(BinaryOperator::Plus, const_int(2), const_int(3)))]), 5);
}

#[test]
fn arithmetic_exact_values() {
    assert_eq!(run_int(&vec![ret(binop(BinaryOperator::Sub, const_int(2), const_int(7)))]), -5);
    assert_eq!(run_int(&vec![ret(binop(BinaryOperator::Mul, const_int(7), const_int(6)))]), 42);
    assert_eq!(run_int(&vec![ret(binop(BinaryOperator::Div, const_int(7), const_int(2)))]), 3);
    assert_eq!(run_int(&vec![ret(binop(BinaryOperator::Div, const_int(-7), const_int(2)))]), -3);
}

#[test]
fn comparison_results_are_one_or_zero() {
    assert_eq!(run_int(&vec![ret(binop(BinaryOperator::Le, const_int(2), const_int(3)))]), 1);
    assert_eq!(run_int(&vec![ret(binop(BinaryOperator::Ge, const_int(2), const_int(3)))]), 0);
    assert_eq!(run_int(&vec![ret(binop(BinaryOperator::Leq, const_int(3), const_int(3)))]), 1);
    assert_eq!(run_int(&vec![ret(binop(BinaryOperator::Geq, const_int(2), const_int(3)))]), 0);
    assert_eq!(run_int(&vec![ret(binop(BinaryOperator::Equal, const_int(2), const_int(2)))]), 1);
    assert_eq!(run_int(&vec![ret(binop(BinaryOperator::Neq, const_int(2), const_int(2)))]), 0);
}

#[test]
fn division_by_zero_is_an_arithmetic_error() {
    let statements: Statements = vec![ret(binop(BinaryOperator::Div, const_int(1), const_int(0)))];
    match run(&statements) {
        Err(e) => assert_eq!(e, RuntimeError::Arithmetic),
        Ok(_) => panic!("division by zero must fail"),
    }
}

#[test]
fn overflow_is_an_arithmetic_error() {
    let statements: Statements = vec![ret(binop(BinaryOperator::Plus, const_int(i64::MAX), const_int(1)))];
    match run(&statements) {
        Err(e) => assert_eq!(e, RuntimeError::Arithmetic),
        Ok(_) => panic!("overflow must fail"),
    }
}

#[test]
fn float_constant_round_trips_through_its_bits() {
    let statements: Statements = vec![ret(Expression::ConstFloat { bits: 2.5f64.to_bits() })];
    let obj = run(&statements).expect("execution succeeds");
    assert_eq!(obj.typ.id(), FLOAT_TYPE_ID);
    assert_eq!(f64::from_bits(obj.value as u64), 2.5);
}

#[test]
fn string_constant_lands_in_the_string_pool() {
    let statements: Statements = vec![ret(Expression::ConstString { value: "hi".to_string() })];
    let f = generate_ops(&statements, &CallPolicy::Strict).expect("generation succeeds");
    let mut vm = VM::new();
    let obj = f.call(&mut vm, &[]).expect("execution succeeds");
    assert_eq!(obj.typ.id(), STRING_TYPE_ID);
    assert_eq!(vm.strings[obj.value as usize], "hi");
}

#[test]
fn unregistered_call_fails_under_strict_policy() {
    let statements: Statements = vec![ret(Expression::Call {
        name: "foo".to_string(),
        args: vec![const_int(7)],
    })];
    let r = generate_ops(&statements, &CallPolicy::Strict);
    match r {
        Err(CompileError::UnresolvedFunction { name }) => assert_eq!(name, "foo"),
        _ => panic!("strict policy must reject an unregistered function name"),
    }
}

#[test]
fn unregistered_call_prints_under_permissive_policy() {
    let statements: Statements = vec![Box::new(Statement::Expr(Expression::Call {
        name: "foo".to_string(),
        args: vec![const_int(7)],
    }))];
    let policy = CallPolicy::Fallback(print_function());
    let f = generate_ops(&statements, &policy).expect("permissive generation succeeds");
    let mut vm = VM::new();
    let obj = f.call(&mut vm, &[]).expect("execution succeeds");
    assert_eq!(obj.typ.id(), NONE_TYPE_ID);
    assert_eq!(vm.output.len(), 1);
    assert_eq!(vm.output[0].value, 7);
    assert_eq!(vm.output[0].typ.id(), INT_TYPE_ID);
}

#[test]
fn registered_call_reaches_the_callee() {
    let mut callee_scope = Scope::new();
    let r0 = callee_scope.allocate_local(get_int_type());
    let callee = Rc::new(Function::VMFunction(VMFunction {
        name: "nine".to_string(),
        scope: callee_scope,
        ops: vec![
            Op::IntLoad { register: r0.index, constant: 9 },
            Op::Return { register: r0.index },
        ],
        return_typ: get_int_type(),
    }));
    let mut scope = Scope::new();
    scope.add_function("nine".to_string(), callee);
    let mut ops: Vec<Op> = Vec::new();
    let obj = greyhawk::codegen::evaluate_expr(
        &Expression::Call { name: "nine".to_string(), args: vec![] },
        &mut scope,
        &mut ops,
        &CallPolicy::Strict,
    )
    .expect("the registered name resolves");
    ops.push(Op::Return { register: obj.index });
    let f = Function::VMFunction(VMFunction {
        name: "caller".to_string(),
        scope,
        ops,
        return_typ: get_int_type(),
    });
    let mut vm = VM::new();
    let result = f.call(&mut vm, &[]).expect("execution succeeds");
    assert_eq!(result.value, 9);
    assert_eq!(result.typ.id(), INT_TYPE_ID);
}

#[test]
fn nested_call_does_not_touch_caller_registers() {
    // The callee writes 99 into its own register 0; the caller's register 0
    // holds 42 and must still hold it after the nested call.
    let mut callee_scope = Scope::new();
    let c0 = callee_scope.allocate_local(get_int_type());
    let callee = Rc::new(Function::VMFunction(VMFunction {
        name: "clobber".to_string(),
        scope: callee_scope,
        ops: vec![
            Op::IntLoad { register: c0.index, constant: 99 },
            Op::Return { register: c0.index },
        ],
        return_typ: get_int_type(),
    }));
    let mut caller_scope = Scope::new();
    let a = caller_scope.allocate_local(get_int_type());
    let b = caller_scope.allocate_local(get_int_type());
    let caller = Function::VMFunction(VMFunction {
        name: "caller".to_string(),
        scope: caller_scope,
        ops: vec![
            Op::IntLoad { register: a.index, constant: 42 },
            Op::Call { func: callee, args: vec![], target: b.index },
            Op::Return { register: a.index },
        ],
        return_typ: get_int_type(),
    });
    let mut vm = VM::new();
    let result = caller.call(&mut vm, &[]).expect("execution succeeds");
    assert_eq!(result.value, 42);
}

#[test]
fn bad_register_is_reported() {
    let f = Function::VMFunction(VMFunction {
        name: "broken".to_string(),
        scope: Scope::new(),
        ops: vec![Op::IntLoad { register: 5, constant: 1 }],
        return_typ: get_none_type(),
    });
    let mut vm = VM::new();
    match f.call(&mut vm, &[]) {
        Err(e) => assert_eq!(e, RuntimeError::BadRegister { index: 5 }),
        Ok(_) => panic!("an out-of-range register must fail"),
    }
}

#[test]
fn too_many_arguments_is_reported() {
    let f = Function::VMFunction(VMFunction {
        name: "nullary".to_string(),
        scope: Scope::new(),
        ops: vec![],
        return_typ: get_none_type(),
    });
    let mut vm = VM::new();
    let arg = Object { value: 1, typ: get_int_type() };
    match f.call(&mut vm, &[arg]) {
        Err(e) => assert_eq!(e, RuntimeError::TooManyArguments),
        Ok(_) => panic!("too many arguments must fail"),
    }
}

#[test]
fn argument_type_mismatch_is_reported() {
    let mut scope = Scope::new();
    scope.allocate_local(get_int_type());
    let f = Function::VMFunction(VMFunction {
        name: "wants_int".to_string(),
        scope,
        ops: vec![],
        return_typ: get_none_type(),
    });
    let mut vm = VM::new();
    let arg = Object { value: 0, typ: get_float_type() };
    match f.call(&mut vm, &[arg]) {
        Err(e) => assert_eq!(e, RuntimeError::TypeMismatch),
        Ok(_) => panic!("an argument of the wrong type must fail"),
    }
}

#[test]
fn arguments_bind_to_the_first_registers() {
    let mut scope = Scope::new();
    let p = scope.allocate_local(get_int_type());
    let f = Function::VMFunction(VMFunction {
        name: "identity".to_string(),
        scope,
        ops: vec![Op::Return { register: p.index }],
        return_typ: get_int_type(),
    });
    let mut vm = VM::new();
    let arg = Object { value: 31, typ: get_int_type() };
    let obj = f.call(&mut vm, &[arg]).expect("execution succeeds");
    assert_eq!(obj.value, 31);
}

#[test]
fn empty_body_yields_the_absent_value() {
    let f = Function::VMFunction(VMFunction {
        name: "empty".to_string(),
        scope: Scope::new(),
        ops: vec![],
        return_typ: get_none_type(),
    });
    let mut vm = VM::new();
    let obj = f.call(&mut vm, &[]).expect("execution succeeds");
    assert_eq!(obj.value, 0);
    assert_eq!(obj.typ.id(), NONE_TYPE_ID);
}

#[test]
fn type_identity_is_by_id_never_by_name() {
    let a = TypeRef::Heap(Rc::new(Type { id: 7, name: "Point".to_string() }));
    let b = TypeRef::Heap(Rc::new(Type { id: 7, name: "Point".to_string() }));
    let c = TypeRef::Heap(Rc::new(Type { id: 8, name: "Point".to_string() }));
    assert!(same_type(&a, &b));
    assert!(!same_type(&a, &c));
    assert!(!same_type(&a, &get_int_type()));
    assert_eq!(a.name(), "Point");
    assert_eq!(get_int_type().name(), "Int");
    assert_eq!(get_none_type().name(), "None");
}

#[test]
fn function_getters_report_name_and_return_type() {
    let f = print_function();
    assert_eq!(f.name(), "print");
    assert_eq!(f.return_type().id(), NONE_TYPE_ID);
    let g = Function::VMFunction(VMFunction {
        name: "g".to_string(),
        scope: Scope::new(),
        ops: vec![],
        return_typ: get_int_type(),
    });
    assert_eq!(g.name(), "g");
    assert_eq!(g.return_type().id(), INT_TYPE_ID);
}

#[test]
fn registered_name_wins_over_the_fallback() {
    let mut scope = Scope::new();
    let r0 = {
        let mut callee_scope = Scope::new();
        let r0 = callee_scope.allocate_local(get_int_type());
        scope.add_function(
            "f".to_string(),
            Rc::new(Function::VMFunction(VMFunction {
                name: "f".to_string(),
                scope: callee_scope,
                ops: vec![
                    Op::IntLoad { register: r0.index, constant: 4 },
                    Op::Return { register: r0.index },
                ],
                return_typ: get_int_type(),
            })),
        );
        r0
    };
    let _ = r0;
    let mut ops: Vec<Op> = Vec::new();
    let obj = greyhawk::codegen::evaluate_expr(
        &Expression::Call { name: "f".to_string(), args: vec![] },
        &mut scope,
        &mut ops,
        &CallPolicy::Fallback(print_function()),
    )
    .expect("the registered name resolves");
    assert_eq!(obj.typ.id(), INT_TYPE_ID);
    ops.push(Op::Return { register: obj.index });
    let caller = Function::VMFunction(VMFunction {
        name: "caller".to_string(),
        scope,
        ops,
        return_typ: get_int_type(),
    });
    let mut vm = VM::new();
    let result = caller.call(&mut vm, &[]).expect("execution succeeds");
    assert_eq!(result.value, 4);
    assert_eq!(vm.output.len(), 0);
}

#[test]
fn register_files_are_independent_and_zeroed() {
    let mut scope = Scope::new();
    scope.allocate_local(get_int_type());
    scope.allocate_local(get_int_type());
    let mut first = scope.create_instance();
    let second = scope.create_instance();
    assert_eq!(first.registers, vec![0, 0]);
    assert_eq!(second.registers, vec![0, 0]);
    first.registers[0] = 7;
    assert_eq!(second.registers[0], 0);
}

#[test]
fn empty_statement_sequence_yields_the_absent_value() {
    let statements: Statements = vec![];
    let obj = run(&statements).expect("execution succeeds");
    assert_eq!(obj.value, 0);
    assert_eq!(obj.typ.id(), NONE_TYPE_ID);
}
