//! The code generator: walks a statement/expression tree and, against one
//! scope, emits a linear instruction stream, allocating a fresh register for
//! every produced value and resolving registers for named locals.
//!
//! Generation never panics: every failure is a structured `CompileError`
//! carrying the offending name.  How an unresolved function name is handled
//! is an explicit policy: the default `Strict` policy rejects it, while
//! `Fallback` routes the call to a given substitute callable.

use std::rc::Rc;
use vstd::prelude::*;

use crate::ast::Expression;
use crate::ast::Statement;
use crate::ast::Statements;
use crate::function::lemma_ops_view_push;
use crate::function::ops_view;
use crate::function::Function;
use crate::function::FunctionV;
use crate::function::NativeFn;
use crate::function::Op;
use crate::function::OpV;
use crate::function::VMFunction;
use crate::scope::spec_lookup;
use crate::scope::LocalObject;
use crate::scope::Scope;
use crate::types::clone_rc;
use crate::types::get_float_type;
use crate::types::get_int_type;
use crate::types::get_none_type;
use crate::types::get_string_type;
use crate::types::type_id;
use crate::types::BuiltinType;
use crate::types::TypeRef;
use crate::types::INT_TYPE_ID;

verus! {

/// A structured compile-time failure.  Generation for the whole unit stops
/// on the first of these; no partial instruction stream is usable.
#[derive(Debug)]
pub enum CompileError {
    /// A symbol reference that no declaration binds.
    UnresolvedSymbol { name: String },
    /// A call to a function name that the scope does not know, under the
    /// strict policy.
    UnresolvedFunction { name: String },
    /// A function declaration nested inside a function body, which this
    /// generator does not lower.
    NestedFunction { name: String },
    /// A binary operation whose operands are not both integers.
    OperandTypeMismatch,
    /// An assignment whose expression type differs from the declared
    /// register type of the local.
    AssignmentTypeMismatch { name: String },
}

/// How a call to an unregistered function name is handled: rejected
/// (`Strict`, the default behaviour), or routed to the given substitute
/// callable (`Fallback`, the legacy behaviour with the `print` built-in).
pub enum CallPolicy {
    Strict,
    Fallback(Rc<Function>),
}

/// The legacy fallback callable: the `print` built-in, declared to return
/// the absence-of-value type.
pub fn print_function() -> (r: Rc<Function>)
    ensures
        r.fview() == (FunctionV::Native {
            name: "print"@,
            function: NativeFn::Print,
            typ: TypeRef::Static(BuiltinType::NoValue),
        }),
{
    Rc::new(
        Function::NativeFunction {
            name: "print".to_owned(),
            function: NativeFn::Print,
            typ: get_none_type(),
        },
    )
}

/// What generating one expression yields: the grown register-type sequence,
/// the instructions emitted for it, and the register binding of its value.
pub enum CgExpr {
    Emitted { types: Seq<TypeRef>, ops: Seq<OpV>, obj: LocalObject },
    Failed { err: CompileError },
}

/// What generating one statement yields: the new name bindings, the grown
/// register-type sequence, the instructions emitted, and the type of the
/// returned expression where the statement is a `Return`.
pub enum CgStmt {
    Emitted {
        locals: Seq<(String, usize)>,
        types: Seq<TypeRef>,
        ops: Seq<OpV>,
        ret: Option<TypeRef>,
    },
    Failed { err: CompileError },
}

/// Generates one expression: left-to-right, one fresh register per produced
/// value, symbols resolved against the name bindings.
pub open spec fn cg_expr(
    e: Expression,
    locals: Seq<(String, usize)>,
    types: Seq<TypeRef>,
    funcs: Seq<(String, Rc<Function>)>,
    policy: CallPolicy,
) -> CgExpr
    decreases e, 0int,
{
    match e {
        Expression::ConstInt { value } => CgExpr::Emitted {
            types: types.push(TypeRef::Static(BuiltinType::Int)),
            ops: seq![OpV::IntLoad { register: types.len() as usize, constant: value }],
            obj: LocalObject {
                index: types.len() as usize,
                typ: TypeRef::Static(BuiltinType::Int),
            },
        },
        Expression::ConstFloat { bits } => CgExpr::Emitted {
            types: types.push(TypeRef::Static(BuiltinType::Float)),
            ops: seq![OpV::FloatLoad { register: types.len() as usize, bits }],
            obj: LocalObject {
                index: types.len() as usize,
                typ: TypeRef::Static(BuiltinType::Float),
            },
        },
        Expression::ConstString { value } => CgExpr::Emitted {
            types: types.push(TypeRef::Static(BuiltinType::Str)),
            ops: seq![OpV::StringLoad { register: types.len() as usize, constant: value@ }],
            obj: LocalObject {
                index: types.len() as usize,
                typ: TypeRef::Static(BuiltinType::Str),
            },
        },
        Expression::Symbol(name) => match spec_lookup(locals, name@) {
            Some(i) => CgExpr::Emitted {
                types: types,
                ops: Seq::empty(),
                obj: LocalObject { index: i, typ: types[i as int] },
            },
            None => CgExpr::Failed { err: CompileError::UnresolvedSymbol { name } },
        },
        Expression::BinOp(b) => {
            match cg_expr(*b.left, locals, types, funcs, policy) {
                CgExpr::Failed { err } => CgExpr::Failed { err },
                CgExpr::Emitted { types: t1, ops: ops1, obj: o1 } => {
                    match cg_expr(*b.right, locals, t1, funcs, policy) {
                        CgExpr::Failed { err } => CgExpr::Failed { err },
                        CgExpr::Emitted { types: t2, ops: ops2, obj: o2 } => {
                            if type_id(o1.typ) != INT_TYPE_ID || type_id(o2.typ) != INT_TYPE_ID {
                                CgExpr::Failed { err: CompileError::OperandTypeMismatch }
                            } else {
                                CgExpr::Emitted {
                                    types: t2.push(TypeRef::Static(BuiltinType::Int)),
                                    ops: ops1 + ops2 + seq![
                                        OpV::Binop {
                                            op: b.op,
                                            left: o1.index,
                                            right: o2.index,
                                            target: t2.len() as usize,
                                        },
                                    ],
                                    obj: LocalObject {
                                        index: t2.len() as usize,
                                        typ: TypeRef::Static(BuiltinType::Int),
                                    },
                                }
                            }
                        },
                    }
                },
            }
        },
        Expression::Call { name, args } => {
            let resolved: Option<Rc<Function>> = match spec_lookup(funcs, name@) {
                Some(g) => Some(g),
                None => match policy {
                    CallPolicy::Strict => None,
                    CallPolicy::Fallback(fb) => Some(fb),
                },
            };
            match resolved {
                None => CgExpr::Failed { err: CompileError::UnresolvedFunction { name } },
                Some(func) => {
                    match cg_args(args@, locals, types, funcs, policy) {
                        CgArgs::Failed { err } => CgExpr::Failed { err },
                        CgArgs::Emitted { types: t1, ops: ops1, regs } => {
                            let ret_typ = func.fview().return_type_of();
                            CgExpr::Emitted {
                                types: t1.push(ret_typ),
                                ops: ops1 + seq![
                                    OpV::Call {
                                        func: func.fview(),
                                        args: regs,
                                        target: t1.len() as usize,
                                    },
                                ],
                                obj: LocalObject { index: t1.len() as usize, typ: ret_typ },
                            }
                        },
                    }
                },
            }
        },
    }
}

/// What generating a list of call arguments yields.
pub enum CgArgs {
    Emitted { types: Seq<TypeRef>, ops: Seq<OpV>, regs: Seq<usize> },
    Failed { err: CompileError },
}

/// Generates every argument expression, left to right, each into its own
/// fresh register.
pub open spec fn cg_args(
    args: Seq<Expression>,
    locals: Seq<(String, usize)>,
    types: Seq<TypeRef>,
    funcs: Seq<(String, Rc<Function>)>,
    policy: CallPolicy,
) -> CgArgs
    decreases args, 1int,
{
    if args.len() == 0 {
        CgArgs::Emitted { types: types, ops: Seq::empty(), regs: Seq::empty() }
    } else {
        match cg_expr(args[0], locals, types, funcs, policy) {
            CgExpr::Failed { err } => CgArgs::Failed { err },
            CgExpr::Emitted { types: t1, ops: ops1, obj } => {
                match cg_args(args.subrange(1, args.len() as int), locals, t1, funcs, policy) {
                    CgArgs::Failed { err } => CgArgs::Failed { err },
                    CgArgs::Emitted { types: t2, ops: ops2, regs } => CgArgs::Emitted {
                        types: t2,
                        ops: ops1 + ops2,
                        regs: seq![obj.index] + regs,
                    },
                }
            },
        }
    }
}

impl FunctionV {
    /// The declared return type of a callable's shape.
    pub open spec fn return_type_of(self) -> TypeRef {
        match self {
            FunctionV::Native { typ, .. } => typ,
            FunctionV::VM { return_typ, .. } => return_typ,
        }
    }
}

/// Generates one statement.
pub open spec fn cg_stmt(
    s: Statement,
    locals: Seq<(String, usize)>,
    types: Seq<TypeRef>,
    funcs: Seq<(String, Rc<Function>)>,
    policy: CallPolicy,
) -> CgStmt
    decreases s,
{
    match s {
        Statement::FunctionDecl(fd) => CgStmt::Failed {
            err: CompileError::NestedFunction { name: fd.name },
        },
        Statement::Return(e) => match cg_expr(e, locals, types, funcs, policy) {
            CgExpr::Failed { err } => CgStmt::Failed { err },
            CgExpr::Emitted { types: t1, ops: ops1, obj } => CgStmt::Emitted {
                locals: locals,
                types: t1,
                ops: ops1 + seq![OpV::Return { register: obj.index }],
                ret: Some(obj.typ),
            },
        },
        Statement::Expr(e) => match cg_expr(e, locals, types, funcs, policy) {
            CgExpr::Failed { err } => CgStmt::Failed { err },
            CgExpr::Emitted { types: t1, ops: ops1, obj } => CgStmt::Emitted {
                locals: locals,
                types: t1,
                ops: ops1,
                ret: None,
            },
        },
        Statement::Declaration(d) => match cg_expr(d.expression, locals, types, funcs, policy) {
            CgExpr::Failed { err } => CgStmt::Failed { err },
            CgExpr::Emitted { types: t1, ops: ops1, obj } => CgStmt::Emitted {
                locals: locals.push((d.name, t1.len() as usize)),
                types: t1.push(obj.typ),
                ops: ops1 + seq![
                    OpV::Assign { source: obj.index, target: t1.len() as usize },
                ],
                ret: None,
            },
        },
        Statement::Assignment(a) => match spec_lookup(locals, a.name@) {
            None => CgStmt::Failed { err: CompileError::UnresolvedSymbol { name: a.name } },
            Some(i) => match cg_expr(a.expression, locals, types, funcs, policy) {
                CgExpr::Failed { err } => CgStmt::Failed { err },
                CgExpr::Emitted { types: t1, ops: ops1, obj } => {
                    if type_id(obj.typ) != type_id(types[i as int]) {
                        CgStmt::Failed {
                            err: CompileError::AssignmentTypeMismatch { name: a.name },
                        }
                    } else {
                        CgStmt::Emitted {
                            locals: locals,
                            types: t1,
                            ops: ops1 + seq![OpV::Assign { source: obj.index, target: i }],
                            ret: None,
                        }
                    }
                },
            },
        },
    }
}

/// Generates a statement sequence, threading one scope and one growing
/// instruction stream.  The returned type is the first explicit `Return`'s,
/// if any.
pub open spec fn cg_stmts(
    stmts: Seq<Box<Statement>>,
    locals: Seq<(String, usize)>,
    types: Seq<TypeRef>,
    funcs: Seq<(String, Rc<Function>)>,
    policy: CallPolicy,
) -> CgStmt
    decreases stmts,
{
    if stmts.len() == 0 {
        CgStmt::Emitted { locals: locals, types: types, ops: Seq::empty(), ret: None }
    } else {
        match cg_stmt(*stmts[0], locals, types, funcs, policy) {
            CgStmt::Failed { err } => CgStmt::Failed { err },
            CgStmt::Emitted { locals: l1, types: t1, ops: ops1, ret: r1 } => {
                match cg_stmts(stmts.subrange(1, stmts.len() as int), l1, t1, funcs, policy) {
                    CgStmt::Failed { err } => CgStmt::Failed { err },
                    CgStmt::Emitted { locals: l2, types: t2, ops: ops2, ret: r2 } => {
                        CgStmt::Emitted {
                            locals: l2,
                            types: t2,
                            ops: ops1 + ops2,
                            ret: if r1 is Some {
                                r1
                            } else {
                                r2
                            },
                        }
                    },
                }
            },
        }
    }
}

/// Generates one expression into `ops` against `scope`: exactly what the
/// model `cg_expr` prescribes.  On failure the partial stream is unusable
/// and only the scope's name bindings and function table are preserved.
#[verifier::loop_isolation(false)]
pub fn evaluate_expr(
    expr: &Expression,
    scope: &mut Scope,
    ops: &mut Vec<Op>,
    policy: &CallPolicy,
) -> (r: Result<LocalObject, CompileError>)
    requires
        old(scope).wf(),
    ensures
        final(scope).wf(),
        final(scope).locals@ == old(scope).locals@,
        final(scope).functions@ == old(scope).functions@,
        match cg_expr(
            *expr,
            old(scope).locals@,
            old(scope).types@,
            old(scope).functions@,
            *policy,
        ) {
            CgExpr::Emitted { types, ops: emitted, obj } => {
                &&& r matches Ok(o) && o == obj
                &&& final(scope).types@ == types
                &&& ops_view(final(ops)@) == ops_view(old(ops)@) + emitted
            },
            CgExpr::Failed { err } => r matches Err(e) && e == err,
        },
    decreases *expr,
{
    let ghost locals0 = scope.locals@;
    let ghost types0 = scope.types@;
    let ghost funcs0 = scope.functions@;
    let ghost base = ops_view(ops@);
    match expr {
        Expression::ConstInt { value } => {
            let obj = scope.allocate_local(get_int_type());
            let ghost pre_push = ops@;
            ops.push(Op::IntLoad { register: obj.index, constant: *value });
            proof {
                lemma_ops_view_push(pre_push, Op::IntLoad { register: obj.index, constant: *value });
                assert(base.push(OpV::IntLoad { register: obj.index, constant: *value }) =~= base
                    + seq![OpV::IntLoad { register: obj.index, constant: *value }]);
            }
            Ok(obj)
        },
        Expression::ConstFloat { bits } => {
            let obj = scope.allocate_local(get_float_type());
            let ghost pre_push = ops@;
            ops.push(Op::FloatLoad { register: obj.index, bits: *bits });
            proof {
                lemma_ops_view_push(pre_push, Op::FloatLoad { register: obj.index, bits: *bits });
                assert(base.push(OpV::FloatLoad { register: obj.index, bits: *bits }) =~= base
                    + seq![OpV::FloatLoad { register: obj.index, bits: *bits }]);
            }
            Ok(obj)
        },
        Expression::ConstString { value } => {
            let obj = scope.allocate_local(get_string_type());
            let s = value.clone();
            let ghost pre_push = ops@;
            ops.push(Op::StringLoad { register: obj.index, constant: s });
            proof {
                lemma_ops_view_push(pre_push, Op::StringLoad { register: obj.index, constant: *value });
                assert(base.push(OpV::StringLoad { register: obj.index, constant: value@ }) =~= base
                    + seq![OpV::StringLoad { register: obj.index, constant: value@ }]);
            }
            Ok(obj)
        },
        Expression::Symbol(name) => match scope.get_local(name) {
            Some(obj) => {
                proof {
                    assert(base + Seq::<OpV>::empty() =~= base);
                }
                Ok(obj)
            },
            None => Err(CompileError::UnresolvedSymbol { name: name.clone() }),
        },
        Expression::BinOp(b) => {
            proof {
                assert(decreases_to!(*expr => expr->BinOp_0));
                assert(decreases_to!(expr->BinOp_0 => expr->BinOp_0.left));
                assert(decreases_to!(expr->BinOp_0 => expr->BinOp_0.right));
            }
            let left = match evaluate_expr(&b.left, scope, ops, policy) {
                Ok(o) => o,
                Err(e) => {
                    return Err(e);
                },
            };
            let right = match evaluate_expr(&b.right, scope, ops, policy) {
                Ok(o) => o,
                Err(e) => {
                    return Err(e);
                },
            };
            if left.typ.id() != INT_TYPE_ID || right.typ.id() != INT_TYPE_ID {
                return Err(CompileError::OperandTypeMismatch);
            }
            let obj = scope.allocate_local(get_int_type());
            let ghost pre_push = ops@;
            ops.push(
                Op::Binop { op: b.op, left: left.index, right: right.index, target: obj.index },
            );
            proof {
                lemma_ops_view_push(
                    pre_push,
                    Op::Binop { op: b.op, left: left.index, right: right.index, target: obj.index },
                );
                let opv = OpV::Binop {
                    op: b.op,
                    left: left.index,
                    right: right.index,
                    target: obj.index,
                };
                match cg_expr(*b.left, locals0, types0, funcs0, *policy) {
                    CgExpr::Emitted { types: t1, ops: ops1, obj: o1 } => {
                        match cg_expr(*b.right, locals0, t1, funcs0, *policy) {
                            CgExpr::Emitted { types: t2, ops: ops2, obj: o2 } => {
                                assert(((base + ops1) + ops2).push(opv) =~= base + (ops1 + ops2
                                    + seq![opv]));
                            },
                            CgExpr::Failed { err } => {},
                        }
                    },
                    CgExpr::Failed { err } => {},
                }
            }
            Ok(obj)
        },
        Expression::Call { name, args } => {
            let func: Rc<Function> = match scope.get_function(name) {
                Some(g) => g,
                None => match policy {
                    CallPolicy::Strict => {
                        return Err(CompileError::UnresolvedFunction { name: name.clone() });
                    },
                    CallPolicy::Fallback(fb) => clone_rc(fb),
                },
            };
            let mut arg_regs: Vec<usize> = Vec::new();
            let ghost mut em: Seq<OpV> = Seq::empty();
            let mut i: usize = 0;
            proof {
                assert(args@.subrange(0, args@.len() as int) =~= args@);
                assert(base + em =~= base);
            }
            while i < args.len()
                invariant
                    i <= args@.len(),
                    scope.wf(),
                    scope.locals@ == locals0,
                    scope.functions@ == funcs0,
                    ops_view(ops@) == base + em,
                    arg_regs@.len() == i,
                    cg_args(args@, locals0, types0, funcs0, *policy) == (match cg_args(
                        args@.subrange(i as int, args@.len() as int),
                        locals0,
                        scope.types@,
                        funcs0,
                        *policy,
                    ) {
                        CgArgs::Emitted { types: tf, ops: opsf, regs: rf } => CgArgs::Emitted {
                            types: tf,
                            ops: em + opsf,
                            regs: arg_regs@ + rf,
                        },
                        CgArgs::Failed { err } => CgArgs::Failed { err },
                    }),
                decreases args@.len() - i,
            {
                let ghost suffix_i = args@.subrange(i as int, args@.len() as int);
                proof {
                    assert(suffix_i[0] == args@[i as int]);
                    assert(suffix_i.subrange(1, suffix_i.len() as int) =~= args@.subrange(
                        i as int + 1,
                        args@.len() as int,
                    ));
                    assert(decreases_to!(*expr => expr->Call_args));
                    assert(decreases_to!(expr->Call_args => expr->Call_args@));
                    assert(decreases_to!(expr->Call_args@ => expr->Call_args@[i as int]));
                }
                let ghost types_pre = scope.types@;
                let ghost em_pre = em;
                let ghost arg_regs_pre = arg_regs@;
                let o = match evaluate_expr(&args[i], scope, ops, policy) {
                    Ok(o) => o,
                    Err(e) => {
                        return Err(e);
                    },
                };
                arg_regs.push(o.index);
                i = i + 1;
                proof {
                    match cg_expr(args@[i - 1], locals0, types_pre, funcs0, *policy) {
                        CgExpr::Emitted { types: te, ops: opse, obj: obje } => {
                            em = em_pre + opse;
                            assert(ops_view(ops@) == base + em);
                            match cg_args(
                                args@.subrange(i as int, args@.len() as int),
                                locals0,
                                scope.types@,
                                funcs0,
                                *policy,
                            ) {
                                CgArgs::Emitted { types: tf, ops: opsf, regs: rf } => {
                                    assert(em_pre + (opse + opsf) =~= em + opsf);
                                    assert(arg_regs_pre + (seq![obje.index] + rf) =~= arg_regs@
                                        + rf);
                                },
                                CgArgs::Failed { err } => {},
                            }
                        },
                        CgExpr::Failed { err } => {
                            assert(false);
                        },
                    }
                }
            }
            proof {
                assert(args@.subrange(args@.len() as int, args@.len() as int)
                    =~= Seq::<Expression>::empty());
                assert(em + Seq::<OpV>::empty() =~= em);
                assert(arg_regs@ + Seq::<usize>::empty() =~= arg_regs@);
            }
            let ret_typ = func.return_type();
            let ret_val = scope.allocate_local(ret_typ);
            let ghost funcg = func;
            let ghost argsg = arg_regs@;
            let ghost pre_push = ops@;
            ops.push(Op::Call { func, args: arg_regs, target: ret_val.index });
            proof {
                assert(ops@.last()->Call_func == funcg);
                lemma_ops_view_push(pre_push, ops@.last());
                assert(ops@ == pre_push.push(ops@.last()));
                assert(ops@.last().opv() == (OpV::Call {
                    func: funcg.fview(),
                    args: argsg,
                    target: ret_val.index,
                }));
                assert((base + em).push(
                    OpV::Call { func: funcg.fview(), args: argsg, target: ret_val.index },
                ) =~= base + (em + seq![
                    OpV::Call { func: funcg.fview(), args: argsg, target: ret_val.index },
                ]));
            }
            Ok(ret_val)
        },
    }
}

/// Generates one statement into `ops` against `scope`: exactly what the
/// model `cg_stmt` prescribes.  Returns the type of the returned expression
/// where the statement is a `Return`, so that a caller can set the enclosing
/// function's return type.
pub fn evaluate_stat(
    statement: &Statement,
    scope: &mut Scope,
    ops: &mut Vec<Op>,
    policy: &CallPolicy,
) -> (r: Result<Option<TypeRef>, CompileError>)
    requires
        old(scope).wf(),
    ensures
        final(scope).wf(),
        final(scope).functions@ == old(scope).functions@,
        match cg_stmt(
            *statement,
            old(scope).locals@,
            old(scope).types@,
            old(scope).functions@,
            *policy,
        ) {
            CgStmt::Emitted { locals, types, ops: emitted, ret } => {
                &&& r matches Ok(rt) && rt == ret
                &&& final(scope).locals@ == locals
                &&& final(scope).types@ == types
                &&& ops_view(final(ops)@) == ops_view(old(ops)@) + emitted
            },
            CgStmt::Failed { err } => r matches Err(e) && e == err,
        },
{
    let ghost locals0 = scope.locals@;
    let ghost types0 = scope.types@;
    let ghost funcs0 = scope.functions@;
    let ghost base = ops_view(ops@);
    match statement {
        Statement::FunctionDecl(fd) => Err(
            CompileError::NestedFunction { name: fd.name.clone() },
        ),
        Statement::Return(e) => {
            let obj = match evaluate_expr(e, scope, ops, policy) {
                Ok(o) => o,
                Err(err) => {
                    return Err(err);
                },
            };
            let ghost pre_push = ops@;
            ops.push(Op::Return { register: obj.index });
            proof {
                lemma_ops_view_push(pre_push, Op::Return { register: obj.index });
                match cg_expr(*e, locals0, types0, funcs0, *policy) {
                    CgExpr::Emitted { types: t1, ops: ops1, obj: o1 } => {
                        assert((base + ops1).push(OpV::Return { register: obj.index }) =~= base
                            + (ops1 + seq![OpV::Return { register: obj.index }]));
                    },
                    CgExpr::Failed { err } => {},
                }
            }
            Ok(Some(obj.typ))
        },
        Statement::Expr(e) => {
            match evaluate_expr(e, scope, ops, policy) {
                Ok(_) => Ok(None),
                Err(err) => Err(err),
            }
        },
        Statement::Declaration(d) => {
            let result = match evaluate_expr(&d.expression, scope, ops, policy) {
                Ok(o) => o,
                Err(err) => {
                    return Err(err);
                },
            };
            let source = result.index;
            let object = scope.add_local(&d.name, result.typ);
            let ghost pre_push = ops@;
            ops.push(Op::Assign { source, target: object.index });
            proof {
                lemma_ops_view_push(pre_push, Op::Assign { source, target: object.index });
                match cg_expr(d.expression, locals0, types0, funcs0, *policy) {
                    CgExpr::Emitted { types: t1, ops: ops1, obj: o1 } => {
                        assert((base + ops1).push(
                            OpV::Assign { source, target: object.index },
                        ) =~= base + (ops1 + seq![OpV::Assign { source, target: object.index }]));
                    },
                    CgExpr::Failed { err } => {},
                }
            }
            Ok(None)
        },
        Statement::Assignment(a) => {
            let existing = match scope.get_local(&a.name) {
                Some(o) => o,
                None => {
                    return Err(CompileError::UnresolvedSymbol { name: a.name.clone() });
                },
            };
            let result = match evaluate_expr(&a.expression, scope, ops, policy) {
                Ok(o) => o,
                Err(err) => {
                    return Err(err);
                },
            };
            if result.typ.id() != existing.typ.id() {
                return Err(CompileError::AssignmentTypeMismatch { name: a.name.clone() });
            }
            let ghost pre_push = ops@;
            ops.push(Op::Assign { source: result.index, target: existing.index });
            proof {
                lemma_ops_view_push(
                    pre_push,
                    Op::Assign { source: result.index, target: existing.index },
                );
                match cg_expr(a.expression, locals0, types0, funcs0, *policy) {
                    CgExpr::Emitted { types: t1, ops: ops1, obj: o1 } => {
                        assert((base + ops1).push(
                            OpV::Assign { source: result.index, target: existing.index },
                        ) =~= base + (ops1 + seq![
                            OpV::Assign { source: result.index, target: existing.index },
                        ]));
                    },
                    CgExpr::Failed { err } => {},
                }
            }
            Ok(None)
        },
    }
}

/// Generates a whole function from a statement sequence: a fresh scope, the
/// statements lowered in order, and the result wrapped as an
/// interpreter-defined function whose return type defaults to the
/// absence-of-value type unless an explicit `Return` sets it.
#[verifier::loop_isolation(false)]
pub fn generate_ops(statements: &Statements, policy: &CallPolicy) -> (r: Result<
    Function,
    CompileError,
>)
    ensures
        match cg_stmts(
            statements@,
            Seq::<(String, usize)>::empty(),
            Seq::<TypeRef>::empty(),
            Seq::<(String, Rc<Function>)>::empty(),
            *policy,
        ) {
            CgStmt::Emitted { locals, types, ops: emitted, ret } => {
                &&& r matches Ok(f)
                &&& f.fview() == (FunctionV::VM {
                    name: Seq::<char>::empty(),
                    types: types,
                    ops: emitted,
                    return_typ: match ret {
                        Some(t) => t,
                        None => TypeRef::Static(BuiltinType::NoValue),
                    },
                })
                &&& f matches Function::VMFunction(vmf)
                &&& vmf.scope.locals@ == locals
                &&& vmf.scope.types@ == types
                &&& vmf.scope.functions@ == Seq::<(String, Rc<Function>)>::empty()
                &&& vmf.scope.wf()
            },
            CgStmt::Failed { err } => r matches Err(e) && e == err,
        },
{
    let mut scope = Scope::new();
    let mut ops: Vec<Op> = Vec::new();
    let mut ret: Option<TypeRef> = None;
    let ghost funcs0 = scope.functions@;
    let mut i: usize = 0;
    proof {
        assert(statements@.subrange(0, statements@.len() as int) =~= statements@);
        assert(ops_view(ops@) =~= Seq::<OpV>::empty());
    }
    while i < statements.len()
        invariant
            i <= statements@.len(),
            scope.wf(),
            scope.functions@ == funcs0,
            funcs0 == Seq::<(String, Rc<Function>)>::empty(),
            cg_stmts(
                statements@,
                Seq::<(String, usize)>::empty(),
                Seq::<TypeRef>::empty(),
                funcs0,
                *policy,
            ) == (match cg_stmts(
                statements@.subrange(i as int, statements@.len() as int),
                scope.locals@,
                scope.types@,
                funcs0,
                *policy,
            ) {
                CgStmt::Emitted { locals: l2, types: t2, ops: ops2, ret: r2 } => CgStmt::Emitted {
                    locals: l2,
                    types: t2,
                    ops: ops_view(ops@) + ops2,
                    ret: if ret is Some {
                        ret
                    } else {
                        r2
                    },
                },
                CgStmt::Failed { err } => CgStmt::Failed { err },
            }),
        decreases statements@.len() - i,
    {
        let ghost suffix_i = statements@.subrange(i as int, statements@.len() as int);
        proof {
            assert(suffix_i[0] == statements@[i as int]);
            assert(suffix_i.subrange(1, suffix_i.len() as int) =~= statements@.subrange(
                i as int + 1,
                statements@.len() as int,
            ));
        }
        let ghost locals_pre = scope.locals@;
        let ghost types_pre = scope.types@;
        let ghost em_pre = ops_view(ops@);
        let ghost ret_pre = ret;
        let rt = match evaluate_stat(&statements[i], &mut scope, &mut ops, policy) {
            Ok(rt) => rt,
            Err(e) => {
                return Err(e);
            },
        };
        if ret.is_none() {
            ret = rt;
        }
        i = i + 1;
        proof {
            match cg_stmt(*statements@[i - 1], locals_pre, types_pre, funcs0, *policy) {
                CgStmt::Emitted { locals: l1, types: t1, ops: ops1, ret: r1 } => {
                    match cg_stmts(
                        statements@.subrange(i as int, statements@.len() as int),
                        scope.locals@,
                        scope.types@,
                        funcs0,
                        *policy,
                    ) {
                        CgStmt::Emitted { locals: l2, types: t2, ops: ops2, ret: r2 } => {
                            assert(em_pre + (ops1 + ops2) =~= ops_view(ops@) + ops2);
                        },
                        CgStmt::Failed { err } => {},
                    }
                },
                CgStmt::Failed { err } => {
                    assert(false);
                },
            }
        }
    }
    proof {
        assert(statements@.subrange(statements@.len() as int, statements@.len() as int)
            =~= Seq::<Box<Statement>>::empty());
        assert(ops_view(ops@) + Seq::<OpV>::empty() =~= ops_view(ops@));
    }
    let return_typ = match ret {
        Some(t) => t,
        None => get_none_type(),
    };
    let f = Function::VMFunction(
        VMFunction { name: String::new(), scope, ops, return_typ },
    );
    Ok(f)
}

/// Replaces a trailing expression statement with an explicit `Return` of the
/// same expression, so that an interactive evaluation yields the last
/// expression's value.  Any other trailing statement, and an empty sequence,
/// are left unchanged.
pub fn convert_last_expression_to_return(statements: &mut Statements)
    ensures
        old(statements)@.len() == 0 ==> final(statements)@ == old(statements)@,
        old(statements)@.len() > 0 ==> match *old(statements)@.last() {
            Statement::Expr(e) => {
                &&& final(statements)@.len() == old(statements)@.len()
                &&& final(statements)@.drop_last() == old(statements)@.drop_last()
                &&& *final(statements)@.last() == Statement::Return(e)
            },
            _ => final(statements)@ == old(statements)@,
        },
{
    if statements.len() == 0 {
        return ;
    }
    let last = statements.pop();
    match last {
        Some(s) => {
            match *s {
                Statement::Expr(e) => {
                    statements.push(Box::new(Statement::Return(e)));
                    proof {
                        assert(statements@.drop_last() =~= old(statements)@.drop_last());
                    }
                },
                other => {
                    statements.push(Box::new(other));
                    proof {
                        assert(statements@ =~= old(statements)@);
                    }
                },
            }
        },
        None => {},
    }
}

/// Law: after a declaration `name = expr`, a symbol lookup for `name`
/// resolves to a register whose recorded static type is exactly the type
/// produced when generating `expr`.
pub proof fn lemma_declaration_then_lookup(
    d: crate::ast::Declaration,
    locals: Seq<(String, usize)>,
    types: Seq<TypeRef>,
    funcs: Seq<(String, Rc<Function>)>,
    policy: CallPolicy,
)
    ensures
        match cg_stmt(Statement::Declaration(d), locals, types, funcs, policy) {
            CgStmt::Emitted { locals: l2, types: t2, .. } => match cg_expr(
                d.expression,
                locals,
                types,
                funcs,
                policy,
            ) {
                CgExpr::Emitted { obj, .. } => {
                    &&& t2.len() > 0
                    &&& spec_lookup(l2, d.name@) == Some((t2.len() - 1) as usize)
                    &&& t2[t2.len() - 1] == obj.typ
                },
                CgExpr::Failed { .. } => true,
            },
            CgStmt::Failed { .. } => true,
        },
{
    match cg_expr(d.expression, locals, types, funcs, policy) {
        CgExpr::Emitted { types: t1, ops: ops1, obj } => {
            let l2 = locals.push((d.name, t1.len() as usize));
            assert(l2.last() == (d.name, t1.len() as usize));
            assert(spec_lookup(l2, d.name@) == Some(t1.len() as usize));
        },
        CgExpr::Failed { .. } => {},
    }
}

/// Law: in a binary operation the left operand's instructions are emitted
/// strictly before the right operand's, which in turn precede the single
/// operator instruction.
pub proof fn lemma_binop_emission_order(
    b: crate::ast::BinOp,
    locals: Seq<(String, usize)>,
    types: Seq<TypeRef>,
    funcs: Seq<(String, Rc<Function>)>,
    policy: CallPolicy,
)
    ensures
        match cg_expr(Expression::BinOp(b), locals, types, funcs, policy) {
            CgExpr::Emitted { ops: emitted, .. } => match cg_expr(
                *b.left,
                locals,
                types,
                funcs,
                policy,
            ) {
                CgExpr::Emitted { types: t1, ops: left_ops, .. } => match cg_expr(
                    *b.right,
                    locals,
                    t1,
                    funcs,
                    policy,
                ) {
                    CgExpr::Emitted { ops: right_ops, .. } => {
                        &&& emitted.len() == left_ops.len() + right_ops.len() + 1
                        &&& emitted.subrange(0, left_ops.len() as int) == left_ops
                        &&& emitted.subrange(
                            left_ops.len() as int,
                            left_ops.len() + right_ops.len() as int,
                        ) == right_ops
                    },
                    CgExpr::Failed { .. } => true,
                },
                CgExpr::Failed { .. } => true,
            },
            CgExpr::Failed { .. } => true,
        },
{
    match cg_expr(*b.left, locals, types, funcs, policy) {
        CgExpr::Emitted { types: t1, ops: left_ops, obj: o1 } => {
            match cg_expr(*b.right, locals, t1, funcs, policy) {
                CgExpr::Emitted { types: t2, ops: right_ops, obj: o2 } => {
                    match cg_expr(Expression::BinOp(b), locals, types, funcs, policy) {
                        CgExpr::Emitted { ops: emitted, .. } => {
                            assert(emitted.subrange(0, left_ops.len() as int) =~= left_ops);
                            assert(emitted.subrange(
                                left_ops.len() as int,
                                left_ops.len() + right_ops.len() as int,
                            ) =~= right_ops);
                        },
                        CgExpr::Failed { .. } => {},
                    }
                },
                CgExpr::Failed { .. } => {},
            }
        },
        CgExpr::Failed { .. } => {},
    }
}

/// Law: generating a function from the single statement `Return(ConstInt v)`
/// succeeds, the function's return type is the integer type, and executing
/// it with no arguments yields exactly the value `v` with the integer type,
/// leaving the machine untouched.
pub proof fn lemma_constant_return_round_trip(
    stmts: Seq<Box<Statement>>,
    v: i64,
    policy: CallPolicy,
    vm: crate::engine::MachineModel,
)
    requires
        stmts.len() == 1,
        *stmts[0] == (Statement::Return(Expression::ConstInt { value: v })),
    ensures
        match cg_stmts(
            stmts,
            Seq::<(String, usize)>::empty(),
            Seq::<TypeRef>::empty(),
            Seq::<(String, Rc<Function>)>::empty(),
            policy,
        ) {
            CgStmt::Emitted { types, ops, ret, .. } => {
                &&& ret == Some(TypeRef::Static(BuiltinType::Int))
                &&& crate::engine::spec_call(
                    FunctionV::VM {
                        name: Seq::<char>::empty(),
                        types: types,
                        ops: ops,
                        return_typ: TypeRef::Static(BuiltinType::Int),
                    },
                    Seq::<crate::function::Object>::empty(),
                    vm,
                ) == (
                    vm,
                    Ok::<crate::function::Object, crate::engine::RuntimeError>(
                        crate::function::Object {
                            value: v,
                            typ: TypeRef::Static(BuiltinType::Int),
                        },
                    ),
                )
            },
            CgStmt::Failed { .. } => false,
        },
{
    let locals0 = Seq::<(String, usize)>::empty();
    let types0 = Seq::<TypeRef>::empty();
    let funcs0 = Seq::<(String, Rc<Function>)>::empty();
    let e = Expression::ConstInt { value: v };
    let s0 = Statement::Return(e);
    assert(stmts.subrange(1, 1) =~= Seq::<Box<Statement>>::empty());
    let load = OpV::IntLoad { register: 0usize, constant: v };
    let retop = OpV::Return { register: 0usize };
    reveal_with_fuel(cg_stmts, 3);
    reveal_with_fuel(crate::engine::spec_exec_ops, 4);
    match cg_stmts(stmts, locals0, types0, funcs0, policy) {
        CgStmt::Emitted { types, ops, ret, .. } => {
            assert(seq![load] + seq![retop] =~= seq![load, retop]);
            assert(ops + Seq::<OpV>::empty() =~= ops);
            assert(ops =~= seq![load, retop]);
            assert(types =~= seq![TypeRef::Static(BuiltinType::Int)]);
            let regs0 = crate::engine::init_regs(
                types,
                Seq::<crate::function::Object>::empty(),
            );
            assert(regs0 =~= seq![0i64]);
            let regs1 = regs0.update(0, v);
            assert(crate::engine::spec_step(types, load, regs0, vm)
                == (crate::engine::StepResult::Next { regs: regs1, vm }));
            assert(crate::engine::spec_step(types, retop, regs1, vm)
                == (crate::engine::StepResult::Stop {
                vm,
                result: Ok(
                    crate::function::Object { value: v, typ: TypeRef::Static(BuiltinType::Int) },
                ),
            }));
        },
        CgStmt::Failed { .. } => {
            assert(false);
        },
    }
}

} // verus!
