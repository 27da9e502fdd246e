//! The instruction stream and the two-variant callable: an externally-provided
//! built-in, or an interpreter-defined function made of a scope, its
//! instruction stream and a declared return type.
//!
//! Functions are shared by reference count across every call site, so the
//! same function may be entered by recursive calls; every call gets its own
//! register file.

use std::rc::Rc;
use vstd::prelude::*;

use crate::ast::BinaryOperator;
use crate::scope::Scope;
use crate::types::BuiltinType;
use crate::types::TypeRef;

verus! {

/// The closed set of externally-provided built-in callables.  `Print` appends
/// its arguments to the running machine's output buffer; the surrounding
/// program renders that buffer.
#[derive(Clone, Copy, PartialEq, Eq, Structural, Debug)]
pub enum NativeFn {
    Print,
}

/// A runtime value: a raw payload paired with its type identity.  An
/// integer-typed payload is the integer itself; a float-typed payload is the
/// IEEE 754 bit pattern; a string-typed payload indexes the machine's string
/// pool; an absent value has payload zero.
pub struct Object {
    pub value: i64,
    pub typ: TypeRef,
}

impl Clone for Object {
    /// The clone is the same value with the same type identity.
    fn clone(&self) -> (r: Object)
        ensures
            r == *self,
    {
        Object { value: self.value, typ: self.typ.clone() }
    }
}

/// One instruction of the linear, non-branching stream.  Instructions address
/// registers purely by index.
pub enum Op {
    IntLoad { register: usize, constant: i64 },
    FloatLoad { register: usize, bits: u64 },
    StringLoad { register: usize, constant: String },
    Assign { source: usize, target: usize },
    Binop { op: BinaryOperator, left: usize, right: usize, target: usize },
    Call { func: Rc<Function>, args: Vec<usize>, target: usize },
    Return { register: usize },
}

/// An interpreter-defined function: its scope, its instruction stream, and
/// its declared return type.
pub struct VMFunction {
    pub name: String,
    pub scope: Scope,
    pub ops: Vec<Op>,
    pub return_typ: TypeRef,
}

/// A callable: externally provided, or interpreter defined.
pub enum Function {
    NativeFunction { name: String, function: NativeFn, typ: TypeRef },
    VMFunction(VMFunction),
}

/// The mathematical shape of one instruction, with the callee of a call
/// instruction unfolded to its own mathematical shape.
pub enum OpV {
    IntLoad { register: usize, constant: i64 },
    FloatLoad { register: usize, bits: u64 },
    StringLoad { register: usize, constant: Seq<char> },
    Assign { source: usize, target: usize },
    Binop { op: BinaryOperator, left: usize, right: usize, target: usize },
    Call { func: FunctionV, args: Seq<usize>, target: usize },
    Return { register: usize },
}

/// The mathematical shape of a callable: everything execution depends on.
/// For an interpreter-defined function that is the per-register static types,
/// the instruction stream and the declared return type; the symbol table's
/// name bindings do not influence execution.
pub enum FunctionV {
    Native { name: Seq<char>, function: NativeFn, typ: TypeRef },
    VM { name: Seq<char>, types: Seq<TypeRef>, ops: Seq<OpV>, return_typ: TypeRef },
}

impl Op {
    pub open spec fn opv(self) -> OpV
        decreases self,
    {
        match self {
            Op::IntLoad { register, constant } => OpV::IntLoad { register, constant },
            Op::FloatLoad { register, bits } => OpV::FloatLoad { register, bits },
            Op::StringLoad { register, constant } => OpV::StringLoad {
                register,
                constant: constant@,
            },
            Op::Assign { source, target } => OpV::Assign { source, target },
            Op::Binop { op, left, right, target } => OpV::Binop { op, left, right, target },
            Op::Call { func, args, target } => OpV::Call {
                func: func.fview(),
                args: args@,
                target,
            },
            Op::Return { register } => OpV::Return { register },
        }
    }
}

/// The mathematical shape of a whole instruction stream.
pub open spec fn ops_view(ops: Seq<Op>) -> Seq<OpV>
    decreases ops,
{
    if ops.len() == 0 {
        Seq::empty()
    } else {
        ops_view(ops.subrange(0, ops.len() - 1)).push(ops[ops.len() - 1].opv())
    }
}

pub broadcast proof fn lemma_ops_view_len(ops: Seq<Op>)
    ensures
        (#[trigger] ops_view(ops)).len() == ops.len(),
    decreases ops.len(),
{
    if ops.len() > 0 {
        lemma_ops_view_len(ops.subrange(0, ops.len() - 1));
    }
}

pub broadcast proof fn lemma_ops_view_index(ops: Seq<Op>, i: int)
    requires
        0 <= i < ops.len(),
    ensures
        #[trigger] ops_view(ops)[i] == ops[i].opv(),
    decreases ops.len(),
{
    lemma_ops_view_len(ops);
    if i < ops.len() - 1 {
        lemma_ops_view_index(ops.subrange(0, ops.len() - 1), i);
        lemma_ops_view_len(ops.subrange(0, ops.len() - 1));
    }
}

pub broadcast proof fn lemma_ops_view_push(ops: Seq<Op>, op: Op)
    ensures
        #[trigger] ops_view(ops.push(op)) == ops_view(ops).push(op.opv()),
{
    assert(ops.push(op).subrange(0, ops.push(op).len() - 1) =~= ops);
}

impl Function {
    pub open spec fn fview(self) -> FunctionV
        decreases self,
    {
        match self {
            Function::NativeFunction { name, function, typ } => FunctionV::Native {
                name: name@,
                function,
                typ,
            },
            Function::VMFunction(f) => FunctionV::VM {
                name: f.name@,
                types: f.scope.types@,
                ops: ops_view(f.ops@),
                return_typ: f.return_typ,
            },
        }
    }

    /// The function's name.
    pub fn name(&self) -> (r: String)
        ensures
            r@ == match self.fview() {
                FunctionV::Native { name, .. } => name,
                FunctionV::VM { name, .. } => name,
            },
    {
        match self {
            Function::NativeFunction { name, function: _, typ: _ } => name.clone(),
            Function::VMFunction(f) => f.name.clone(),
        }
    }

    /// The function's declared return type.
    pub fn return_type(&self) -> (r: TypeRef)
        ensures
            r == match self.fview() {
                FunctionV::Native { typ, .. } => typ,
                FunctionV::VM { return_typ, .. } => return_typ,
            },
    {
        match self {
            Function::NativeFunction { name: _, function: _, typ } => typ.clone(),
            Function::VMFunction(f) => f.return_typ.clone(),
        }
    }
}

/// The absent value: zero payload with the absence-of-value type.
pub open spec fn spec_none_object() -> Object {
    Object { value: 0i64, typ: TypeRef::Static(BuiltinType::NoValue) }
}

} // verus!
