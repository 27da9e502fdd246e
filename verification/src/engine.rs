//! The execution engine: runs a callable against argument values.
//!
//! For an interpreter-defined function a fresh register file is created per
//! call, sized from the function's scope; the instruction stream then runs
//! sequentially (straight-line, no branching), recursing into nested calls.
//! The machine itself only carries the string pool and the output buffer that
//! the `Print` built-in appends to; register files never outlive or leak out
//! of their own call frame.
//!
//! Execution is total: instead of panicking, every failure is reported as a
//! structured `RuntimeError`.

use vstd::prelude::*;

use crate::ast::BinaryOperator;
use crate::function::lemma_ops_view_index;
use crate::function::lemma_ops_view_len;
use crate::function::ops_view;
use crate::function::spec_none_object;
use crate::function::Function;
use crate::function::FunctionV;
use crate::function::NativeFn;
use crate::function::Object;
use crate::function::Op;
use crate::function::OpV;
use crate::types::get_none_type;
use crate::types::type_id;
use crate::types::TypeRef;

verus! {

/// A structured runtime failure.  Execution never panics: an out-of-range
/// register, failing arithmetic or a type disagreement surfaces as one of
/// these explicit error values.
#[derive(Clone, Copy, PartialEq, Eq, Structural, Debug)]
pub enum RuntimeError {
    /// An instruction addressed a register outside its frame.
    BadRegister { index: usize },
    /// Integer overflow or division by zero.
    Arithmetic,
    /// A value's type identity did not match the statically recorded type of
    /// the register it was bound to.
    TypeMismatch,
    /// A call carried more arguments than the callee has registers.
    TooManyArguments,
    /// The string pool grew beyond what a register can index.
    Capacity,
}

/// The largest string-pool index a register can hold.
pub const MAX_STRING_POOL_INDEX: u64 = 0x7fff_ffff_ffff_ffff;

/// The virtual machine: the string pool that string-typed registers index,
/// and the output buffer the `Print` built-in appends to.
pub struct VM {
    pub strings: Vec<String>,
    pub output: Vec<Object>,
}

/// The mathematical state of a machine: its string pool and output buffer.
#[verifier::ext_equal]
pub struct MachineModel {
    pub strings: Seq<Seq<char>>,
    pub output: Seq<Object>,
}

impl VM {
    pub open spec fn model(self) -> MachineModel {
        MachineModel {
            strings: self.strings@.map_values(|s: String| s@),
            output: self.output@,
        }
    }

    pub fn new() -> (r: VM)
        ensures
            r.model().strings =~= Seq::<Seq<char>>::empty(),
            r.model().output =~= Seq::<Object>::empty(),
    {
        VM { strings: Vec::new(), output: Vec::new() }
    }
}

/// Reinterprets an IEEE 754 bit pattern as the two's-complement register
/// payload holding the same 64 bits.
pub open spec fn float_bits_as_register(bits: u64) -> i64 {
    if bits <= 0x7fff_ffff_ffff_ffff {
        bits as i64
    } else {
        (bits - 0x1_0000_0000_0000_0000) as i64
    }
}

pub fn float_bits_to_register(bits: u64) -> (r: i64)
    ensures
        r == float_bits_as_register(bits),
{
    if bits <= 0x7fff_ffff_ffff_ffffu64 {
        bits as i64
    } else {
        let d: u64 = bits - 0x8000_0000_0000_0000u64;
        (d as i64) + i64::MIN
    }
}

/// What a binary operator yields on two register payloads: checked integer
/// arithmetic (`None` on overflow or division by zero), and 1/0 for the
/// comparisons.
pub open spec fn spec_eval_binop(op: BinaryOperator, l: i64, r: i64) -> Option<i64> {
    match op {
        BinaryOperator::Plus => l.checked_add(r),
        BinaryOperator::Sub => l.checked_sub(r),
        BinaryOperator::Mul => l.checked_mul(r),
        BinaryOperator::Div => l.checked_div(r),
        BinaryOperator::Neq => Some(if l != r { 1i64 } else { 0i64 }),
        BinaryOperator::Equal => Some(if l == r { 1i64 } else { 0i64 }),
        BinaryOperator::Leq => Some(if l <= r { 1i64 } else { 0i64 }),
        BinaryOperator::Le => Some(if l < r { 1i64 } else { 0i64 }),
        BinaryOperator::Ge => Some(if l > r { 1i64 } else { 0i64 }),
        BinaryOperator::Geq => Some(if l >= r { 1i64 } else { 0i64 }),
    }
}

pub fn eval_binop(op: BinaryOperator, l: i64, r: i64) -> (res: Option<i64>)
    ensures
        res == spec_eval_binop(op, l, r),
{
    match op {
        BinaryOperator::Plus => l.checked_add(r),
        BinaryOperator::Sub => l.checked_sub(r),
        BinaryOperator::Mul => l.checked_mul(r),
        BinaryOperator::Div => l.checked_div(r),
        BinaryOperator::Neq => Some(if l != r { 1i64 } else { 0i64 }),
        BinaryOperator::Equal => Some(if l == r { 1i64 } else { 0i64 }),
        BinaryOperator::Leq => Some(if l <= r { 1i64 } else { 0i64 }),
        BinaryOperator::Le => Some(if l < r { 1i64 } else { 0i64 }),
        BinaryOperator::Ge => Some(if l > r { 1i64 } else { 0i64 }),
        BinaryOperator::Geq => Some(if l >= r { 1i64 } else { 0i64 }),
    }
}

/// Every argument's type identity matches the statically recorded type of
/// the register it will be bound to.
pub open spec fn args_type_check(types: Seq<TypeRef>, args: Seq<Object>) -> bool {
    forall|i: int|
        0 <= i < args.len() ==> type_id(#[trigger] args[i].typ) == type_id(types[i])
}

/// The initial register file of a call: the arguments bound to the first
/// registers, every further register zeroed.
pub open spec fn init_regs(types: Seq<TypeRef>, args: Seq<Object>) -> Seq<i64> {
    Seq::new(
        types.len(),
        |i: int|
            if i < args.len() {
                args[i].value
            } else {
                0i64
            },
    )
}

/// The first register number in `regargs` that lies outside a frame of `n`
/// registers, if any.
pub open spec fn first_oob(regargs: Seq<usize>, n: int) -> Option<usize>
    decreases regargs.len(),
{
    if regargs.len() == 0 {
        None
    } else if regargs[0] >= n {
        Some(regargs[0])
    } else {
        first_oob(regargs.subrange(1, regargs.len() as int), n)
    }
}

/// The argument values a call instruction gathers from the current frame.
pub open spec fn gathered_args(types: Seq<TypeRef>, regargs: Seq<usize>, regs: Seq<i64>) -> Seq<
    Object,
> {
    Seq::new(
        regargs.len(),
        |j: int| Object { value: regs[regargs[j] as int], typ: types[regargs[j] as int] },
    )
}

/// What executing one instruction does to a frame.
pub enum StepResult {
    /// Execution moves on to the next instruction.
    Next { regs: Seq<i64>, vm: MachineModel },
    /// The frame stops here, with this machine state and result.
    Stop { vm: MachineModel, result: Result<Object, RuntimeError> },
}

/// Executes one instruction against a frame's registers and the machine
/// state.
pub open spec fn spec_step(types: Seq<TypeRef>, op: OpV, regs: Seq<i64>, vm: MachineModel) -> StepResult
    decreases op, 0int, 0int,
{
    match op {
        OpV::IntLoad { register, constant } => {
            if register >= regs.len() {
                StepResult::Stop { vm, result: Err(RuntimeError::BadRegister { index: register }) }
            } else {
                StepResult::Next { regs: regs.update(register as int, constant), vm }
            }
        },
        OpV::FloatLoad { register, bits } => {
            if register >= regs.len() {
                StepResult::Stop { vm, result: Err(RuntimeError::BadRegister { index: register }) }
            } else {
                StepResult::Next {
                    regs: regs.update(register as int, float_bits_as_register(bits)),
                    vm,
                }
            }
        },
        OpV::StringLoad { register, constant } => {
            if register >= regs.len() {
                StepResult::Stop { vm, result: Err(RuntimeError::BadRegister { index: register }) }
            } else if vm.strings.len() > MAX_STRING_POOL_INDEX {
                StepResult::Stop { vm, result: Err(RuntimeError::Capacity) }
            } else {
                StepResult::Next {
                    regs: regs.update(register as int, vm.strings.len() as i64),
                    vm: MachineModel { strings: vm.strings.push(constant), output: vm.output },
                }
            }
        },
        OpV::Assign { source, target } => {
            if source >= regs.len() {
                StepResult::Stop { vm, result: Err(RuntimeError::BadRegister { index: source }) }
            } else if target >= regs.len() {
                StepResult::Stop { vm, result: Err(RuntimeError::BadRegister { index: target }) }
            } else {
                StepResult::Next { regs: regs.update(target as int, regs[source as int]), vm }
            }
        },
        OpV::Binop { op: bop, left, right, target } => {
            if left >= regs.len() {
                StepResult::Stop { vm, result: Err(RuntimeError::BadRegister { index: left }) }
            } else if right >= regs.len() {
                StepResult::Stop { vm, result: Err(RuntimeError::BadRegister { index: right }) }
            } else if target >= regs.len() {
                StepResult::Stop { vm, result: Err(RuntimeError::BadRegister { index: target }) }
            } else {
                match spec_eval_binop(bop, regs[left as int], regs[right as int]) {
                    None => StepResult::Stop { vm, result: Err(RuntimeError::Arithmetic) },
                    Some(v) => StepResult::Next { regs: regs.update(target as int, v), vm },
                }
            }
        },
        OpV::Call { func, args: regargs, target } => {
            match first_oob(regargs, regs.len() as int) {
                Some(bad) => StepResult::Stop {
                    vm,
                    result: Err(RuntimeError::BadRegister { index: bad }),
                },
                None => {
                    if target >= regs.len() {
                        StepResult::Stop {
                            vm,
                            result: Err(RuntimeError::BadRegister { index: target }),
                        }
                    } else {
                        let r = spec_call(func, gathered_args(types, regargs, regs), vm);
                        match r.1 {
                            Err(e) => StepResult::Stop { vm: r.0, result: Err(e) },
                            Ok(obj) => {
                                if type_id(obj.typ) != type_id(types[target as int]) {
                                    StepResult::Stop {
                                        vm: r.0,
                                        result: Err(RuntimeError::TypeMismatch),
                                    }
                                } else {
                                    StepResult::Next {
                                        regs: regs.update(target as int, obj.value),
                                        vm: r.0,
                                    }
                                }
                            },
                        }
                    }
                },
            }
        },
        OpV::Return { register } => {
            if register >= regs.len() || register >= types.len() {
                StepResult::Stop { vm, result: Err(RuntimeError::BadRegister { index: register }) }
            } else {
                StepResult::Stop {
                    vm,
                    result: Ok(
                        Object { value: regs[register as int], typ: types[register as int] },
                    ),
                }
            }
        },
    }
}

/// Calls a function on argument values: the resulting machine state, and the
/// call's result.
pub open spec fn spec_call(f: FunctionV, args: Seq<Object>, vm: MachineModel) -> (
    MachineModel,
    Result<Object, RuntimeError>,
)
    decreases f, 2int, 0int,
{
    match f {
        FunctionV::Native { name, function, typ } => match function {
            NativeFn::Print => (
                MachineModel { strings: vm.strings, output: vm.output + args },
                Ok(spec_none_object()),
            ),
        },
        FunctionV::VM { name, types, ops, return_typ } => {
            if args.len() > types.len() {
                (vm, Err(RuntimeError::TooManyArguments))
            } else if !args_type_check(types, args) {
                (vm, Err(RuntimeError::TypeMismatch))
            } else {
                spec_exec_ops(types, ops, 0, init_regs(types, args), vm)
            }
        },
    }
}

/// Runs the instruction stream `ops` from position `pc` against the register
/// file `regs`: the resulting machine state, and the frame's result.  The
/// stream runs straight-line; a `Return` stops the frame at once, and an
/// exhausted stream yields the absent value.
pub open spec fn spec_exec_ops(
    types: Seq<TypeRef>,
    ops: Seq<OpV>,
    pc: nat,
    regs: Seq<i64>,
    vm: MachineModel,
) -> (MachineModel, Result<Object, RuntimeError>)
    decreases ops, 1int, ops.len() - pc,
{
    if pc >= ops.len() {
        (vm, Ok(spec_none_object()))
    } else {
        match spec_step(types, ops[pc as int], regs, vm) {
            StepResult::Next { regs: regs2, vm: vm2 } => spec_exec_ops(
                types,
                ops,
                pc + 1,
                regs2,
                vm2,
            ),
            StepResult::Stop { vm: vm2, result } => (vm2, result),
        }
    }
}

impl Function {
    /// Executes this callable on the given argument values.  The result and
    /// the machine's new state are exactly what the mathematical model
    /// `spec_call` yields on the function's shape.
    #[verifier::loop_isolation(false)]
    pub fn call(&self, vm: &mut VM, args: &[Object]) -> (r: Result<Object, RuntimeError>)
        ensures
            final(vm).model() == spec_call(self.fview(), args@, old(vm).model()).0,
            r == spec_call(self.fview(), args@, old(vm).model()).1,
        decreases *self,
    {
        match self {
            Function::NativeFunction { name: _, function, typ: _ } => match function {
                NativeFn::Print => {
                    let mut j: usize = 0;
                    while j < args.len()
                        invariant
                            j <= args@.len(),
                            vm.strings@ == old(vm).strings@,
                            vm.output@ == old(vm).output@ + args@.subrange(0, j as int),
                        decreases args@.len() - j,
                    {
                        proof {
                            assert(args@.subrange(0, j as int + 1) =~= args@.subrange(
                                0,
                                j as int,
                            ).push(args@[j as int]));
                        }
                        let obj = args[j].clone();
                        vm.output.push(obj);
                        j = j + 1;
                    }
                    proof {
                        assert(args@.subrange(0, args@.len() as int) =~= args@);
                        assert(vm.model() =~= spec_call(self.fview(), args@, old(vm).model()).0);
                    }
                    Ok(Object { value: 0, typ: get_none_type() })
                },
            },
            Function::VMFunction(f) => {
                let ghost types_v = f.scope.types@;
                let ghost ops_v = ops_view(f.ops@);
                let ghost vm0 = vm.model();
                let ghost fv = self.fview();
                proof {
                    lemma_ops_view_len(f.ops@);
                    assert(fv == (FunctionV::VM {
                        name: f.name@,
                        types: types_v,
                        ops: ops_v,
                        return_typ: f.return_typ,
                    }));
                }
                if args.len() > f.scope.types.len() {
                    return Err(RuntimeError::TooManyArguments);
                }
                // Arguments must match the statically recorded register types.
                let mut j: usize = 0;
                while j < args.len()
                    invariant
                        j <= args@.len(),
                        args@.len() <= types_v.len(),
                        types_v == f.scope.types@,
                        forall|i: int|
                            0 <= i < j ==> type_id(#[trigger] args@[i].typ) == type_id(types_v[i]),
                    decreases args@.len() - j,
                {
                    let expected = &f.scope.types[j];
                    let given = &args[j];
                    if given.typ.id() != expected.id() {
                        proof {
                            assert(!args_type_check(types_v, args@));
                            assert(spec_call(fv, args@, old(vm).model()) == (
                                old(vm).model(),
                                Err::<Object, RuntimeError>(RuntimeError::TypeMismatch),
                            ));
                        }
                        return Err(RuntimeError::TypeMismatch);
                    }
                    j = j + 1;
                }
                // Fresh register file for this call, arguments bound first.
                let mut instance = f.scope.create_instance();
                j = 0;
                while j < args.len()
                    invariant
                        j <= args@.len(),
                        args@.len() <= instance.registers@.len(),
                        instance.registers@.len() == types_v.len(),
                        forall|i: int| 0 <= i < j ==> instance.registers@[i] == args@[i].value,
                        forall|i: int|
                            j <= i < instance.registers@.len() ==> instance.registers@[i] == 0i64,
                    decreases args@.len() - j,
                {
                    let given = &args[j];
                    instance.registers.set(j, given.value);
                    j = j + 1;
                }
                proof {
                    assert(instance.registers@ =~= init_regs(types_v, args@));
                }
                let ghost regs0 = instance.registers@;
                let mut pc: usize = 0;
                while pc < f.ops.len()
                    invariant
                        pc <= f.ops@.len(),
                        ops_v == ops_view(f.ops@),
                        ops_v.len() == f.ops@.len(),
                        types_v == f.scope.types@,
                        instance.registers@.len() == types_v.len(),
                        spec_call(self.fview(), args@, old(vm).model()) == spec_exec_ops(
                            types_v,
                            ops_v,
                            0,
                            regs0,
                            vm0,
                        ),
                        spec_exec_ops(types_v, ops_v, 0, regs0, vm0) == spec_exec_ops(
                            types_v,
                            ops_v,
                            pc as nat,
                            instance.registers@,
                            vm.model(),
                        ),
                    decreases f.ops@.len() - pc,
                {
                    let ghost regs_pre = instance.registers@;
                    let ghost vm_pre = vm.model();
                    proof {
                        lemma_ops_view_index(f.ops@, pc as int);
                    }
                    let op = &f.ops[pc];
                    match op {
                        Op::IntLoad { register, constant } => {
                            if *register >= instance.registers.len() {
                                return Err(RuntimeError::BadRegister { index: *register });
                            }
                            instance.registers.set(*register, *constant);
                        },
                        Op::FloatLoad { register, bits } => {
                            if *register >= instance.registers.len() {
                                return Err(RuntimeError::BadRegister { index: *register });
                            }
                            let v = float_bits_to_register(*bits);
                            instance.registers.set(*register, v);
                        },
                        Op::StringLoad { register, constant } => {
                            if *register >= instance.registers.len() {
                                return Err(RuntimeError::BadRegister { index: *register });
                            }
                            if vm.strings.len() as u64 > MAX_STRING_POOL_INDEX {
                                return Err(RuntimeError::Capacity);
                            }
                            let index = vm.strings.len();
                            let s = constant.clone();
                            vm.strings.push(s);
                            instance.registers.set(*register, index as i64);
                            proof {
                                assert(vm.model().strings =~= vm_pre.strings.push(constant@));
                                assert(spec_step(types_v, ops_v[pc as int], regs_pre, vm_pre)
                                    == (StepResult::Next {
                                    regs: instance.registers@,
                                    vm: vm.model(),
                                }));
                            }
                        },
                        Op::Assign { source, target } => {
                            if *source >= instance.registers.len() {
                                return Err(RuntimeError::BadRegister { index: *source });
                            }
                            if *target >= instance.registers.len() {
                                return Err(RuntimeError::BadRegister { index: *target });
                            }
                            let v = instance.registers[*source];
                            instance.registers.set(*target, v);
                        },
                        Op::Binop { op: bop, left, right, target } => {
                            if *left >= instance.registers.len() {
                                return Err(RuntimeError::BadRegister { index: *left });
                            }
                            if *right >= instance.registers.len() {
                                return Err(RuntimeError::BadRegister { index: *right });
                            }
                            if *target >= instance.registers.len() {
                                return Err(RuntimeError::BadRegister { index: *target });
                            }
                            let l = instance.registers[*left];
                            let rr = instance.registers[*right];
                            match eval_binop(*bop, l, rr) {
                                None => {
                                    return Err(RuntimeError::Arithmetic);
                                },
                                Some(v) => {
                                    instance.registers.set(*target, v);
                                },
                            }
                        },
                        Op::Call { func, args: regargs, target } => {
                            let mut vals: Vec<Object> = Vec::new();
                            let mut k: usize = 0;
                            proof {
                                assert(regargs@.subrange(0, regargs@.len() as int) =~= regargs@);
                            }
                            while k < regargs.len()
                                invariant
                                    k <= regargs@.len(),
                                    types_v == f.scope.types@,
                                    instance.registers@ == regs_pre,
                                    instance.registers@.len() == types_v.len(),
                                    vals@.len() == k,
                                    forall|i: int|
                                        0 <= i < k ==> (#[trigger] regargs@[i]) < regs_pre.len(),
                                    forall|i: int|
                                        0 <= i < k ==> #[trigger] vals@[i] == (Object {
                                            value: regs_pre[regargs@[i] as int],
                                            typ: types_v[regargs@[i] as int],
                                        }),
                                    first_oob(regargs@, regs_pre.len() as int) == first_oob(
                                        regargs@.subrange(k as int, regargs@.len() as int),
                                        regs_pre.len() as int,
                                    ),
                                decreases regargs@.len() - k,
                            {
                                proof {
                                    assert(regargs@.subrange(k as int, regargs@.len() as int)[0]
                                        == regargs@[k as int]);
                                    assert(regargs@.subrange(
                                        k as int,
                                        regargs@.len() as int,
                                    ).subrange(
                                        1,
                                        regargs@.subrange(
                                            k as int,
                                            regargs@.len() as int,
                                        ).len() as int,
                                    ) =~= regargs@.subrange(k as int + 1, regargs@.len() as int));
                                }
                                let reg = regargs[k];
                                if reg >= instance.registers.len() {
                                    proof {
                                        assert(first_oob(regargs@, regs_pre.len() as int)
                                            == Some(reg));
                                        assert(ops_v[pc as int] == f.ops@[pc as int].opv());
                                        assert(spec_step(types_v, ops_v[pc as int], regs_pre, vm_pre)
                                            == (StepResult::Stop {
                                            vm: vm_pre,
                                            result: Err(RuntimeError::BadRegister { index: reg }),
                                        }));
                                        assert(spec_exec_ops(
                                            types_v,
                                            ops_v,
                                            pc as nat,
                                            regs_pre,
                                            vm_pre,
                                        ) == (vm_pre, Err::<Object, RuntimeError>(
                                            RuntimeError::BadRegister { index: reg },
                                        )));
                                    }
                                    return Err(RuntimeError::BadRegister { index: reg });
                                }
                                let obj = Object {
                                    value: instance.registers[reg],
                                    typ: f.scope.types[reg].clone(),
                                };
                                vals.push(obj);
                                k = k + 1;
                            }
                            proof {
                                assert(regargs@.subrange(
                                    regargs@.len() as int,
                                    regargs@.len() as int,
                                ) =~= Seq::<usize>::empty());
                                assert(first_oob(regargs@, regs_pre.len() as int) is None);
                                assert(vals@ =~= gathered_args(types_v, regargs@, regs_pre));
                            }
                            if *target >= instance.registers.len() {
                                return Err(RuntimeError::BadRegister { index: *target });
                            }
                            proof {
                                assert(self->VMFunction_0 == *f);
                                assert(f.ops@[pc as int] == *op);
                                assert(f.ops@[pc as int]->Call_func == *func);
                                assert(decreases_to!(*self => self->VMFunction_0));
                                assert(decreases_to!(*f => f.ops));
                                assert(decreases_to!(f.ops => f.ops@));
                                assert(decreases_to!(f.ops@ => f.ops@[pc as int]));
                                assert(decreases_to!(f.ops@[pc as int] => f.ops@[pc as int]
                                    ->Call_func));
                            }
                            let res = func.call(vm, vals.as_slice());
                            match res {
                                Err(e) => {
                                    return Err(e);
                                },
                                Ok(obj) => {
                                    let expected = &f.scope.types[*target];
                                    if obj.typ.id() != expected.id() {
                                        return Err(RuntimeError::TypeMismatch);
                                    }
                                    instance.registers.set(*target, obj.value);
                                },
                            }
                        },
                        Op::Return { register } => {
                            if *register >= instance.registers.len() {
                                return Err(RuntimeError::BadRegister { index: *register });
                            }
                            return Ok(
                                Object {
                                    value: instance.registers[*register],
                                    typ: f.scope.types[*register].clone(),
                                },
                            );
                        },
                    }
                    pc = pc + 1;
                }
                Ok(Object { value: 0, typ: get_none_type() })
            },
        }
    }
}

/// Law: a nested call never lets the callee observe or mutate the caller's
/// register file.  The callee runs on a register file of its own, built
/// freshly from its scope and the gathered argument values, and the only
/// caller register a call instruction writes is its own destination
/// register.
pub proof fn lemma_call_preserves_caller_frame(
    types: Seq<TypeRef>,
    op: OpV,
    regs: Seq<i64>,
    vm: MachineModel,
)
    requires
        op matches OpV::Call { .. },
    ensures
        match spec_step(types, op, regs, vm) {
            StepResult::Next { regs: regs2, .. } => {
                &&& regs2.len() == regs.len()
                &&& forall|i: int|
                    0 <= i < regs.len() && i != op->Call_target ==> regs2[i] == regs[i]
            },
            StepResult::Stop { .. } => true,
        },
{
}

} // verus!
