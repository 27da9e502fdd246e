//! The compile-time symbol table and register allocator for one function
//! body, and the per-call register file instantiated from it.
//!
//! Register indices are handed out monotonically starting at 0 and are never
//! reused or freed within one scope's lifetime; every local name is bound to
//! such an index, and `types` records the static type of every register.

use std::rc::Rc;
use vstd::prelude::*;

use crate::function::Function;
use crate::types::clone_rc;
use crate::types::TypeRef;

verus! {

/// The binding result of every scope operation that allocates or looks up a
/// register: a register index together with its static type.  A transient
/// value, safe to copy freely.
pub struct LocalObject {
    pub index: usize,
    pub typ: TypeRef,
}

impl Clone for LocalObject {
    /// The clone is the same binding: same index, same type identity.
    fn clone(&self) -> (r: LocalObject)
        ensures
            r == *self,
    {
        LocalObject { index: self.index, typ: self.typ.clone() }
    }
}

/// Looks a name up in an association list where the latest entry for a name
/// wins, as later bindings shadow earlier ones.
pub open spec fn spec_lookup<V>(entries: Seq<(String, V)>, name: Seq<char>) -> Option<V>
    decreases entries.len(),
{
    if entries.len() == 0 {
        None
    } else if entries.last().0@ == name {
        Some(entries.last().1)
    } else {
        spec_lookup(entries.drop_last(), name)
    }
}

/// The compile-time symbol table of one function body: local name bindings,
/// the per-register static types, and the callable functions visible to the
/// body.  Frozen once generation completes, then shared by every register
/// file created from it.
pub struct Scope {
    pub locals: Vec<(String, usize)>,
    pub functions: Vec<(String, Rc<Function>)>,
    pub types: Vec<TypeRef>,
}

/// The runtime register file of one call: one value slot per register
/// declared in the owning scope, owned exclusively by that call's frame.
pub struct ScopeInstance {
    pub registers: Vec<i64>,
}

impl Scope {
    /// Every local name is bound to a valid index into the register types.
    pub open spec fn wf(self) -> bool {
        forall|j: int|
            0 <= j < self.locals@.len() ==> (#[trigger] self.locals@[j]).1 < self.types@.len()
    }

    pub fn new() -> (r: Scope)
        ensures
            r.locals@ =~= Seq::<(String, usize)>::empty(),
            r.functions@ =~= Seq::<(String, Rc<Function>)>::empty(),
            r.types@ =~= Seq::<TypeRef>::empty(),
            r.wf(),
    {
        Scope { locals: Vec::new(), functions: Vec::new(), types: Vec::new() }
    }

    /// Pure lookup of a local name; `None` signals an unresolved symbol.
    pub fn get_local(&self, name: &String) -> (r: Option<LocalObject>)
        requires
            self.wf(),
        ensures
            match spec_lookup(self.locals@, name@) {
                Some(i) => r matches Some(o) && o.index == i && i < self.types@.len()
                    && o.typ == self.types@[i as int],
                None => r matches None,
            },
    {
        let mut i: usize = self.locals.len();
        proof {
            assert(self.locals@.subrange(0, i as int) =~= self.locals@);
        }
        while i > 0
            invariant
                self.wf(),
                i <= self.locals@.len(),
                spec_lookup(self.locals@, name@) == spec_lookup(
                    self.locals@.subrange(0, i as int),
                    name@,
                ),
            decreases i,
        {
            i = i - 1;
            let entry = &self.locals[i];
            proof {
                assert(self.locals@.subrange(0, i as int + 1).drop_last() =~= self.locals@
                    .subrange(0, i as int));
                assert(self.locals@.subrange(0, i as int + 1).last() == self.locals@[i as int]);
            }
            if entry.0.eq(name) {
                return Some(LocalObject { index: entry.1, typ: self.types[entry.1].clone() });
            }
        }
        proof {
            assert(self.locals@.subrange(0, 0) =~= Seq::<(String, usize)>::empty());
        }
        None
    }

    /// Appends a register of the given type and returns the new, highest
    /// index so far.  Never fails; indices are never reclaimed, so the
    /// indices returned by successive allocations on one scope are strictly
    /// increasing from 0, with no index ever repeated.
    pub fn allocate_local(&mut self, typ: TypeRef) -> (r: LocalObject)
        ensures
            r.index == old(self).types@.len(),
            r.typ == typ,
            final(self).types@ == old(self).types@.push(typ),
            final(self).locals@ == old(self).locals@,
            final(self).functions@ == old(self).functions@,
            old(self).wf() ==> final(self).wf(),
    {
        let index = self.types.len();
        self.types.push(typ.clone());
        LocalObject { index, typ }
    }

    /// Allocates a fresh register and binds `name` to it, shadowing any prior
    /// binding for that name in this scope.
    pub fn add_local(&mut self, name: &String, typ: TypeRef) -> (r: LocalObject)
        ensures
            r.index == old(self).types@.len(),
            r.typ == typ,
            final(self).types@ == old(self).types@.push(typ),
            final(self).locals@ == old(self).locals@.push((*name, r.index)),
            final(self).functions@ == old(self).functions@,
            old(self).wf() ==> final(self).wf(),
    {
        let object = self.allocate_local(typ);
        self.locals.push((name.clone(), object.index));
        object
    }

    /// Registers a callable function under `name`, shadowing any prior
    /// registration for that name.
    pub fn add_function(&mut self, name: String, function: Rc<Function>)
        ensures
            final(self).functions@ == old(self).functions@.push((name, function)),
            final(self).locals@ == old(self).locals@,
            final(self).types@ == old(self).types@,
    {
        self.functions.push((name, function));
    }

    /// Pure lookup of a callable by exact name; `None` signals an unresolved
    /// function name.  How an unresolved name is handled is the caller's
    /// policy decision, not this table's.
    pub fn get_function(&self, name: &String) -> (r: Option<Rc<Function>>)
        ensures
            match spec_lookup(self.functions@, name@) {
                Some(f) => r matches Some(g) && g == f,
                None => r matches None,
            },
    {
        let mut i: usize = self.functions.len();
        proof {
            assert(self.functions@.subrange(0, i as int) =~= self.functions@);
        }
        while i > 0
            invariant
                i <= self.functions@.len(),
                spec_lookup(self.functions@, name@) == spec_lookup(
                    self.functions@.subrange(0, i as int),
                    name@,
                ),
            decreases i,
        {
            i = i - 1;
            let entry = &self.functions[i];
            proof {
                assert(self.functions@.subrange(0, i as int + 1).drop_last() =~= self.functions@
                    .subrange(0, i as int));
                assert(self.functions@.subrange(0, i as int + 1).last() == self.functions@[
                    i as int
                ]);
            }
            if entry.0.eq(name) {
                return Some(clone_rc(&entry.1));
            }
        }
        proof {
            assert(self.functions@.subrange(0, 0) =~= Seq::<(String, Rc<Function>)>::empty());
        }
        None
    }

    /// The number of registers declared so far.
    pub fn local_count(&self) -> (r: usize)
        ensures
            r == self.types@.len(),
    {
        self.types.len()
    }

    /// Materializes a fresh, zero-initialized register file sized to the
    /// current register count.  Every instance is independent of every other.
    pub fn create_instance(&self) -> (r: ScopeInstance)
        ensures
            r.registers@.len() == self.types@.len(),
            forall|i: int| 0 <= i < r.registers@.len() ==> r.registers@[i] == 0i64,
    {
        let n = self.types.len();
        let mut registers: Vec<i64> = Vec::new();
        let mut i: usize = 0;
        while i < n
            invariant
                i <= n,
                registers@.len() == i,
                forall|j: int| 0 <= j < i ==> registers@[j] == 0i64,
            decreases n - i,
        {
            registers.push(0);
            i = i + 1;
        }
        ScopeInstance { registers }
    }
}

} // verus!
