//! Type identity: the fixed set of built-in value kinds, plus heap-allocated
//! descriptors for future user-defined types.
//!
//! Two type references denote the same type exactly when their identities
//! (numeric ids) are equal; types are never compared by name.  The built-in
//! types own the ids below `FIRST_HEAP_TYPE_ID`; a well-formed heap descriptor
//! carries an id at or above it.

use std::rc::Rc;
use vstd::prelude::*;

verus! {

/// The built-in value kinds: integer, float, string, and absence-of-value.
#[derive(Clone, Copy, PartialEq, Eq, Structural, Debug)]
pub enum BuiltinType {
    Int,
    Float,
    Str,
    NoValue,
}

/// A heap-allocated type descriptor, for user-defined types.  Its identity is
/// its `id`; the name is display-only and never decides type equality.
pub struct Type {
    pub id: u64,
    pub name: String,
}

/// A reference to a type identity: either one of the built-in singletons or a
/// shared handle to a heap-allocated descriptor.  Both forms expose `name`
/// and are usable wherever a type is required.
pub enum TypeRef {
    Static(BuiltinType),
    Heap(Rc<Type>),
}

pub const INT_TYPE_ID: u64 = 0;

pub const FLOAT_TYPE_ID: u64 = 1;

pub const STRING_TYPE_ID: u64 = 2;

pub const NONE_TYPE_ID: u64 = 3;

/// Heap-allocated descriptors must use ids at or above this, so that they can
/// never collide with a built-in type's identity.
pub const FIRST_HEAP_TYPE_ID: u64 = 4;

pub open spec fn builtin_type_id(b: BuiltinType) -> u64 {
    match b {
        BuiltinType::Int => INT_TYPE_ID,
        BuiltinType::Float => FLOAT_TYPE_ID,
        BuiltinType::Str => STRING_TYPE_ID,
        BuiltinType::NoValue => NONE_TYPE_ID,
    }
}

/// The identity of the type a reference denotes.  Type equality is equality
/// of this id.
pub open spec fn type_id(t: TypeRef) -> u64 {
    match t {
        TypeRef::Static(b) => builtin_type_id(b),
        TypeRef::Heap(d) => d.id,
    }
}

pub open spec fn spec_type_name(t: TypeRef) -> Seq<char> {
    match t {
        TypeRef::Static(BuiltinType::Int) => "Int"@,
        TypeRef::Static(BuiltinType::Float) => "Float"@,
        TypeRef::Static(BuiltinType::Str) => "String"@,
        TypeRef::Static(BuiltinType::NoValue) => "None"@,
        TypeRef::Heap(d) => d.name@,
    }
}

/// Relies on `Rc::clone` of std: the result is a handle to the very same
/// shared allocation, so as a value it equals its argument.
#[verifier::external_body]
pub(crate) fn clone_rc<T>(x: &Rc<T>) -> (r: Rc<T>)
    ensures
        r == *x,
{
    x.clone()
}

impl Clone for TypeRef {
    /// Cloning keeps the identity: the clone denotes the same type.
    fn clone(&self) -> (r: TypeRef)
        ensures
            r == *self,
    {
        match self {
            TypeRef::Static(b) => TypeRef::Static(*b),
            TypeRef::Heap(d) => TypeRef::Heap(clone_rc(d)),
        }
    }
}

impl TypeRef {
    /// The identity the reference denotes, as a comparable number.
    pub fn id(&self) -> (r: u64)
        ensures
            r == type_id(*self),
    {
        match self {
            TypeRef::Static(b) => match b {
                BuiltinType::Int => INT_TYPE_ID,
                BuiltinType::Float => FLOAT_TYPE_ID,
                BuiltinType::Str => STRING_TYPE_ID,
                BuiltinType::NoValue => NONE_TYPE_ID,
            },
            TypeRef::Heap(d) => d.id,
        }
    }

    /// The type's display name.  Names never decide equality: two distinct
    /// identities may share one name.
    pub fn name(&self) -> (r: String)
        ensures
            r@ == spec_type_name(*self),
    {
        match self {
            TypeRef::Static(b) => match b {
                BuiltinType::Int => "Int".to_owned(),
                BuiltinType::Float => "Float".to_owned(),
                BuiltinType::Str => "String".to_owned(),
                BuiltinType::NoValue => "None".to_owned(),
            },
            TypeRef::Heap(d) => d.name.clone(),
        }
    }
}

/// Two references denote the same type exactly when their ids are equal.
pub fn same_type(a: &TypeRef, b: &TypeRef) -> (r: bool)
    ensures
        r == (type_id(*a) == type_id(*b)),
{
    a.id() == b.id()
}

pub fn get_int_type() -> (r: TypeRef)
    ensures
        r == TypeRef::Static(BuiltinType::Int),
{
    TypeRef::Static(BuiltinType::Int)
}

pub fn get_float_type() -> (r: TypeRef)
    ensures
        r == TypeRef::Static(BuiltinType::Float),
{
    TypeRef::Static(BuiltinType::Float)
}

pub fn get_string_type() -> (r: TypeRef)
    ensures
        r == TypeRef::Static(BuiltinType::Str),
{
    TypeRef::Static(BuiltinType::Str)
}

pub fn get_none_type() -> (r: TypeRef)
    ensures
        r == TypeRef::Static(BuiltinType::NoValue),
{
    TypeRef::Static(BuiltinType::NoValue)
}

} // verus!
