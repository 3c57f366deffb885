//! Values that can be attached to a context, and the type keys that
//! lookups are made with.
//!
//! The chain stores values of several runtime types and resolves a
//! lookup by comparing runtime types exactly, so the value type is a
//! tagged union: each variant is one runtime type, and `TypeKey` names
//! a variant without carrying a payload.  The `Custom` pair lets a
//! caller mint any number of distinct wrapper types over the same
//! payload type; two wrappers with different tags are different types
//! to a lookup even when their payloads coincide.

use vstd::prelude::*;

verus! {

/// The runtime type of a stored value, as a lookup requests it.
#[derive(Clone, Copy, PartialEq, Eq, Structural, Debug)]
pub enum TypeKey {
    /// The type of signed integer values.
    Int,
    /// The type of floating-point values, kept by their bit pattern.
    Float,
    /// The type of text values.
    Text,
    /// A caller-minted wrapper type, one per tag.
    Custom(u64),
}

/// One value stored in a chain node, together with its runtime type.
#[derive(Debug)]
pub enum Value {
    /// A signed integer.
    Int(i64),
    /// The bit pattern of a 64-bit floating-point number.  The chain
    /// never computes with it, so it is kept as plain bits; callers
    /// convert at the boundary.
    Float(u64),
    /// A text value.
    Text(String),
    /// A value of the wrapper type named by the tag, holding a signed
    /// integer payload.
    Custom(u64, i64),
}

impl Value {
    /// The runtime type of this value.
    pub open spec fn key_of(self) -> TypeKey {
        match self {
            Value::Int(_) => TypeKey::Int,
            Value::Float(_) => TypeKey::Float,
            Value::Text(_) => TypeKey::Text,
            Value::Custom(tag, _) => TypeKey::Custom(tag),
        }
    }

    /// Returns the runtime type of this value.
    pub fn type_key(&self) -> (r: TypeKey)
        ensures
            r == self.key_of(),
    {
        match self {
            Value::Int(_) => TypeKey::Int,
            Value::Float(_) => TypeKey::Float,
            Value::Text(_) => TypeKey::Text,
            Value::Custom(tag, _) => TypeKey::Custom(*tag),
        }
    }
}

impl Clone for Value {
    /// An independent copy, equal to the original.
    fn clone(&self) -> (res: Self)
        ensures
            res == *self,
    {
        match self {
            Value::Int(i) => Value::Int(*i),
            Value::Float(bits) => Value::Float(*bits),
            Value::Text(s) => Value::Text(s.clone()),
            Value::Custom(tag, payload) => Value::Custom(*tag, *payload),
        }
    }
}

impl PartialEq for Value {
    fn eq(&self, other: &Value) -> (r: bool) {
        match (self, other) {
            (Value::Int(a), Value::Int(b)) => *a == *b,
            (Value::Float(a), Value::Float(b)) => *a == *b,
            (Value::Text(a), Value::Text(b)) => a.eq(b),
            (Value::Custom(ta, pa), Value::Custom(tb, pb)) => *ta == *tb && *pa == *pb,
            _ => false,
        }
    }
}

impl vstd::std_specs::cmp::PartialEqSpecImpl for Value {
    open spec fn obeys_eq_spec() -> bool {
        true
    }

    open spec fn eq_spec(&self, other: &Value) -> bool {
        match (*self, *other) {
            (Value::Int(a), Value::Int(b)) => a == b,
            (Value::Float(a), Value::Float(b)) => a == b,
            (Value::Text(a), Value::Text(b)) => a@ == b@,
            (Value::Custom(ta, pa), Value::Custom(tb, pb)) => ta == tb && pa == pb,
            _ => false,
        }
    }
}

} // verus!
