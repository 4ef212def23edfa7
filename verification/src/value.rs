//! The closed value model.
//!
//! One typed input becomes exactly one [`Value`] tree. Every distinguishable
//! source shape maps to its own variant; the only deliberate collapses are
//! unit and unit-struct (both plain [`Value::Unit`]) and tuple-struct versus
//! tuple (structurally identical, the declaring type's name is dropped).
//!
//! The declaration order of the variants below is the fixed enumeration order
//! used by the discriminant-first total order in [`crate::order`].
//!
//! Floating-point payloads are carried as their IEEE-754 bit patterns
//! (`u32` / `u64`), so that float keys take part in the explicit total order;
//! the order on them is the sign-magnitude total order, see
//! [`crate::order::float32_key`].

use vstd::prelude::*;

verus! {

/// A node of the uniform value tree.
///
/// Scalars copy the source payload one to one. Composites own their children
/// exclusively; keyed composites (`Map`, `Struct`, `StructVariant`) store
/// entries as a key-sorted association list, see [`crate::entries`].
/// Struct field names are wrapped in `StructKey` / `StructVariantKey` so they
/// never collide with plain string map keys under the ordering.
#[derive(Debug, PartialEq, Eq)]
pub enum Value {
    /// Unit, and unit-struct with its name dropped.
    Unit,
    Boolean(bool),
    Int8(i8),
    Int16(i16),
    Int32(i32),
    Int64(i64),
    Uint8(u8),
    Uint16(u16),
    Uint32(u32),
    Uint64(u64),
    /// A 32-bit float, stored as its IEEE-754 bit pattern.
    Float32(u32),
    /// A 64-bit float, stored as its IEEE-754 bit pattern.
    Float64(u64),
    Char(char),
    String(String),
    Bytes(Vec<u8>),
    /// An absent optional.
    OptionNone,
    /// A present optional wrapping exactly one inner value.
    OptionSome(Box<Value>),
    /// A unit enum variant, identified only by the variant's name.
    EnumUnit(String),
    /// A newtype struct's single wrapped value; the type's name is dropped.
    NewtypeStruct(Vec<Value>),
    /// A newtype enum variant: the variant's name and its single value.
    Enum(String, Vec<Value>),
    /// An ordered, variable-length sequence; element order is source order.
    Array(Vec<Value>),
    Tuple(Vec<Value>),
    TupleStruct(Vec<Value>),
    /// A tuple enum variant: the variant's name and its elements in order.
    TupleVariant(String, Vec<Value>),
    /// A map: key-sorted entries (the map shape of the source).
    Mapping(Vec<(Value, Value)>),
    /// A struct: entries keyed by `StructKey`, key-sorted.
    Struct(Vec<(Value, Value)>),
    /// A struct enum variant: the variant's name and entries keyed by
    /// `StructVariantKey`, key-sorted.
    StructVariant(String, Vec<(Value, Value)>),
    /// A struct field name, as a key.
    StructKey(String),
    /// A struct-variant field name, as a key.
    StructVariantKey(String),
}

} // verus!
