//! The adapter: typed input shapes become [`Value`] nodes.
//!
//! [`Serializer`] is the single, stateless entry point: one constructor per
//! scalar shape, and one opener per composite shape, each opener yielding a
//! fresh short-lived builder. A builder collects fully built child values —
//! produced by fresh recursive uses of the adapter — and finalizes bottom-up
//! into one value. Builders share no state with their parent or siblings.
//!
//! The adapter either returns exactly one value or fails; it never partially
//! succeeds. The only failure the repertoire itself can produce is a value
//! pushed into a map builder with no pending key.

use crate::entries::{entries_insert, entries_sorted, insert_entry};
use crate::value::Value;
use vstd::prelude::*;

verus! {

/// A construction failure. The one condition the enumerated repertoire can
/// raise is a map value pushed with no pending key; the type also serves as
/// the escape hatch for shapes outside the repertoire.
#[derive(Debug)]
pub struct Error;

impl Error {
    /// A user-facing description of the failure.
    pub fn message(&self) -> (m: &'static str)
        ensures
            m@ == "serialize error"@,
    {
        "serialize error"
    }
}

/// The adapter. Each method turns one source shape into its value, or opens
/// the builder that will. It prefers compact encodings: see
/// [`Serializer::is_human_readable`].
pub struct Serializer;

impl Serializer {
    pub fn serialize_bool(self, v: bool) -> (r: Result<Value, Error>)
        ensures
            r matches Ok(val) && val == Value::Boolean(v),
    {
        Ok(Value::Boolean(v))
    }

    pub fn serialize_i8(self, v: i8) -> (r: Result<Value, Error>)
        ensures
            r matches Ok(val) && val == Value::Int8(v),
    {
        Ok(Value::Int8(v))
    }

    pub fn serialize_i16(self, v: i16) -> (r: Result<Value, Error>)
        ensures
            r matches Ok(val) && val == Value::Int16(v),
    {
        Ok(Value::Int16(v))
    }

    pub fn serialize_i32(self, v: i32) -> (r: Result<Value, Error>)
        ensures
            r matches Ok(val) && val == Value::Int32(v),
    {
        Ok(Value::Int32(v))
    }

    pub fn serialize_i64(self, v: i64) -> (r: Result<Value, Error>)
        ensures
            r matches Ok(val) && val == Value::Int64(v),
    {
        Ok(Value::Int64(v))
    }

    pub fn serialize_u8(self, v: u8) -> (r: Result<Value, Error>)
        ensures
            r matches Ok(val) && val == Value::Uint8(v),
    {
        Ok(Value::Uint8(v))
    }

    pub fn serialize_u16(self, v: u16) -> (r: Result<Value, Error>)
        ensures
            r matches Ok(val) && val == Value::Uint16(v),
    {
        Ok(Value::Uint16(v))
    }

    pub fn serialize_u32(self, v: u32) -> (r: Result<Value, Error>)
        ensures
            r matches Ok(val) && val == Value::Uint32(v),
    {
        Ok(Value::Uint32(v))
    }

    pub fn serialize_u64(self, v: u64) -> (r: Result<Value, Error>)
        ensures
            r matches Ok(val) && val == Value::Uint64(v),
    {
        Ok(Value::Uint64(v))
    }

    /// Takes the 32-bit float's IEEE-754 bit pattern; see [`crate::value`].
    pub fn serialize_float32(self, bits: u32) -> (r: Result<Value, Error>)
        ensures
            r matches Ok(val) && val == Value::Float32(bits),
    {
        Ok(Value::Float32(bits))
    }

    /// Takes the 64-bit float's IEEE-754 bit pattern; see [`crate::value`].
    pub fn serialize_float64(self, bits: u64) -> (r: Result<Value, Error>)
        ensures
            r matches Ok(val) && val == Value::Float64(bits),
    {
        Ok(Value::Float64(bits))
    }

    pub fn serialize_char(self, v: char) -> (r: Result<Value, Error>)
        ensures
            r matches Ok(val) && val == Value::Char(v),
    {
        Ok(Value::Char(v))
    }

    /// Copies the string slice into an owned string node.
    pub fn serialize_str(self, v: &str) -> (r: Result<Value, Error>)
        ensures
            r matches Ok(val) && val matches Value::String(s) && s@ == v@,
    {
        Ok(Value::String(v.to_owned()))
    }

    /// Copies the byte buffer into an owned byte-buffer node.
    pub fn serialize_bytes(self, v: &[u8]) -> (r: Result<Value, Error>)
        ensures
            r matches Ok(val) && val matches Value::Bytes(b) && b@ == v@,
    {
        let mut buf: Vec<u8> = Vec::new();
        buf.extend_from_slice(v);
        proof {
            assert(buf@ =~= v@);
        }
        Ok(Value::Bytes(buf))
    }

    pub fn serialize_none(self) -> (r: Result<Value, Error>)
        ensures
            r matches Ok(val) && val == Value::OptionNone,
    {
        Ok(Value::OptionNone)
    }

    /// Wraps an already adapted inner value as a present optional.
    pub fn serialize_some(self, value: Value) -> (r: Result<Value, Error>)
        ensures
            r matches Ok(val) && val matches Value::OptionSome(b) && *b == value,
    {
        Ok(Value::OptionSome(Box::new(value)))
    }

    pub fn serialize_unit(self) -> (r: Result<Value, Error>)
        ensures
            r matches Ok(val) && val == Value::Unit,
    {
        Ok(Value::Unit)
    }

    /// A unit struct collapses to plain unit; its name is dropped.
    pub fn serialize_unit_struct(self, _name: &str) -> (r: Result<Value, Error>)
        ensures
            r matches Ok(val) && val == Value::Unit,
    {
        self.serialize_unit()
    }

    /// A unit enum variant keeps only the variant's name; the enum's own
    /// name and the variant's index are dropped.
    pub fn serialize_unit_variant(
        self,
        _name: &str,
        _variant_index: u32,
        variant: &str,
    ) -> (r: Result<Value, Error>)
        ensures
            r matches Ok(val) && val matches Value::EnumUnit(s) && s@ == variant@,
    {
        Ok(Value::EnumUnit(variant.to_owned()))
    }

    /// A newtype struct becomes a one-element unnamed composite wrapping the
    /// already adapted inner value; the struct's name is dropped.
    pub fn serialize_newtype_struct(self, _name: &str, value: Value) -> (r: Result<Value, Error>)
        ensures
            r matches Ok(val) && val matches Value::NewtypeStruct(c) && c@ == seq![value],
    {
        let ghost v = value;
        let mut children: Vec<Value> = Vec::new();
        children.push(value);
        proof {
            assert(children@ =~= seq![v]);
        }
        Ok(Value::NewtypeStruct(children))
    }

    /// A newtype enum variant keeps the variant's name and wraps the already
    /// adapted inner value; the enum's name and the variant's index are
    /// dropped.
    pub fn serialize_newtype_variant(
        self,
        _name: &str,
        _variant_index: u32,
        variant: &str,
        value: Value,
    ) -> (r: Result<Value, Error>)
        ensures
            r matches Ok(val) && val matches Value::Enum(s, c) && s@ == variant@ && c@ == seq![
                value,
            ],
    {
        let ghost v = value;
        let mut children: Vec<Value> = Vec::new();
        children.push(value);
        proof {
            assert(children@ =~= seq![v]);
        }
        Ok(Value::Enum(variant.to_owned(), children))
    }

    /// Opens a sequence builder; the length hint only pre-sizes the
    /// allocation and has no semantic effect.
    pub fn serialize_seq(self, len: Option<usize>) -> (r: Result<SerializeSeq, Error>)
        ensures
            r matches Ok(b) && b@ == Seq::<Value>::empty(),
    {
        match len {
            Some(n) => Ok(SerializeSeq::with_capacity(n)),
            None => Ok(SerializeSeq::new()),
        }
    }

    /// Opens a fixed tuple builder.
    pub fn serialize_tuple(self, len: usize) -> (r: Result<SerializeTuple, Error>)
        ensures
            r matches Ok(b) && b@ == Seq::<Value>::empty(),
    {
        Ok(SerializeTuple::with_capacity(len))
    }

    /// Opens a tuple-struct builder; the struct's name is dropped.
    pub fn serialize_tuple_struct(
        self,
        _name: &str,
        len: usize,
    ) -> (r: Result<SerializeTupleStruct, Error>)
        ensures
            r matches Ok(b) && b@ == Seq::<Value>::empty(),
    {
        Ok(SerializeTupleStruct::with_capacity(len))
    }

    /// Opens a tuple-variant builder tagged with the variant's name.
    pub fn serialize_tuple_variant(
        self,
        _name: &str,
        _variant_index: u32,
        variant: &str,
        len: usize,
    ) -> (r: Result<SerializeTupleVariant, Error>)
        ensures
            r matches Ok(b) && b.variant_view() == variant@ && b.elements_view() == Seq::<
                Value,
            >::empty(),
    {
        Ok(SerializeTupleVariant::with_capacity(variant, len))
    }

    /// Opens a map builder; the length hint has no semantic effect.
    pub fn serialize_map(self, _len: Option<usize>) -> (r: Result<SerializeMap, Error>)
        ensures
            r matches Ok(b) && b.entries_view() == Seq::<(Value, Value)>::empty()
                && b.pending_view() is None,
    {
        Ok(SerializeMap::new())
    }

    /// Opens a struct builder; the struct's name is dropped.
    pub fn serialize_struct(self, _name: &str, _len: usize) -> (r: Result<SerializeStruct, Error>)
        ensures
            r matches Ok(b) && b.entries_view() == Seq::<(Value, Value)>::empty(),
    {
        Ok(SerializeStruct::new())
    }

    /// Opens a struct-variant builder tagged with the variant's name.
    pub fn serialize_struct_variant(
        self,
        _name: &str,
        _variant_index: u32,
        variant: &str,
        _len: usize,
    ) -> (r: Result<SerializeStructVariant, Error>)
        ensures
            r matches Ok(b) && b.variant_view() == variant@ && b.entries_view() == Seq::<
                (Value, Value),
            >::empty(),
    {
        Ok(SerializeStructVariant::new(variant))
    }

    /// The adapter prefers compact encodings: wherever a source type offers
    /// both a compact and a textual form, the compact one is chosen.
    pub fn is_human_readable(&self) -> (r: bool)
        ensures
            r == false,
    {
        false
    }
}

/// Accumulates the elements of a variable-length sequence, in push order.
pub struct SerializeSeq {
    elements: Vec<Value>,
}

impl View for SerializeSeq {
    type V = Seq<Value>;

    closed spec fn view(&self) -> Seq<Value> {
        self.elements@
    }
}

impl SerializeSeq {
    /// A fresh, empty sequence builder.
    pub fn new() -> (r: SerializeSeq)
        ensures
            r@ == Seq::<Value>::empty(),
    {
        SerializeSeq { elements: Vec::new() }
    }

    /// A fresh, empty sequence builder, pre-sized by a length hint.
    pub fn with_capacity(capacity: usize) -> (r: SerializeSeq)
        ensures
            r@ == Seq::<Value>::empty(),
    {
        SerializeSeq { elements: Vec::with_capacity(capacity) }
    }

    /// Appends one already adapted element; element order is source order.
    pub fn serialize_element(&mut self, value: Value) -> (r: Result<(), Error>)
        ensures
            r is Ok,
            final(self)@ == old(self)@.push(value),
    {
        self.elements.push(value);
        Ok(())
    }

    /// Finalizes into an array value holding the elements in push order.
    pub fn end(self) -> (r: Result<Value, Error>)
        ensures
            r matches Ok(v) && v matches Value::Array(c) && c@ == self@,
    {
        Ok(Value::Array(self.elements))
    }
}

/// Accumulates the elements of a fixed tuple, in push order.
pub struct SerializeTuple {
    elements: Vec<Value>,
}

impl View for SerializeTuple {
    type V = Seq<Value>;

    closed spec fn view(&self) -> Seq<Value> {
        self.elements@
    }
}

impl SerializeTuple {
    /// A fresh, empty tuple builder, pre-sized by the arity.
    pub fn with_capacity(capacity: usize) -> (r: SerializeTuple)
        ensures
            r@ == Seq::<Value>::empty(),
    {
        SerializeTuple { elements: Vec::with_capacity(capacity) }
    }

    /// Appends one already adapted element.
    pub fn serialize_element(&mut self, value: Value) -> (r: Result<(), Error>)
        ensures
            r is Ok,
            final(self)@ == old(self)@.push(value),
    {
        self.elements.push(value);
        Ok(())
    }

    /// Finalizes into a tuple value holding the elements in push order.
    pub fn end(self) -> (r: Result<Value, Error>)
        ensures
            r matches Ok(v) && v matches Value::Tuple(c) && c@ == self@,
    {
        Ok(Value::Tuple(self.elements))
    }
}

/// Accumulates the fields of a tuple struct, in push order.
pub struct SerializeTupleStruct {
    elements: Vec<Value>,
}

impl View for SerializeTupleStruct {
    type V = Seq<Value>;

    closed spec fn view(&self) -> Seq<Value> {
        self.elements@
    }
}

impl SerializeTupleStruct {
    /// A fresh, empty tuple-struct builder, pre-sized by the arity.
    pub fn with_capacity(capacity: usize) -> (r: SerializeTupleStruct)
        ensures
            r@ == Seq::<Value>::empty(),
    {
        SerializeTupleStruct { elements: Vec::with_capacity(capacity) }
    }

    /// Appends one already adapted field.
    pub fn serialize_field(&mut self, value: Value) -> (r: Result<(), Error>)
        ensures
            r is Ok,
            final(self)@ == old(self)@.push(value),
    {
        self.elements.push(value);
        Ok(())
    }

    /// Finalizes into a tuple-struct value holding the fields in push order.
    pub fn end(self) -> (r: Result<Value, Error>)
        ensures
            r matches Ok(v) && v matches Value::TupleStruct(c) && c@ == self@,
    {
        Ok(Value::TupleStruct(self.elements))
    }
}

/// Accumulates the elements of a tuple enum variant, in push order, and
/// remembers the variant's name for finalization.
pub struct SerializeTupleVariant {
    variant: String,
    elements: Vec<Value>,
}

impl SerializeTupleVariant {
    /// The variant name the builder was opened with.
    pub closed spec fn variant_view(&self) -> Seq<char> {
        self.variant@
    }

    /// The elements collected so far, in push order.
    pub closed spec fn elements_view(&self) -> Seq<Value> {
        self.elements@
    }

    /// A fresh, empty builder for the named variant, pre-sized by the arity.
    pub fn with_capacity(variant: &str, len: usize) -> (r: SerializeTupleVariant)
        ensures
            r.variant_view() == variant@,
            r.elements_view() == Seq::<Value>::empty(),
    {
        SerializeTupleVariant { variant: variant.to_owned(), elements: Vec::with_capacity(len) }
    }

    /// Appends one already adapted element.
    pub fn serialize_field(&mut self, value: Value) -> (r: Result<(), Error>)
        ensures
            r is Ok,
            final(self).variant_view() == old(self).variant_view(),
            final(self).elements_view() == old(self).elements_view().push(value),
    {
        self.elements.push(value);
        Ok(())
    }

    /// Finalizes into a tuple-variant value tagged with the variant's name.
    pub fn end(self) -> (r: Result<Value, Error>)
        ensures
            r matches Ok(v) && v matches Value::TupleVariant(n, c) && n@ == self.variant_view()
                && c@ == self.elements_view(),
    {
        Ok(Value::TupleVariant(self.variant, self.elements))
    }
}

/// The map builder: a two-state machine, awaiting a key or awaiting the
/// value for a pending key. Entries land in a key-sorted list; a key
/// comparing `Equal` to an earlier one overwrites it.
pub struct SerializeMap {
    entries: Vec<(Value, Value)>,
    next_key: Option<Value>,
}

impl SerializeMap {
    /// The entries collected so far, sorted by key.
    pub closed spec fn entries_view(&self) -> Seq<(Value, Value)> {
        self.entries@
    }

    /// The pending key, if a key push has not yet been answered by a value
    /// push.
    pub closed spec fn pending_view(&self) -> Option<Value> {
        self.next_key
    }

    /// The builder's invariant: its entries are strictly sorted by key.
    pub open spec fn wf(&self) -> bool {
        entries_sorted(self.entries_view())
    }

    /// A fresh map builder: no entries, no pending key.
    pub fn new() -> (r: SerializeMap)
        ensures
            r.entries_view() == Seq::<(Value, Value)>::empty(),
            r.pending_view() is None,
            r.wf(),
    {
        SerializeMap { entries: Vec::new(), next_key: None }
    }

    /// Stores the pending key for the next value push. A key pushed while
    /// one is already pending replaces it: the last pending key wins.
    pub fn serialize_key(&mut self, key: Value) -> (r: Result<(), Error>)
        ensures
            r is Ok,
            final(self).entries_view() == old(self).entries_view(),
            final(self).pending_view() == Some(key),
    {
        self.next_key = Some(key);
        Ok(())
    }

    /// Inserts the pending key with this value and returns to awaiting a
    /// key. With no pending key the push fails and the builder is left
    /// unchanged.
    pub fn serialize_value(&mut self, value: Value) -> (r: Result<(), Error>)
        ensures
            old(self).pending_view() is None ==> r is Err && *final(self) == *old(self),
            old(self).pending_view() matches Some(k) ==> r is Ok && final(self).pending_view()
                is None && final(self).entries_view() == entries_insert(
                old(self).entries_view(),
                k,
                value,
            ),
            old(self).wf() ==> final(self).wf(),
    {
        let pending = self.next_key.take();
        match pending {
            None => Err(Error),
            Some(key) => {
                insert_entry(&mut self.entries, key, value);
                Ok(())
            },
        }
    }

    /// Finalizes into a map value holding the sorted entries. A still
    /// pending key has received no value and is discarded.
    pub fn end(self) -> (r: Result<Value, Error>)
        ensures
            r matches Ok(v) && v matches Value::Mapping(e) && e@ == self.entries_view(),
    {
        Ok(Value::Mapping(self.entries))
    }
}

/// Accumulates the named fields of a struct in a key-sorted entry list;
/// pushing a field name twice overwrites, the later value winning.
pub struct SerializeStruct {
    entries: Vec<(Value, Value)>,
}

impl SerializeStruct {
    /// The entries collected so far, sorted by key.
    pub closed spec fn entries_view(&self) -> Seq<(Value, Value)> {
        self.entries@
    }

    /// The builder's invariant: its entries are strictly sorted by key.
    pub open spec fn wf(&self) -> bool {
        entries_sorted(self.entries_view())
    }

    /// A fresh, empty struct builder.
    pub fn new() -> (r: SerializeStruct)
        ensures
            r.entries_view() == Seq::<(Value, Value)>::empty(),
            r.wf(),
    {
        SerializeStruct { entries: Vec::new() }
    }

    /// Inserts one field under its name, wrapped as a field key so struct
    /// fields never collide with plain string map keys.
    pub fn serialize_field(&mut self, key: String, value: Value) -> (r: Result<(), Error>)
        ensures
            r is Ok,
            final(self).entries_view() == entries_insert(
                old(self).entries_view(),
                Value::StructKey(key),
                value,
            ),
            old(self).wf() ==> final(self).wf(),
    {
        insert_entry(&mut self.entries, Value::StructKey(key), value);
        Ok(())
    }

    /// Finalizes into a struct value holding the sorted field entries.
    pub fn end(self) -> (r: Result<Value, Error>)
        ensures
            r matches Ok(v) && v matches Value::Struct(e) && e@ == self.entries_view(),
    {
        Ok(Value::Struct(self.entries))
    }
}

/// Accumulates the named fields of a struct enum variant, like
/// [`SerializeStruct`], and remembers the variant's name.
pub struct SerializeStructVariant {
    variant: String,
    entries: Vec<(Value, Value)>,
}

impl SerializeStructVariant {
    /// The variant name the builder was opened with.
    pub closed spec fn variant_view(&self) -> Seq<char> {
        self.variant@
    }

    /// The entries collected so far, sorted by key.
    pub closed spec fn entries_view(&self) -> Seq<(Value, Value)> {
        self.entries@
    }

    /// The builder's invariant: its entries are strictly sorted by key.
    pub open spec fn wf(&self) -> bool {
        entries_sorted(self.entries_view())
    }

    /// A fresh, empty builder for the named variant.
    pub fn new(variant: &str) -> (r: SerializeStructVariant)
        ensures
            r.variant_view() == variant@,
            r.entries_view() == Seq::<(Value, Value)>::empty(),
            r.wf(),
    {
        SerializeStructVariant { variant: variant.to_owned(), entries: Vec::new() }
    }

    /// Inserts one field under its name, wrapped as a struct-variant field
    /// key.
    pub fn serialize_field(&mut self, key: String, value: Value) -> (r: Result<(), Error>)
        ensures
            r is Ok,
            final(self).variant_view() == old(self).variant_view(),
            final(self).entries_view() == entries_insert(
                old(self).entries_view(),
                Value::StructVariantKey(key),
                value,
            ),
            old(self).wf() ==> final(self).wf(),
    {
        insert_entry(&mut self.entries, Value::StructVariantKey(key), value);
        Ok(())
    }

    /// Finalizes into a struct-variant value tagged with the variant's name.
    pub fn end(self) -> (r: Result<Value, Error>)
        ensures
            r matches Ok(v) && v matches Value::StructVariant(n, e) && n@ == self.variant_view()
                && e@ == self.entries_view(),
    {
        Ok(Value::StructVariant(self.variant, self.entries))
    }
}

} // verus!
