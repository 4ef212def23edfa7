//! The explicit total order on [`Value`].
//!
//! Map and struct keys are heterogeneous, so they need one deterministic
//! total order across the whole union. It is defined here explicitly rather
//! than derived: values of different variants are ordered by the fixed
//! enumeration order of the variants (their rank), values of the same variant
//! by their payload's own natural order — integers numerically, strings and
//! byte buffers lexicographically by code point, composites lexicographically
//! element by element, named composites by name first. Float payloads are
//! ordered by the sign-magnitude total order on their bit patterns, under
//! which every positive NaN bit pattern sits above all numeric values and
//! equal patterns are equal.
//!
//! The laws making this a total order — reflexivity, antisymmetry (as the
//! flip law), transitivity and congruence of `Equal` — are proved below.

use crate::value::Value;
use vstd::prelude::*;

verus! {

broadcast use vstd::seq::group_seq_axioms;

/// The outcome of comparing two values under the explicit total order.
#[derive(Debug, Clone, Copy, PartialEq, Eq, Structural)]
pub enum Cmp {
    Less,
    Equal,
    Greater,
}

/// The comparison with its sides exchanged.
pub open spec fn flip(c: Cmp) -> Cmp {
    match c {
        Cmp::Less => Cmp::Greater,
        Cmp::Equal => Cmp::Equal,
        Cmp::Greater => Cmp::Less,
    }
}

/// Numeric comparison, the base of every scalar case.
pub open spec fn cmp_int(x: int, y: int) -> Cmp {
    if x < y {
        Cmp::Less
    } else if x > y {
        Cmp::Greater
    } else {
        Cmp::Equal
    }
}

/// The rank of a variant: its position in the fixed enumeration order.
pub open spec fn rank(v: Value) -> int {
    match v {
        Value::Unit => 0,
        Value::Boolean(_) => 1,
        Value::Int8(_) => 2,
        Value::Int16(_) => 3,
        Value::Int32(_) => 4,
        Value::Int64(_) => 5,
        Value::Uint8(_) => 6,
        Value::Uint16(_) => 7,
        Value::Uint32(_) => 8,
        Value::Uint64(_) => 9,
        Value::Float32(_) => 10,
        Value::Float64(_) => 11,
        Value::Char(_) => 12,
        Value::String(_) => 13,
        Value::Bytes(_) => 14,
        Value::OptionNone => 15,
        Value::OptionSome(_) => 16,
        Value::EnumUnit(_) => 17,
        Value::NewtypeStruct(_) => 18,
        Value::Enum(_, _) => 19,
        Value::Array(_) => 20,
        Value::Tuple(_) => 21,
        Value::TupleStruct(_) => 22,
        Value::TupleVariant(_, _) => 23,
        Value::Mapping(_) => 24,
        Value::Struct(_) => 25,
        Value::StructVariant(_, _) => 26,
        Value::StructKey(_) => 27,
        Value::StructVariantKey(_) => 28,
    }
}

/// The sign-magnitude order key of a 32-bit float's bit pattern: a strictly
/// monotone injection into the unsigned order, negative values inverted,
/// positive values shifted above them.
pub open spec fn float32_key(bits: u32) -> u32 {
    if bits >= 0x8000_0000 {
        !bits
    } else {
        bits ^ 0x8000_0000
    }
}

/// The sign-magnitude order key of a 64-bit float's bit pattern.
pub open spec fn float64_key(bits: u64) -> u64 {
    if bits >= 0x8000_0000_0000_0000 {
        !bits
    } else {
        bits ^ 0x8000_0000_0000_0000
    }
}

/// Lexicographic comparison of two character sequences by code point;
/// a strict prefix orders below its extensions.
pub open spec fn cmp_chars(a: Seq<char>, b: Seq<char>) -> Cmp
    decreases a.len(),
{
    if a.len() == 0 && b.len() == 0 {
        Cmp::Equal
    } else if a.len() == 0 {
        Cmp::Less
    } else if b.len() == 0 {
        Cmp::Greater
    } else if (a[0] as u32) != (b[0] as u32) {
        cmp_int(a[0] as u32 as int, b[0] as u32 as int)
    } else {
        cmp_chars(a.drop_first(), b.drop_first())
    }
}

/// Lexicographic comparison of two byte sequences.
pub open spec fn cmp_bytes(a: Seq<u8>, b: Seq<u8>) -> Cmp
    decreases a.len(),
{
    if a.len() == 0 && b.len() == 0 {
        Cmp::Equal
    } else if a.len() == 0 {
        Cmp::Less
    } else if b.len() == 0 {
        Cmp::Greater
    } else if a[0] != b[0] {
        cmp_int(a[0] as int, b[0] as int)
    } else {
        cmp_bytes(a.drop_first(), b.drop_first())
    }
}

/// The total order on values: variant rank first, then the payload.
pub open spec fn cmp_value(a: Value, b: Value) -> Cmp
    decreases a,
{
    if rank(a) != rank(b) {
        cmp_int(rank(a), rank(b))
    } else {
        match (a, b) {
            (Value::Boolean(x), Value::Boolean(y)) => cmp_int(
                if x { 1 } else { 0 },
                if y { 1 } else { 0 },
            ),
            (Value::Int8(x), Value::Int8(y)) => cmp_int(x as int, y as int),
            (Value::Int16(x), Value::Int16(y)) => cmp_int(x as int, y as int),
            (Value::Int32(x), Value::Int32(y)) => cmp_int(x as int, y as int),
            (Value::Int64(x), Value::Int64(y)) => cmp_int(x as int, y as int),
            (Value::Uint8(x), Value::Uint8(y)) => cmp_int(x as int, y as int),
            (Value::Uint16(x), Value::Uint16(y)) => cmp_int(x as int, y as int),
            (Value::Uint32(x), Value::Uint32(y)) => cmp_int(x as int, y as int),
            (Value::Uint64(x), Value::Uint64(y)) => cmp_int(x as int, y as int),
            (Value::Float32(x), Value::Float32(y)) => cmp_int(
                float32_key(x) as int,
                float32_key(y) as int,
            ),
            (Value::Float64(x), Value::Float64(y)) => cmp_int(
                float64_key(x) as int,
                float64_key(y) as int,
            ),
            (Value::Char(x), Value::Char(y)) => cmp_int(x as u32 as int, y as u32 as int),
            (Value::String(x), Value::String(y)) => cmp_chars(x@, y@),
            (Value::Bytes(x), Value::Bytes(y)) => cmp_bytes(x@, y@),
            (Value::OptionSome(x), Value::OptionSome(y)) => cmp_value(*x, *y),
            (Value::EnumUnit(x), Value::EnumUnit(y)) => cmp_chars(x@, y@),
            (Value::NewtypeStruct(x), Value::NewtypeStruct(y)) => cmp_values(x@, y@),
            (Value::Enum(n, x), Value::Enum(m, y)) => match cmp_chars(n@, m@) {
                Cmp::Equal => cmp_values(x@, y@),
                c => c,
            },
            (Value::Array(x), Value::Array(y)) => cmp_values(x@, y@),
            (Value::Tuple(x), Value::Tuple(y)) => cmp_values(x@, y@),
            (Value::TupleStruct(x), Value::TupleStruct(y)) => cmp_values(x@, y@),
            (Value::TupleVariant(n, x), Value::TupleVariant(m, y)) => match cmp_chars(n@, m@) {
                Cmp::Equal => cmp_values(x@, y@),
                c => c,
            },
            (Value::Mapping(x), Value::Mapping(y)) => cmp_entries(x@, y@),
            (Value::Struct(x), Value::Struct(y)) => cmp_entries(x@, y@),
            (Value::StructVariant(n, x), Value::StructVariant(m, y)) => match cmp_chars(
                n@,
                m@,
            ) {
                Cmp::Equal => cmp_entries(x@, y@),
                c => c,
            },
            (Value::StructKey(x), Value::StructKey(y)) => cmp_chars(x@, y@),
            (Value::StructVariantKey(x), Value::StructVariantKey(y)) => cmp_chars(x@, y@),
            _ => Cmp::Equal,
        }
    }
}

/// Lexicographic comparison of two sequences of values.
pub open spec fn cmp_values(a: Seq<Value>, b: Seq<Value>) -> Cmp
    decreases a,
{
    if a.len() == 0 && b.len() == 0 {
        Cmp::Equal
    } else if a.len() == 0 {
        Cmp::Less
    } else if b.len() == 0 {
        Cmp::Greater
    } else {
        match cmp_value(a[0], b[0]) {
            Cmp::Equal => cmp_values(a.drop_first(), b.drop_first()),
            c => c,
        }
    }
}

/// Lexicographic comparison of two entry sequences, each entry compared
/// key first, then value.
pub open spec fn cmp_entries(a: Seq<(Value, Value)>, b: Seq<(Value, Value)>) -> Cmp
    decreases a,
{
    if a.len() == 0 && b.len() == 0 {
        Cmp::Equal
    } else if a.len() == 0 {
        Cmp::Less
    } else if b.len() == 0 {
        Cmp::Greater
    } else {
        match cmp_value(a[0].0, b[0].0) {
            Cmp::Equal => match cmp_value(a[0].1, b[0].1) {
                Cmp::Equal => cmp_entries(a.drop_first(), b.drop_first()),
                c => c,
            },
            c => c,
        }
    }
}

/// Two 32-bit float payloads compare `Equal` exactly when their bit
/// patterns are equal: the sign-magnitude key is injective.
pub proof fn lemma_cmp_float32_exact(x: u32, y: u32)
    ensures
        cmp_value(Value::Float32(x), Value::Float32(y)) == Cmp::Equal <==> x == y,
{
    assert((if x >= 0x8000_0000u32 {
        !x
    } else {
        x ^ 0x8000_0000u32
    }) == (if y >= 0x8000_0000u32 {
        !y
    } else {
        y ^ 0x8000_0000u32
    }) ==> x == y) by (bit_vector);
}

/// Two 64-bit float payloads compare `Equal` exactly when their bit
/// patterns are equal.
pub proof fn lemma_cmp_float64_exact(x: u64, y: u64)
    ensures
        cmp_value(Value::Float64(x), Value::Float64(y)) == Cmp::Equal <==> x == y,
{
    assert((if x >= 0x8000_0000_0000_0000u64 {
        !x
    } else {
        x ^ 0x8000_0000_0000_0000u64
    }) == (if y >= 0x8000_0000_0000_0000u64 {
        !y
    } else {
        y ^ 0x8000_0000_0000_0000u64
    }) ==> x == y) by (bit_vector);
}

/// Comparing a character sequence with itself yields `Equal`.
pub proof fn lemma_cmp_chars_refl(a: Seq<char>)
    ensures
        cmp_chars(a, a) == Cmp::Equal,
    decreases a.len(),
{
    if a.len() > 0 {
        lemma_cmp_chars_refl(a.drop_first());
    }
}

/// Comparing a byte sequence with itself yields `Equal`.
pub proof fn lemma_cmp_bytes_refl(a: Seq<u8>)
    ensures
        cmp_bytes(a, a) == Cmp::Equal,
    decreases a.len(),
{
    if a.len() > 0 {
        lemma_cmp_bytes_refl(a.drop_first());
    }
}

/// Reflexivity: comparing a value with itself yields `Equal`.
pub proof fn lemma_cmp_value_refl(a: Value)
    ensures
        cmp_value(a, a) == Cmp::Equal,
    decreases a,
{
    match a {
        Value::String(x) => lemma_cmp_chars_refl(x@),
        Value::Bytes(x) => lemma_cmp_bytes_refl(x@),
        Value::OptionSome(x) => lemma_cmp_value_refl(*x),
        Value::EnumUnit(x) => lemma_cmp_chars_refl(x@),
        Value::NewtypeStruct(x) => lemma_cmp_values_refl(x@),
        Value::Enum(n, x) => {
            lemma_cmp_chars_refl(n@);
            lemma_cmp_values_refl(x@);
        },
        Value::Array(x) => lemma_cmp_values_refl(x@),
        Value::Tuple(x) => lemma_cmp_values_refl(x@),
        Value::TupleStruct(x) => lemma_cmp_values_refl(x@),
        Value::TupleVariant(n, x) => {
            lemma_cmp_chars_refl(n@);
            lemma_cmp_values_refl(x@);
        },
        Value::Mapping(x) => lemma_cmp_entries_refl(x@),
        Value::Struct(x) => lemma_cmp_entries_refl(x@),
        Value::StructVariant(n, x) => {
            lemma_cmp_chars_refl(n@);
            lemma_cmp_entries_refl(x@);
        },
        Value::StructKey(x) => lemma_cmp_chars_refl(x@),
        Value::StructVariantKey(x) => lemma_cmp_chars_refl(x@),
        _ => {},
    }
}

/// Comparing a value sequence with itself yields `Equal`.
pub proof fn lemma_cmp_values_refl(a: Seq<Value>)
    ensures
        cmp_values(a, a) == Cmp::Equal,
    decreases a,
{
    if a.len() > 0 {
        lemma_cmp_value_refl(a[0]);
        lemma_cmp_values_refl(a.drop_first());
    }
}

/// Comparing an entry sequence with itself yields `Equal`.
pub proof fn lemma_cmp_entries_refl(a: Seq<(Value, Value)>)
    ensures
        cmp_entries(a, a) == Cmp::Equal,
    decreases a,
{
    if a.len() > 0 {
        lemma_cmp_value_refl(a[0].0);
        lemma_cmp_value_refl(a[0].1);
        lemma_cmp_entries_refl(a.drop_first());
    }
}

/// Character sequences compare `Equal` exactly when they are equal.
pub proof fn lemma_cmp_chars_exact(a: Seq<char>, b: Seq<char>)
    ensures
        cmp_chars(a, b) == Cmp::Equal <==> a == b,
    decreases a.len(),
{
    if a.len() > 0 && b.len() > 0 {
        lemma_cmp_chars_exact(a.drop_first(), b.drop_first());
    }
    if cmp_chars(a, b) == Cmp::Equal {
        if a.len() == 0 {
            assert(a =~= b);
        } else {
            vstd::utf8::char_u32_cast(a[0], a[0] as u32);
            vstd::utf8::char_u32_cast(b[0], b[0] as u32);
            assert(a[0] == b[0]);
            assert(a.drop_first() == b.drop_first());
            assert forall|i: int| 0 <= i < a.len() implies a[i] == b[i] by {
                if i > 0 {
                    assert(a.drop_first()[i - 1] == b.drop_first()[i - 1]);
                }
            }
            assert(a =~= b);
        }
    }
    if a == b {
        lemma_cmp_chars_refl(a);
    }
}

/// Struct field keys compare `Equal` exactly when the field names are
/// equal, so a field name addresses at most one struct entry.
pub proof fn lemma_cmp_struct_keys_exact(x: String, y: String)
    ensures
        cmp_value(Value::StructKey(x), Value::StructKey(y)) == Cmp::Equal <==> x@ == y@,
{
    lemma_cmp_chars_exact(x@, y@);
}

/// Struct-variant field keys compare `Equal` exactly when the field names
/// are equal.
pub proof fn lemma_cmp_struct_variant_keys_exact(x: String, y: String)
    ensures
        cmp_value(Value::StructVariantKey(x), Value::StructVariantKey(y)) == Cmp::Equal <==> x@
            == y@,
{
    lemma_cmp_chars_exact(x@, y@);
}

/// Exchanging the sides of a character comparison flips the outcome.
pub proof fn lemma_cmp_chars_flip(a: Seq<char>, b: Seq<char>)
    ensures
        cmp_chars(b, a) == flip(cmp_chars(a, b)),
    decreases a.len(),
{
    if a.len() > 0 && b.len() > 0 {
        lemma_cmp_chars_flip(a.drop_first(), b.drop_first());
    }
}

/// Exchanging the sides of a byte comparison flips the outcome.
pub proof fn lemma_cmp_bytes_flip(a: Seq<u8>, b: Seq<u8>)
    ensures
        cmp_bytes(b, a) == flip(cmp_bytes(a, b)),
    decreases a.len(),
{
    if a.len() > 0 && b.len() > 0 {
        lemma_cmp_bytes_flip(a.drop_first(), b.drop_first());
    }
}

/// Antisymmetry: exchanging the sides of a comparison flips the outcome.
pub proof fn lemma_cmp_value_flip(a: Value, b: Value)
    ensures
        cmp_value(b, a) == flip(cmp_value(a, b)),
    decreases a,
{
    match (a, b) {
        (Value::String(x), Value::String(y)) => lemma_cmp_chars_flip(x@, y@),
        (Value::Bytes(x), Value::Bytes(y)) => lemma_cmp_bytes_flip(x@, y@),
        (Value::OptionSome(x), Value::OptionSome(y)) => lemma_cmp_value_flip(*x, *y),
        (Value::EnumUnit(x), Value::EnumUnit(y)) => lemma_cmp_chars_flip(x@, y@),
        (Value::NewtypeStruct(x), Value::NewtypeStruct(y)) => lemma_cmp_values_flip(x@, y@),
        (Value::Enum(n, x), Value::Enum(m, y)) => {
            lemma_cmp_chars_flip(n@, m@);
            lemma_cmp_values_flip(x@, y@);
        },
        (Value::Array(x), Value::Array(y)) => lemma_cmp_values_flip(x@, y@),
        (Value::Tuple(x), Value::Tuple(y)) => lemma_cmp_values_flip(x@, y@),
        (Value::TupleStruct(x), Value::TupleStruct(y)) => lemma_cmp_values_flip(x@, y@),
        (Value::TupleVariant(n, x), Value::TupleVariant(m, y)) => {
            lemma_cmp_chars_flip(n@, m@);
            lemma_cmp_values_flip(x@, y@);
        },
        (Value::Mapping(x), Value::Mapping(y)) => lemma_cmp_entries_flip(x@, y@),
        (Value::Struct(x), Value::Struct(y)) => lemma_cmp_entries_flip(x@, y@),
        (Value::StructVariant(n, x), Value::StructVariant(m, y)) => {
            lemma_cmp_chars_flip(n@, m@);
            lemma_cmp_entries_flip(x@, y@);
        },
        (Value::StructKey(x), Value::StructKey(y)) => lemma_cmp_chars_flip(x@, y@),
        (Value::StructVariantKey(x), Value::StructVariantKey(y)) => lemma_cmp_chars_flip(
            x@,
            y@,
        ),
        _ => {},
    }
}

/// Exchanging the sides of a value-sequence comparison flips the outcome.
pub proof fn lemma_cmp_values_flip(a: Seq<Value>, b: Seq<Value>)
    ensures
        cmp_values(b, a) == flip(cmp_values(a, b)),
    decreases a,
{
    if a.len() > 0 && b.len() > 0 {
        lemma_cmp_value_flip(a[0], b[0]);
        lemma_cmp_values_flip(a.drop_first(), b.drop_first());
    }
}

/// Exchanging the sides of an entry-sequence comparison flips the outcome.
pub proof fn lemma_cmp_entries_flip(a: Seq<(Value, Value)>, b: Seq<(Value, Value)>)
    ensures
        cmp_entries(b, a) == flip(cmp_entries(a, b)),
    decreases a,
{
    if a.len() > 0 && b.len() > 0 {
        lemma_cmp_value_flip(a[0].0, b[0].0);
        lemma_cmp_value_flip(a[0].1, b[0].1);
        lemma_cmp_entries_flip(a.drop_first(), b.drop_first());
    }
}

/// Transitivity and congruence for character comparisons.
pub proof fn lemma_cmp_chars_laws(a: Seq<char>, b: Seq<char>, c: Seq<char>)
    ensures
        cmp_chars(a, b) == Cmp::Less && cmp_chars(b, c) == Cmp::Less ==> cmp_chars(a, c)
            == Cmp::Less,
        cmp_chars(a, b) == Cmp::Equal ==> cmp_chars(a, c) == cmp_chars(b, c),
        cmp_chars(b, c) == Cmp::Equal ==> cmp_chars(a, c) == cmp_chars(a, b),
    decreases a.len(), b.len(), c.len(),
{
    if a.len() > 0 && b.len() > 0 && c.len() > 0 {
        lemma_cmp_chars_laws(a.drop_first(), b.drop_first(), c.drop_first());
    }
}

/// Transitivity and congruence for byte comparisons.
pub proof fn lemma_cmp_bytes_laws(a: Seq<u8>, b: Seq<u8>, c: Seq<u8>)
    ensures
        cmp_bytes(a, b) == Cmp::Less && cmp_bytes(b, c) == Cmp::Less ==> cmp_bytes(a, c)
            == Cmp::Less,
        cmp_bytes(a, b) == Cmp::Equal ==> cmp_bytes(a, c) == cmp_bytes(b, c),
        cmp_bytes(b, c) == Cmp::Equal ==> cmp_bytes(a, c) == cmp_bytes(a, b),
    decreases a.len(), b.len(), c.len(),
{
    if a.len() > 0 && b.len() > 0 && c.len() > 0 {
        lemma_cmp_bytes_laws(a.drop_first(), b.drop_first(), c.drop_first());
    }
}

/// Transitivity of strict order, and congruence of `Equal`, on values:
/// `Less` composes transitively, and an `Equal` side can be exchanged
/// without changing any comparison's outcome.
pub proof fn lemma_cmp_value_laws(a: Value, b: Value, c: Value)
    ensures
        cmp_value(a, b) == Cmp::Less && cmp_value(b, c) == Cmp::Less ==> cmp_value(a, c)
            == Cmp::Less,
        cmp_value(a, b) == Cmp::Equal ==> cmp_value(a, c) == cmp_value(b, c),
        cmp_value(b, c) == Cmp::Equal ==> cmp_value(a, c) == cmp_value(a, b),
    decreases a,
{
    match (a, b, c) {
        (Value::String(x), Value::String(y), Value::String(z)) => lemma_cmp_chars_laws(
            x@,
            y@,
            z@,
        ),
        (Value::Bytes(x), Value::Bytes(y), Value::Bytes(z)) => lemma_cmp_bytes_laws(x@, y@, z@),
        (Value::OptionSome(x), Value::OptionSome(y), Value::OptionSome(z)) => {
            lemma_cmp_value_laws(*x, *y, *z)
        },
        (Value::EnumUnit(x), Value::EnumUnit(y), Value::EnumUnit(z)) => lemma_cmp_chars_laws(
            x@,
            y@,
            z@,
        ),
        (Value::NewtypeStruct(x), Value::NewtypeStruct(y), Value::NewtypeStruct(z)) => {
            lemma_cmp_values_laws(x@, y@, z@)
        },
        (Value::Enum(n, x), Value::Enum(m, y), Value::Enum(p, z)) => {
            lemma_cmp_chars_laws(n@, m@, p@);
            lemma_cmp_values_laws(x@, y@, z@);
        },
        (Value::Array(x), Value::Array(y), Value::Array(z)) => lemma_cmp_values_laws(x@, y@, z@),
        (Value::Tuple(x), Value::Tuple(y), Value::Tuple(z)) => lemma_cmp_values_laws(x@, y@, z@),
        (Value::TupleStruct(x), Value::TupleStruct(y), Value::TupleStruct(z)) => {
            lemma_cmp_values_laws(x@, y@, z@)
        },
        (Value::TupleVariant(n, x), Value::TupleVariant(m, y), Value::TupleVariant(p, z)) => {
            lemma_cmp_chars_laws(n@, m@, p@);
            lemma_cmp_values_laws(x@, y@, z@);
        },
        (Value::Mapping(x), Value::Mapping(y), Value::Mapping(z)) => lemma_cmp_entries_laws(
            x@,
            y@,
            z@,
        ),
        (Value::Struct(x), Value::Struct(y), Value::Struct(z)) => lemma_cmp_entries_laws(
            x@,
            y@,
            z@,
        ),
        (Value::StructVariant(n, x), Value::StructVariant(m, y), Value::StructVariant(p, z)) => {
            lemma_cmp_chars_laws(n@, m@, p@);
            lemma_cmp_entries_laws(x@, y@, z@);
        },
        (Value::StructKey(x), Value::StructKey(y), Value::StructKey(z)) => lemma_cmp_chars_laws(
            x@,
            y@,
            z@,
        ),
        (Value::StructVariantKey(x), Value::StructVariantKey(y), Value::StructVariantKey(z)) => {
            lemma_cmp_chars_laws(x@, y@, z@)
        },
        _ => {},
    }
}

/// Transitivity and congruence for value-sequence comparisons.
pub proof fn lemma_cmp_values_laws(a: Seq<Value>, b: Seq<Value>, c: Seq<Value>)
    ensures
        cmp_values(a, b) == Cmp::Less && cmp_values(b, c) == Cmp::Less ==> cmp_values(a, c)
            == Cmp::Less,
        cmp_values(a, b) == Cmp::Equal ==> cmp_values(a, c) == cmp_values(b, c),
        cmp_values(b, c) == Cmp::Equal ==> cmp_values(a, c) == cmp_values(a, b),
    decreases a, b, c,
{
    if a.len() > 0 && b.len() > 0 && c.len() > 0 {
        lemma_cmp_value_laws(a[0], b[0], c[0]);
        lemma_cmp_values_laws(a.drop_first(), b.drop_first(), c.drop_first());
    }
}

/// Transitivity and congruence for entry-sequence comparisons.
pub proof fn lemma_cmp_entries_laws(
    a: Seq<(Value, Value)>,
    b: Seq<(Value, Value)>,
    c: Seq<(Value, Value)>,
)
    ensures
        cmp_entries(a, b) == Cmp::Less && cmp_entries(b, c) == Cmp::Less ==> cmp_entries(a, c)
            == Cmp::Less,
        cmp_entries(a, b) == Cmp::Equal ==> cmp_entries(a, c) == cmp_entries(b, c),
        cmp_entries(b, c) == Cmp::Equal ==> cmp_entries(a, c) == cmp_entries(a, b),
    decreases a, b, c,
{
    if a.len() > 0 && b.len() > 0 && c.len() > 0 {
        lemma_cmp_value_laws(a[0].0, b[0].0, c[0].0);
        lemma_cmp_value_laws(a[0].1, b[0].1, c[0].1);
        lemma_cmp_entries_laws(a.drop_first(), b.drop_first(), c.drop_first());
    }
}

/// A comparison is decided after an equal prefix: dropping the first `i`
/// pairwise-equal characters from both sides leaves the outcome unchanged.
proof fn lemma_cmp_chars_prefix(a: Seq<char>, b: Seq<char>, i: int)
    requires
        0 <= i <= a.len(),
        i <= b.len(),
        forall|j: int| 0 <= j < i ==> a[j] == b[j],
    ensures
        cmp_chars(a, b) == cmp_chars(a.skip(i), b.skip(i)),
    decreases i,
{
    if i == 0 {
        assert(a.skip(0) =~= a);
        assert(b.skip(0) =~= b);
    } else {
        assert(a[0] == b[0]);
        lemma_cmp_chars_prefix(a.drop_first(), b.drop_first(), i - 1);
        assert(a.drop_first().skip(i - 1) =~= a.skip(i));
        assert(b.drop_first().skip(i - 1) =~= b.skip(i));
    }
}

/// The byte analogue of [`lemma_cmp_chars_prefix`].
proof fn lemma_cmp_bytes_prefix(a: Seq<u8>, b: Seq<u8>, i: int)
    requires
        0 <= i <= a.len(),
        i <= b.len(),
        forall|j: int| 0 <= j < i ==> a[j] == b[j],
    ensures
        cmp_bytes(a, b) == cmp_bytes(a.skip(i), b.skip(i)),
    decreases i,
{
    if i == 0 {
        assert(a.skip(0) =~= a);
        assert(b.skip(0) =~= b);
    } else {
        assert(a[0] == b[0]);
        lemma_cmp_bytes_prefix(a.drop_first(), b.drop_first(), i - 1);
        assert(a.drop_first().skip(i - 1) =~= a.skip(i));
        assert(b.drop_first().skip(i - 1) =~= b.skip(i));
    }
}

/// The value-sequence analogue of [`lemma_cmp_chars_prefix`]: a prefix of
/// `Equal` element comparisons does not decide the outcome.
proof fn lemma_cmp_values_prefix(a: Seq<Value>, b: Seq<Value>, i: int)
    requires
        0 <= i <= a.len(),
        i <= b.len(),
        forall|j: int| 0 <= j < i ==> cmp_value(a[j], b[j]) == Cmp::Equal,
    ensures
        cmp_values(a, b) == cmp_values(a.skip(i), b.skip(i)),
    decreases i,
{
    if i == 0 {
        assert(a.skip(0) =~= a);
        assert(b.skip(0) =~= b);
    } else {
        assert(cmp_value(a[0], b[0]) == Cmp::Equal);
        lemma_cmp_values_prefix(a.drop_first(), b.drop_first(), i - 1);
        assert(a.drop_first().skip(i - 1) =~= a.skip(i));
        assert(b.drop_first().skip(i - 1) =~= b.skip(i));
    }
}

/// The entry-sequence analogue of [`lemma_cmp_chars_prefix`].
proof fn lemma_cmp_entries_prefix(a: Seq<(Value, Value)>, b: Seq<(Value, Value)>, i: int)
    requires
        0 <= i <= a.len(),
        i <= b.len(),
        forall|j: int| 0 <= j < i ==> cmp_value(a[j].0, b[j].0) == Cmp::Equal && cmp_value(
            a[j].1,
            b[j].1,
        ) == Cmp::Equal,
    ensures
        cmp_entries(a, b) == cmp_entries(a.skip(i), b.skip(i)),
    decreases i,
{
    if i == 0 {
        assert(a.skip(0) =~= a);
        assert(b.skip(0) =~= b);
    } else {
        assert(cmp_value(a[0].0, b[0].0) == Cmp::Equal);
        lemma_cmp_entries_prefix(a.drop_first(), b.drop_first(), i - 1);
        assert(a.drop_first().skip(i - 1) =~= a.skip(i));
        assert(b.drop_first().skip(i - 1) =~= b.skip(i));
    }
}

/// Compares two strings character by character under [`cmp_chars`].
fn compare_str(a: &str, b: &str) -> (c: Cmp)
    ensures
        c == cmp_chars(a@, b@),
{
    let la = a.unicode_len();
    let lb = b.unicode_len();
    let n = if la < lb {
        la
    } else {
        lb
    };
    let mut i: usize = 0;
    while i < n
        invariant
            i <= n,
            la == a@.len(),
            lb == b@.len(),
            n == if la < lb {
                la
            } else {
                lb
            },
            forall|j: int| 0 <= j < i ==> a@[j] == b@[j],
        decreases n - i,
    {
        let ca = a.get_char(i);
        let cb = b.get_char(i);
        if (ca as u32) < (cb as u32) {
            proof {
                lemma_cmp_chars_prefix(a@, b@, i as int);
            }
            return Cmp::Less;
        }
        if (ca as u32) > (cb as u32) {
            proof {
                lemma_cmp_chars_prefix(a@, b@, i as int);
            }
            return Cmp::Greater;
        }
        i += 1;
    }
    proof {
        lemma_cmp_chars_prefix(a@, b@, n as int);
    }
    if la < lb {
        Cmp::Less
    } else if la > lb {
        Cmp::Greater
    } else {
        Cmp::Equal
    }
}

/// Compares two byte buffers under [`cmp_bytes`].
fn compare_bytes(a: &Vec<u8>, b: &Vec<u8>) -> (c: Cmp)
    ensures
        c == cmp_bytes(a@, b@),
{
    let n = if a.len() < b.len() {
        a.len()
    } else {
        b.len()
    };
    let mut i: usize = 0;
    while i < n
        invariant
            i <= n,
            n == if a@.len() < b@.len() {
                a@.len()
            } else {
                b@.len()
            },
            forall|j: int| 0 <= j < i ==> a@[j] == b@[j],
        decreases n - i,
    {
        let x = a[i];
        let y = b[i];
        if x < y {
            proof {
                lemma_cmp_bytes_prefix(a@, b@, i as int);
            }
            return Cmp::Less;
        }
        if x > y {
            proof {
                lemma_cmp_bytes_prefix(a@, b@, i as int);
            }
            return Cmp::Greater;
        }
        i += 1;
    }
    proof {
        lemma_cmp_bytes_prefix(a@, b@, n as int);
    }
    if a.len() < b.len() {
        Cmp::Less
    } else if a.len() > b.len() {
        Cmp::Greater
    } else {
        Cmp::Equal
    }
}

/// Compares two element sequences under [`cmp_values`].
fn compare_value_seqs(a: &Vec<Value>, b: &Vec<Value>) -> (c: Cmp)
    ensures
        c == cmp_values(a@, b@),
    decreases a@,
{
    let n = if a.len() < b.len() {
        a.len()
    } else {
        b.len()
    };
    let mut i: usize = 0;
    while i < n
        invariant
            i <= n,
            n == if a@.len() < b@.len() {
                a@.len()
            } else {
                b@.len()
            },
            forall|j: int| 0 <= j < i ==> cmp_value(a@[j], b@[j]) == Cmp::Equal,
        decreases n - i,
    {
        let c = a[i].compare(&b[i]);
        match c {
            Cmp::Equal => {},
            _ => {
                proof {
                    lemma_cmp_values_prefix(a@, b@, i as int);
                }
                return c;
            },
        }
        i += 1;
    }
    proof {
        lemma_cmp_values_prefix(a@, b@, n as int);
    }
    if a.len() < b.len() {
        Cmp::Less
    } else if a.len() > b.len() {
        Cmp::Greater
    } else {
        Cmp::Equal
    }
}

/// Compares two entry sequences under [`cmp_entries`].
fn compare_entry_seqs(a: &Vec<(Value, Value)>, b: &Vec<(Value, Value)>) -> (c: Cmp)
    ensures
        c == cmp_entries(a@, b@),
    decreases a@,
{
    let n = if a.len() < b.len() {
        a.len()
    } else {
        b.len()
    };
    let mut i: usize = 0;
    while i < n
        invariant
            i <= n,
            n == if a@.len() < b@.len() {
                a@.len()
            } else {
                b@.len()
            },
            forall|j: int| 0 <= j < i ==> cmp_value(a@[j].0, b@[j].0) == Cmp::Equal && cmp_value(
                a@[j].1,
                b@[j].1,
            ) == Cmp::Equal,
        decreases n - i,
    {
        let ck = a[i].0.compare(&b[i].0);
        match ck {
            Cmp::Equal => {},
            _ => {
                proof {
                    lemma_cmp_entries_prefix(a@, b@, i as int);
                }
                return ck;
            },
        }
        let cv = a[i].1.compare(&b[i].1);
        match cv {
            Cmp::Equal => {},
            _ => {
                proof {
                    lemma_cmp_entries_prefix(a@, b@, i as int);
                }
                return cv;
            },
        }
        i += 1;
    }
    proof {
        lemma_cmp_entries_prefix(a@, b@, n as int);
    }
    if a.len() < b.len() {
        Cmp::Less
    } else if a.len() > b.len() {
        Cmp::Greater
    } else {
        Cmp::Equal
    }
}

/// The rank of a value's variant, executably.
fn rank_of(v: &Value) -> (r: u32)
    ensures
        r as int == rank(*v),
{
    match v {
        Value::Unit => 0,
        Value::Boolean(_) => 1,
        Value::Int8(_) => 2,
        Value::Int16(_) => 3,
        Value::Int32(_) => 4,
        Value::Int64(_) => 5,
        Value::Uint8(_) => 6,
        Value::Uint16(_) => 7,
        Value::Uint32(_) => 8,
        Value::Uint64(_) => 9,
        Value::Float32(_) => 10,
        Value::Float64(_) => 11,
        Value::Char(_) => 12,
        Value::String(_) => 13,
        Value::Bytes(_) => 14,
        Value::OptionNone => 15,
        Value::OptionSome(_) => 16,
        Value::EnumUnit(_) => 17,
        Value::NewtypeStruct(_) => 18,
        Value::Enum(_, _) => 19,
        Value::Array(_) => 20,
        Value::Tuple(_) => 21,
        Value::TupleStruct(_) => 22,
        Value::TupleVariant(_, _) => 23,
        Value::Mapping(_) => 24,
        Value::Struct(_) => 25,
        Value::StructVariant(_, _) => 26,
        Value::StructKey(_) => 27,
        Value::StructVariantKey(_) => 28,
    }
}

impl Value {
    /// Compares two values under the explicit total order: variant rank
    /// first, then the payload's own natural order.
    pub fn compare(&self, other: &Value) -> (c: Cmp)
        ensures
            c == cmp_value(*self, *other),
        decreases *self,
    {
        let ra = rank_of(self);
        let rb = rank_of(other);
        if ra < rb {
            return Cmp::Less;
        }
        if ra > rb {
            return Cmp::Greater;
        }
        match (self, other) {
            (Value::Boolean(x), Value::Boolean(y)) => {
                if *x == *y {
                    Cmp::Equal
                } else if !*x {
                    Cmp::Less
                } else {
                    Cmp::Greater
                }
            },
            (Value::Int8(x), Value::Int8(y)) => {
                if *x < *y {
                    Cmp::Less
                } else if *x > *y {
                    Cmp::Greater
                } else {
                    Cmp::Equal
                }
            },
            (Value::Int16(x), Value::Int16(y)) => {
                if *x < *y {
                    Cmp::Less
                } else if *x > *y {
                    Cmp::Greater
                } else {
                    Cmp::Equal
                }
            },
            (Value::Int32(x), Value::Int32(y)) => {
                if *x < *y {
                    Cmp::Less
                } else if *x > *y {
                    Cmp::Greater
                } else {
                    Cmp::Equal
                }
            },
            (Value::Int64(x), Value::Int64(y)) => {
                if *x < *y {
                    Cmp::Less
                } else if *x > *y {
                    Cmp::Greater
                } else {
                    Cmp::Equal
                }
            },
            (Value::Uint8(x), Value::Uint8(y)) => {
                if *x < *y {
                    Cmp::Less
                } else if *x > *y {
                    Cmp::Greater
                } else {
                    Cmp::Equal
                }
            },
            (Value::Uint16(x), Value::Uint16(y)) => {
                if *x < *y {
                    Cmp::Less
                } else if *x > *y {
                    Cmp::Greater
                } else {
                    Cmp::Equal
                }
            },
            (Value::Uint32(x), Value::Uint32(y)) => {
                if *x < *y {
                    Cmp::Less
                } else if *x > *y {
                    Cmp::Greater
                } else {
                    Cmp::Equal
                }
            },
            (Value::Uint64(x), Value::Uint64(y)) => {
                if *x < *y {
                    Cmp::Less
                } else if *x > *y {
                    Cmp::Greater
                } else {
                    Cmp::Equal
                }
            },
            (Value::Float32(x), Value::Float32(y)) => {
                let kx = if *x >= 0x8000_0000 {
                    !*x
                } else {
                    *x ^ 0x8000_0000
                };
                let ky = if *y >= 0x8000_0000 {
                    !*y
                } else {
                    *y ^ 0x8000_0000
                };
                if kx < ky {
                    Cmp::Less
                } else if kx > ky {
                    Cmp::Greater
                } else {
                    Cmp::Equal
                }
            },
            (Value::Float64(x), Value::Float64(y)) => {
                let kx = if *x >= 0x8000_0000_0000_0000 {
                    !*x
                } else {
                    *x ^ 0x8000_0000_0000_0000
                };
                let ky = if *y >= 0x8000_0000_0000_0000 {
                    !*y
                } else {
                    *y ^ 0x8000_0000_0000_0000
                };
                if kx < ky {
                    Cmp::Less
                } else if kx > ky {
                    Cmp::Greater
                } else {
                    Cmp::Equal
                }
            },
            (Value::Char(x), Value::Char(y)) => {
                if (*x as u32) < (*y as u32) {
                    Cmp::Less
                } else if (*x as u32) > (*y as u32) {
                    Cmp::Greater
                } else {
                    Cmp::Equal
                }
            },
            (Value::String(x), Value::String(y)) => compare_str(x.as_str(), y.as_str()),
            (Value::Bytes(x), Value::Bytes(y)) => compare_bytes(x, y),
            (Value::OptionSome(x), Value::OptionSome(y)) => (&**x).compare(&**y),
            (Value::EnumUnit(x), Value::EnumUnit(y)) => compare_str(x.as_str(), y.as_str()),
            (Value::NewtypeStruct(x), Value::NewtypeStruct(y)) => compare_value_seqs(x, y),
            (Value::Enum(n, x), Value::Enum(m, y)) => {
                let c = compare_str(n.as_str(), m.as_str());
                match c {
                    Cmp::Equal => compare_value_seqs(x, y),
                    _ => c,
                }
            },
            (Value::Array(x), Value::Array(y)) => compare_value_seqs(x, y),
            (Value::Tuple(x), Value::Tuple(y)) => compare_value_seqs(x, y),
            (Value::TupleStruct(x), Value::TupleStruct(y)) => compare_value_seqs(x, y),
            (Value::TupleVariant(n, x), Value::TupleVariant(m, y)) => {
                let c = compare_str(n.as_str(), m.as_str());
                match c {
                    Cmp::Equal => compare_value_seqs(x, y),
                    _ => c,
                }
            },
            (Value::Mapping(x), Value::Mapping(y)) => compare_entry_seqs(x, y),
            (Value::Struct(x), Value::Struct(y)) => compare_entry_seqs(x, y),
            (Value::StructVariant(n, x), Value::StructVariant(m, y)) => {
                let c = compare_str(n.as_str(), m.as_str());
                match c {
                    Cmp::Equal => compare_entry_seqs(x, y),
                    _ => c,
                }
            },
            (Value::StructKey(x), Value::StructKey(y)) => compare_str(x.as_str(), y.as_str()),
            (Value::StructVariantKey(x), Value::StructVariantKey(y)) => compare_str(
                x.as_str(),
                y.as_str(),
            ),
            _ => Cmp::Equal,
        }
    }
}

} // verus!
