//! The data model the adapter translates, and its wire encoding.
//!
//! `Value` covers exactly the shapes the visitor contract delivers to this
//! core: the primitives, the present/absent markers, and the unit-like and
//! newtype-like variants.  Wider composites (sequences of arbitrary length
//! are still emitted through `Serializer::emit_list`; general maps, tuples
//! and structs have no encoding here) are deliberately absent.

use vstd::prelude::*;
use crate::wire::{bytes_token, dec_digits, empty_list_token, int_token};

verus! {

/// One structured value to be serialized.
///
/// Floats appear already taken apart into their little-endian IEEE-754
/// bytes, and text already as its UTF-8 bytes, so that the translation
/// rules are stated over plain data.
pub enum Value {
    Bool(bool),
    I8(i8),
    I16(i16),
    I32(i32),
    I64(i64),
    U8(u8),
    U16(u16),
    U32(u32),
    U64(u64),
    /// A 32-bit float as its four little-endian IEEE-754 bytes.
    F32Le([u8; 4]),
    /// A 64-bit float as its eight little-endian IEEE-754 bytes.
    F64Le([u8; 8]),
    Char(char),
    /// Text, as its UTF-8 bytes.
    Str(Vec<u8>),
    Bytes(Vec<u8>),
    /// An optional value: absent or present.
    Opt(Option<Box<Value>>),
    Unit,
    /// A named marker with no fields; encoded like `Unit`.
    UnitStruct,
    /// A named alternative carrying no payload; the name as UTF-8 bytes.
    UnitVariant(Vec<u8>),
    /// A wrapper around exactly one value; encoded as that value alone.
    NewtypeStruct(Box<Value>),
    /// A named alternative carrying one payload; the name as UTF-8 bytes.
    NewtypeVariant(Vec<u8>, Box<Value>),
}

/// The wire encoding of a value: the translation rules of this core.
///
/// Booleans become the integers 1 and 0; every integer width becomes a
/// decimal wire integer; floats become fixed-width byte strings of their
/// little-endian bytes; a character becomes the wire integer of its code
/// point; absence and unit become the empty list, presence a one-element
/// list; a unit variant is its name as a byte string, and a newtype
/// variant a one-key dictionary from the name to the payload.
pub open spec fn wire_of(v: Value) -> Seq<u8>
    decreases v,
{
    match v {
        Value::Bool(b) => int_token(if b { 1int } else { 0int }),
        Value::I8(x) => int_token(x as int),
        Value::I16(x) => int_token(x as int),
        Value::I32(x) => int_token(x as int),
        Value::I64(x) => int_token(x as int),
        Value::U8(x) => int_token(x as int),
        Value::U16(x) => int_token(x as int),
        Value::U32(x) => int_token(x as int),
        Value::U64(x) => int_token(x as int),
        Value::F32Le(a) => bytes_token(a@),
        Value::F64Le(a) => bytes_token(a@),
        Value::Char(c) => int_token((c as u32) as int),
        Value::Str(b) => bytes_token(b@),
        Value::Bytes(b) => bytes_token(b@),
        Value::Opt(o) => match o {
            Option::None => empty_list_token(),
            Option::Some(inner) => seq![108u8] + wire_of(*inner) + seq![101u8],
        },
        Value::Unit => empty_list_token(),
        Value::UnitStruct => empty_list_token(),
        Value::UnitVariant(name) => bytes_token(name@),
        Value::NewtypeStruct(inner) => wire_of(*inner),
        Value::NewtypeVariant(name, inner) => seq![100u8] + bytes_token(name@) + wire_of(*inner)
            + seq![101u8],
    }
}

/// The concatenated encodings of a run of values, in order.
pub open spec fn items_wire(items: Seq<Value>) -> Seq<u8>
    decreases items.len(),
{
    if items.len() == 0 {
        Seq::empty()
    } else {
        items_wire(items.drop_last()) + wire_of(items.last())
    }
}

/// A wire list holding `items` in order.
pub open spec fn list_wire(items: Seq<Value>) -> Seq<u8> {
    seq![108u8] + items_wire(items) + seq![101u8]
}

/// Extending a run of values by one appends that value's encoding.
pub proof fn lemma_items_wire_step(items: Seq<Value>, i: int)
    requires
        0 <= i < items.len(),
    ensures
        items_wire(items.take(i + 1)) == items_wire(items.take(i)) + wire_of(items[i]),
{
    assert(items.take(i + 1).drop_last() =~= items.take(i));
    assert(items.take(i + 1).last() == items[i]);
}

} // verus!
