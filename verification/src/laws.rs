//! The format-level laws of the translation, stated and proved once over
//! the wire-encoding function that every emitting contract speaks of.

use vstd::prelude::*;
use crate::value::{wire_of, Value};
use crate::wire::{bytes_token, empty_list_token};

verus! {

/// An absent optional, the unit value and a fieldless named marker all
/// share one encoding: the empty wire list.
pub proof fn lemma_absent_and_unit_agree()
    ensures
        wire_of(Value::Opt(Option::None)) == empty_list_token(),
        wire_of(Value::Unit) == empty_list_token(),
        wire_of(Value::UnitStruct) == empty_list_token(),
{
}

/// A present optional is exactly a one-element wire list holding the
/// encoding of its value — `l`, the value, `e` — for every value.
pub proof fn lemma_some_is_one_element_list(inner: Box<Value>)
    ensures
        wire_of(Value::Opt(Option::Some(inner))) == seq![108u8] + wire_of(*inner) + seq![101u8],
{
}

/// A newtype-like variant is exactly a one-key dictionary: `d`, the
/// variant's name as a byte string and nothing else as a key, the
/// payload's encoding, `e` — for every name and payload.
pub proof fn lemma_newtype_variant_single_key(name: Vec<u8>, payload: Box<Value>)
    ensures
        wire_of(Value::NewtypeVariant(name, payload)) == seq![100u8] + bytes_token(name@)
            + wire_of(*payload) + seq![101u8],
{
}

/// Serialization is deterministic: any two byte sequences produced for
/// the same logical value are identical, since every run's output equals
/// the one wire encoding of that value.
pub proof fn lemma_serialization_deterministic(v: Value, run1: Seq<u8>, run2: Seq<u8>)
    requires
        run1 == wire_of(v),
        run2 == wire_of(v),
    ensures
        run1 == run2,
{
}

} // verus!

