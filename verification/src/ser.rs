//! The dual-mode serializer adapter: the core of this crate.
//!
//! A `Serializer` is the polymorphic output target the visitor callbacks
//! write through.  In shared-encoder mode it accepts any number of values;
//! in single-sink mode it accepts exactly one, and every emitting method
//! demands, and then revokes, its availability — a second emission on a
//! consumed sink is a contract violation that verification rules out, not
//! a recoverable error.

use vstd::prelude::*;
use vstd::string::StringSliceAdditionalSpecFns;
use crate::enc::{
    enc_new, enc_output, enc_put_bytes, enc_put_dict1, enc_put_list, enc_put_list1, enc_bytes,
    enc_ready, enc_top, write_value,
};
use crate::error::Error;
use crate::value::{list_wire, wire_of, Value};
use crate::wire::{bytes_token, empty_list_token, int_token};

verus! {

/// The adapter's two modes: a reusable streaming encoder, or a one-shot
/// sink together with the flag that says whether it is still unconsumed.
pub enum Serializer {
    /// Shared multi-use mode: emissions may keep coming.
    Encoder(bendy::encoding::Encoder),
    /// Single-sink mode: exactly one value may ever be emitted; the flag
    /// falls once it has been.
    SingleItemEncoder(bendy::encoding::Encoder, bool),
}

impl Serializer {
    /// The bytes emitted through this adapter so far.
    pub open spec fn out(self) -> Seq<u8> {
        match self {
            Serializer::Encoder(e) => enc_bytes(e),
            Serializer::SingleItemEncoder(e, _) => enc_bytes(e),
        }
    }

    /// Whether this adapter is in single-sink mode.
    pub open spec fn is_single(self) -> bool {
        self is SingleItemEncoder
    }

    /// Whether an emission may still happen: always, in shared mode; only
    /// while unconsumed, in single-sink mode.
    pub open spec fn available(self) -> bool {
        match self {
            Serializer::Encoder(_) => true,
            Serializer::SingleItemEncoder(_, unconsumed) => unconsumed,
        }
    }

    /// The adapter stands between complete values: nothing has failed and
    /// no container is half-open.
    pub open spec fn inv(self) -> bool {
        match self {
            Serializer::Encoder(e) => enc_ready(e) && enc_top(e),
            Serializer::SingleItemEncoder(e, _) => enc_ready(e) && enc_top(e),
        }
    }

    /// An emission may begin: the adapter is well-formed and not consumed.
    pub open spec fn ready(self) -> bool {
        self.inv() && self.available()
    }

    /// What every emitting method guarantees: the adapter stays
    /// well-formed, exactly `emitted` is appended, the mode is kept, and a
    /// single-sink adapter comes out consumed.
    pub open spec fn stepped(pre: Serializer, post: Serializer, emitted: Seq<u8>) -> bool {
        &&& post.inv()
        &&& post.out() == pre.out() + emitted
        &&& post.is_single() == pre.is_single()
        &&& post.available() == !pre.is_single()
    }

    /// A fresh adapter in shared-encoder mode with an empty buffer.
    pub fn new() -> (s: Serializer)
        ensures
            s.ready(),
            !s.is_single(),
            s.out() == Seq::<u8>::empty(),
    {
        Serializer::Encoder(enc_new())
    }

    /// A fresh adapter in single-sink mode with an empty buffer: usable
    /// for exactly one value.
    pub fn new_single() -> (s: Serializer)
        ensures
            s.ready(),
            s.is_single(),
            s.out() == Seq::<u8>::empty(),
    {
        Serializer::SingleItemEncoder(enc_new(), true)
    }

    /// Whether an emission may still happen, observed at run time.
    pub fn is_available(&self) -> (b: bool)
        ensures
            b == self.available(),
    {
        match self {
            Serializer::Encoder(_) => true,
            Serializer::SingleItemEncoder(_, unconsumed) => *unconsumed,
        }
    }

    /// Emits one complete value: the mode dispatch at the heart of the
    /// adapter.  In single-sink mode this consumes the sink.
    pub fn emit(&mut self, value: &Value) -> (r: Result<(), Error>)
        requires
            old(self).ready(),
        ensures
            r is Ok,
            Self::stepped(*old(self), *final(self), wire_of(*value)),
    {
        match self {
            Serializer::Encoder(enc) => write_value(enc, value),
            Serializer::SingleItemEncoder(enc, unconsumed) => {
                *unconsumed = false;
                write_value(enc, value)
            },
        }
    }

    /// Emits a list holding `items` in order.  In single-sink mode the
    /// whole list is the sink's one value.
    pub fn emit_list(&mut self, items: &Vec<Value>) -> (r: Result<(), Error>)
        requires
            old(self).ready(),
        ensures
            r is Ok,
            Self::stepped(*old(self), *final(self), list_wire(items@)),
    {
        match self {
            Serializer::Encoder(enc) => enc_put_list(enc, items),
            Serializer::SingleItemEncoder(enc, unconsumed) => {
                *unconsumed = false;
                enc_put_list(enc, items)
            },
        }
    }

    /// Emits a one-key dictionary from `key` to `value` — the one
    /// dictionary shape this core produces (general maps have no encoding
    /// here).  In single-sink mode the dictionary is the sink's one value.
    pub fn emit_dict(&mut self, key: &[u8], value: &Value) -> (r: Result<(), Error>)
        requires
            old(self).ready(),
        ensures
            r is Ok,
            Self::stepped(
                *old(self),
                *final(self),
                seq![100u8] + bytes_token(key@) + wire_of(*value) + seq![101u8],
            ),
    {
        let r = match self {
            Serializer::Encoder(enc) => enc_put_dict1(enc, key, value),
            Serializer::SingleItemEncoder(enc, unconsumed) => {
                *unconsumed = false;
                enc_put_dict1(enc, key, value)
            },
        };
        proof {
            assert(old(self).out() + seq![100u8] + bytes_token(key@) + wire_of(*value)
                + seq![101u8] =~= old(self).out() + (seq![100u8] + bytes_token(key@) + wire_of(
                *value,
            ) + seq![101u8]));
        }
        r
    }

    /// Hands the finished buffer out; the adapter must stand between
    /// complete values.
    pub fn finish(self) -> (r: Result<Vec<u8>, Error>)
        requires
            self.inv(),
        ensures
            r is Ok,
            r matches Ok(bytes) ==> bytes@ == self.out(),
    {
        match self {
            Serializer::Encoder(enc) => enc_output(enc),
            Serializer::SingleItemEncoder(enc, _) => enc_output(enc),
        }
    }

    /// A boolean becomes the wire integer 1 or 0.
    pub fn serialize_bool(&mut self, v: bool) -> (r: Result<(), Error>)
        requires
            old(self).ready(),
        ensures
            r is Ok,
            Self::stepped(*old(self), *final(self), int_token(if v { 1int } else { 0int })),
    {
        self.emit(&Value::Bool(v))
    }

    /// A signed integer becomes its decimal wire integer, sign preserved.
    pub fn serialize_i8(&mut self, v: i8) -> (r: Result<(), Error>)
        requires
            old(self).ready(),
        ensures
            r is Ok,
            Self::stepped(*old(self), *final(self), int_token(v as int)),
    {
        self.emit(&Value::I8(v))
    }

    /// A signed integer becomes its decimal wire integer, sign preserved.
    pub fn serialize_i16(&mut self, v: i16) -> (r: Result<(), Error>)
        requires
            old(self).ready(),
        ensures
            r is Ok,
            Self::stepped(*old(self), *final(self), int_token(v as int)),
    {
        self.emit(&Value::I16(v))
    }

    /// A signed integer becomes its decimal wire integer, sign preserved.
    pub fn serialize_i32(&mut self, v: i32) -> (r: Result<(), Error>)
        requires
            old(self).ready(),
        ensures
            r is Ok,
            Self::stepped(*old(self), *final(self), int_token(v as int)),
    {
        self.emit(&Value::I32(v))
    }

    /// A signed integer becomes its decimal wire integer, sign preserved.
    pub fn serialize_i64(&mut self, v: i64) -> (r: Result<(), Error>)
        requires
            old(self).ready(),
        ensures
            r is Ok,
            Self::stepped(*old(self), *final(self), int_token(v as int)),
    {
        self.emit(&Value::I64(v))
    }

    /// An unsigned integer becomes its decimal wire integer.
    pub fn serialize_u8(&mut self, v: u8) -> (r: Result<(), Error>)
        requires
            old(self).ready(),
        ensures
            r is Ok,
            Self::stepped(*old(self), *final(self), int_token(v as int)),
    {
        self.emit(&Value::U8(v))
    }

    /// An unsigned integer becomes its decimal wire integer.
    pub fn serialize_u16(&mut self, v: u16) -> (r: Result<(), Error>)
        requires
            old(self).ready(),
        ensures
            r is Ok,
            Self::stepped(*old(self), *final(self), int_token(v as int)),
    {
        self.emit(&Value::U16(v))
    }

    /// An unsigned integer becomes its decimal wire integer.
    pub fn serialize_u32(&mut self, v: u32) -> (r: Result<(), Error>)
        requires
            old(self).ready(),
        ensures
            r is Ok,
            Self::stepped(*old(self), *final(self), int_token(v as int)),
    {
        self.emit(&Value::U32(v))
    }

    /// An unsigned integer becomes its decimal wire integer.
    pub fn serialize_u64(&mut self, v: u64) -> (r: Result<(), Error>)
        requires
            old(self).ready(),
        ensures
            r is Ok,
            Self::stepped(*old(self), *final(self), int_token(v as int)),
    {
        self.emit(&Value::U64(v))
    }

    /// A 32-bit float, handed over as its four little-endian IEEE-754
    /// bytes (as `f32::to_le_bytes` gives them), becomes a wire byte
    /// string of exactly those four bytes.
    pub fn serialize_f32(&mut self, v: [u8; 4]) -> (r: Result<(), Error>)
        requires
            old(self).ready(),
        ensures
            r is Ok,
            Self::stepped(*old(self), *final(self), bytes_token(v@)),
    {
        self.emit(&Value::F32Le(v))
    }

    /// A 64-bit float, handed over as its eight little-endian IEEE-754
    /// bytes (as `f64::to_le_bytes` gives them), becomes a wire byte
    /// string of exactly those eight bytes.
    pub fn serialize_f64(&mut self, v: [u8; 8]) -> (r: Result<(), Error>)
        requires
            old(self).ready(),
        ensures
            r is Ok,
            Self::stepped(*old(self), *final(self), bytes_token(v@)),
    {
        self.emit(&Value::F64Le(v))
    }

    /// A character becomes the wire integer of its code point.
    pub fn serialize_char(&mut self, v: char) -> (r: Result<(), Error>)
        requires
            old(self).ready(),
        ensures
            r is Ok,
            Self::stepped(*old(self), *final(self), int_token((v as u32) as int)),
    {
        self.emit(&Value::Char(v))
    }

    /// A string becomes a wire byte string of its UTF-8 bytes.
    pub fn serialize_str(&mut self, v: &str) -> (r: Result<(), Error>)
        requires
            old(self).ready(),
        ensures
            r is Ok,
            Self::stepped(*old(self), *final(self), bytes_token(v.spec_bytes())),
    {
        self.serialize_bytes(v.as_bytes())
    }

    /// A byte sequence becomes a wire byte string of those bytes.
    pub fn serialize_bytes(&mut self, v: &[u8]) -> (r: Result<(), Error>)
        requires
            old(self).ready(),
        ensures
            r is Ok,
            Self::stepped(*old(self), *final(self), bytes_token(v@)),
    {
        match self {
            Serializer::Encoder(enc) => enc_put_bytes(enc, v),
            Serializer::SingleItemEncoder(enc, unconsumed) => {
                *unconsumed = false;
                enc_put_bytes(enc, v)
            },
        }
    }

    /// An absent optional becomes the empty wire list.
    pub fn serialize_none(&mut self) -> (r: Result<(), Error>)
        requires
            old(self).ready(),
        ensures
            r is Ok,
            Self::stepped(*old(self), *final(self), empty_list_token()),
    {
        let items: Vec<Value> = Vec::new();
        let r = self.emit_list(&items);
        proof {
            assert(list_wire(items@) =~= empty_list_token());
        }
        r
    }

    /// A present optional becomes a one-element wire list holding the
    /// encoding of its value.
    pub fn serialize_some(&mut self, value: &Value) -> (r: Result<(), Error>)
        requires
            old(self).ready(),
        ensures
            r is Ok,
            Self::stepped(
                *old(self),
                *final(self),
                seq![108u8] + wire_of(*value) + seq![101u8],
            ),
    {
        let r = match self {
            Serializer::Encoder(enc) => enc_put_list1(enc, value),
            Serializer::SingleItemEncoder(enc, unconsumed) => {
                *unconsumed = false;
                enc_put_list1(enc, value)
            },
        };
        proof {
            assert(old(self).out() + seq![108u8] + wire_of(*value) + seq![101u8] =~= old(
                self,
            ).out() + (seq![108u8] + wire_of(*value) + seq![101u8]));
        }
        r
    }

    /// The unit value becomes the empty wire list, like an absent
    /// optional.
    pub fn serialize_unit(&mut self) -> (r: Result<(), Error>)
        requires
            old(self).ready(),
        ensures
            r is Ok,
            Self::stepped(*old(self), *final(self), empty_list_token()),
    {
        self.serialize_none()
    }

    /// A named marker with no fields becomes the empty wire list; the
    /// name plays no part.
    pub fn serialize_unit_struct(&mut self, _name: &str) -> (r: Result<(), Error>)
        requires
            old(self).ready(),
        ensures
            r is Ok,
            Self::stepped(*old(self), *final(self), empty_list_token()),
    {
        self.serialize_none()
    }

    /// A unit-like variant becomes a wire byte string of the variant's
    /// name.
    pub fn serialize_unit_variant(
        &mut self,
        _name: &str,
        _variant_index: u32,
        variant: &str,
    ) -> (r: Result<(), Error>)
        requires
            old(self).ready(),
        ensures
            r is Ok,
            Self::stepped(*old(self), *final(self), bytes_token(variant.spec_bytes())),
    {
        self.serialize_str(variant)
    }

    /// A wrapper around one value is encoded as that value alone; the
    /// name plays no part.
    pub fn serialize_newtype_struct(&mut self, _name: &str, value: &Value) -> (r: Result<
        (),
        Error,
    >)
        requires
            old(self).ready(),
        ensures
            r is Ok,
            Self::stepped(*old(self), *final(self), wire_of(*value)),
    {
        self.emit(value)
    }

    /// A newtype-like variant becomes a one-key dictionary: the variant's
    /// name as the sole key, the payload's encoding as the value, written
    /// exactly once through the dictionary's value slot.
    pub fn serialize_newtype_variant(
        &mut self,
        _name: &str,
        _variant_index: u32,
        variant: &str,
        value: &Value,
    ) -> (r: Result<(), Error>)
        requires
            old(self).ready(),
        ensures
            r is Ok,
            Self::stepped(
                *old(self),
                *final(self),
                seq![100u8] + bytes_token(variant.spec_bytes()) + wire_of(*value) + seq![101u8],
            ),
    {
        self.emit_dict(variant.as_bytes(), value)
    }
}

/// Serializes one value to its wire bytes: builds a fresh shared-mode
/// adapter, drives the value through it, and returns the finished buffer.
/// Every value of the data model encodes, so this cannot fail.
pub fn to_bytes(value: &Value) -> (r: Result<Vec<u8>, Error>)
    ensures
        r is Ok,
        r matches Ok(bytes) ==> bytes@ == wire_of(*value),
{
    let mut serializer = Serializer::new();
    match serializer.emit(value) {
        Ok(()) => {},
        Err(err) => {
            return Err(err);
        },
    }
    serializer.finish()
}

} // verus!
