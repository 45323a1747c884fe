//! The wire-format encoder collaborator, and the verified emission routines
//! built on it.
//!
//! bendy's encoder owns the growing output buffer and validates the token
//! structure; this module relies on it through a handful of trusted
//! functions.  Three names describe an encoder abstractly:
//! [`enc_bytes`], the bytes accumulated so far; [`enc_ready`], whether a
//! complete value may begin here (no failure recorded, and the encoder
//! stands at the top level or directly inside a list); and [`enc_top`],
//! whether the encoder stands at the top level with every container closed
//! and no failure recorded.  The trusted contracts state how each call
//! moves these three, exactly as bendy's source shows; everything else is
//! proved.

use vstd::prelude::*;
use crate::error::Error;
use crate::value::{items_wire, lemma_items_wire_step, list_wire, wire_of, Value};
use crate::wire::{bytes_token, empty_list_token, int_token};

verus! {

/// The bytes the encoder has accumulated so far.
pub uninterp spec fn enc_bytes(e: bendy::encoding::Encoder) -> Seq<u8>;

/// Whether a complete value may begin here: no failure has been recorded
/// and the encoder stands at the top level or directly inside a list.
pub uninterp spec fn enc_ready(e: bendy::encoding::Encoder) -> bool;

/// Whether the encoder stands at the top level, every container closed and
/// no failure recorded, so that the buffer may be taken.
pub uninterp spec fn enc_top(e: bendy::encoding::Encoder) -> bool;

/// Hands an error back to bendy's closure interface: an encoder failure is
/// returned unchanged; the ad-hoc message kind (which the emission
/// routines here never produce) is flattened to a malformed-content error.
#[verifier::external_body]
fn unwrap_or_structure_error(err: Error) -> (r: bendy::encoding::Error)
    ensures
        err matches Error::Encoding(inner) ==> r == inner,
{
    match err {
        Error::Encoding(inner) => inner,
        Error::Message(message) => bendy::encoding::Error::malformed_content(
            std::io::Error::new(std::io::ErrorKind::InvalidData, message),
        ),
    }
}

/// Relies on bendy's `Encoder::new` and `with_max_depth`: a fresh encoder
/// has an empty buffer and no open container.  The depth cap is lifted so
/// that only structural misuse, which the verified callers rule out, could
/// ever fail an emission.
#[verifier::external_body]
pub(crate) fn enc_new() -> (e: bendy::encoding::Encoder)
    ensures
        enc_bytes(e) == Seq::<u8>::empty(),
        enc_ready(e),
        enc_top(e),
{
    bendy::encoding::Encoder::new().with_max_depth(usize::MAX)
}

/// Relies on bendy's `Encoder::emit_int`: where a value may begin, it
/// appends `i`, the signed decimal digits, `e`, and cannot fail.
#[verifier::external_body]
pub(crate) fn enc_put_i64(e: &mut bendy::encoding::Encoder, v: i64) -> (r: Result<(), Error>)
    requires
        enc_ready(*old(e)),
    ensures
        r is Ok,
        enc_bytes(*final(e)) == enc_bytes(*old(e)) + int_token(v as int),
        enc_ready(*final(e)),
        enc_top(*old(e)) ==> enc_top(*final(e)),
{
    e.emit_int(v).map_err(Error::Encoding)
}

/// Relies on bendy's `Encoder::emit_int`, as [`enc_put_i64`] but for the
/// unsigned range.
#[verifier::external_body]
pub(crate) fn enc_put_u64(e: &mut bendy::encoding::Encoder, v: u64) -> (r: Result<(), Error>)
    requires
        enc_ready(*old(e)),
    ensures
        r is Ok,
        enc_bytes(*final(e)) == enc_bytes(*old(e)) + int_token(v as int),
        enc_ready(*final(e)),
        enc_top(*old(e)) ==> enc_top(*final(e)),
{
    e.emit_int(v).map_err(Error::Encoding)
}

/// Relies on bendy's `Encoder::emit_bytes`: where a value may begin, it
/// appends the decimal length, `:`, and the bytes, and cannot fail.
#[verifier::external_body]
pub(crate) fn enc_put_bytes(e: &mut bendy::encoding::Encoder, b: &[u8]) -> (r: Result<(), Error>)
    requires
        enc_ready(*old(e)),
    ensures
        r is Ok,
        enc_bytes(*final(e)) == enc_bytes(*old(e)) + bytes_token(b@),
        enc_ready(*final(e)),
        enc_top(*old(e)) ==> enc_top(*final(e)),
{
    e.emit_bytes(b).map_err(Error::Encoding)
}

/// Relies on bendy's `Encoder::emit_list`: it appends `l`, then what the
/// callback emits, then `e`.  The callback is [`write_list_body`], whose
/// verified contract says it appends exactly the encodings of `items`.
#[verifier::external_body]
pub(crate) fn enc_put_list(e: &mut bendy::encoding::Encoder, items: &Vec<Value>) -> (r: Result<(), Error>)
    requires
        enc_ready(*old(e)),
    ensures
        r is Ok,
        enc_bytes(*final(e)) == enc_bytes(*old(e)) + list_wire(items@),
        enc_ready(*final(e)),
        enc_top(*old(e)) ==> enc_top(*final(e)),
{
    e.emit_list(|inner| write_list_body(inner, items).map_err(unwrap_or_structure_error))
        .map_err(Error::Encoding)
}

/// Relies on bendy's `Encoder::emit_list`: as [`enc_put_list`], with the
/// callback [`write_value`] emitting the one item.
#[verifier::external_body]
pub(crate) fn enc_put_list1(e: &mut bendy::encoding::Encoder, v: &Value) -> (r: Result<(), Error>)
    requires
        enc_ready(*old(e)),
    ensures
        r is Ok,
        enc_bytes(*final(e)) == enc_bytes(*old(e)) + seq![108u8] + wire_of(*v) + seq![101u8],
        enc_ready(*final(e)),
        enc_top(*old(e)) ==> enc_top(*final(e)),
{
    e.emit_list(|inner| write_value(inner, v).map_err(unwrap_or_structure_error))
        .map_err(Error::Encoding)
}

/// Relies on bendy's `Encoder::emit_dict` and
/// `SortedDictEncoder::emit_pair_with`: it appends `d`, the key as a byte
/// string, the one value the callback emits through its one-shot sink
/// ([`write_value_single`]), then `e`.  A single key is trivially sorted,
/// so the emission cannot fail.
#[verifier::external_body]
pub(crate) fn enc_put_dict1(e: &mut bendy::encoding::Encoder, key: &[u8], v: &Value) -> (r: Result<
    (),
    Error,
>)
    requires
        enc_ready(*old(e)),
    ensures
        r is Ok,
        enc_bytes(*final(e)) == enc_bytes(*old(e)) + seq![100u8] + bytes_token(key@) + wire_of(*v)
            + seq![101u8],
        enc_ready(*final(e)),
        enc_top(*old(e)) ==> enc_top(*final(e)),
{
    e.emit_dict(
        |mut d|
            d.emit_pair_with(
                key,
                |s| write_value_single(s, v).map_err(unwrap_or_structure_error),
            ),
    ).map_err(Error::Encoding)
}

/// Relies on bendy's `Encoder::get_output`: with every container closed
/// and no failure recorded, it hands the accumulated buffer out.
#[verifier::external_body]
pub(crate) fn enc_output(e: bendy::encoding::Encoder) -> (r: Result<Vec<u8>, Error>)
    requires
        enc_top(e),
    ensures
        r is Ok,
        r matches Ok(bytes) ==> bytes@ == enc_bytes(e),
{
    e.get_output().map_err(Error::Encoding)
}

/// Relies on bendy's `SingleItemEncoder::emit_int`; writes the sink's one
/// value.  Its effect lands in the buffer of the encoder behind the sink,
/// which the enclosing trusted caller accounts for.
#[verifier::external_body]
fn sie_put_i64(s: bendy::encoding::SingleItemEncoder<'_>, v: i64) -> Result<(), Error> {
    s.emit_int(v).map_err(Error::Encoding)
}

/// Relies on bendy's `SingleItemEncoder::emit_int`, unsigned range.
#[verifier::external_body]
fn sie_put_u64(s: bendy::encoding::SingleItemEncoder<'_>, v: u64) -> Result<(), Error> {
    s.emit_int(v).map_err(Error::Encoding)
}

/// Relies on bendy's `SingleItemEncoder::emit_bytes`.
#[verifier::external_body]
fn sie_put_bytes(s: bendy::encoding::SingleItemEncoder<'_>, b: &[u8]) -> Result<(), Error> {
    s.emit_bytes(b).map_err(Error::Encoding)
}

/// Relies on bendy's `SingleItemEncoder::emit_list` with an empty body.
#[verifier::external_body]
fn sie_put_empty_list(s: bendy::encoding::SingleItemEncoder<'_>) -> Result<(), Error> {
    s.emit_list(|_| Ok(())).map_err(Error::Encoding)
}

/// Relies on bendy's `SingleItemEncoder::emit_list`; the callback
/// [`write_value`] emits the one item.
#[verifier::external_body]
fn sie_put_list1(s: bendy::encoding::SingleItemEncoder<'_>, v: &Value) -> Result<(), Error> {
    s.emit_list(|inner| write_value(inner, v).map_err(unwrap_or_structure_error))
        .map_err(Error::Encoding)
}

/// Relies on bendy's `SingleItemEncoder::emit_dict` and
/// `SortedDictEncoder::emit_pair_with`, as [`enc_put_dict1`].
#[verifier::external_body]
fn sie_put_dict1(
    s: bendy::encoding::SingleItemEncoder<'_>,
    key: &[u8],
    v: &Value,
) -> Result<(), Error> {
    s.emit_dict(
        |mut d|
            d.emit_pair_with(
                key,
                |inner| write_value_single(inner, v).map_err(unwrap_or_structure_error),
            ),
    ).map_err(Error::Encoding)
}

/// Writes one complete value where a value may begin, appending exactly
/// its wire encoding.  Nothing the verified callers can hand it fails.
pub(crate) fn write_value(e: &mut bendy::encoding::Encoder, v: &Value) -> (r: Result<(), Error>)
    requires
        enc_ready(*old(e)),
    ensures
        r is Ok,
        enc_bytes(*final(e)) == enc_bytes(*old(e)) + wire_of(*v),
        enc_ready(*final(e)),
        enc_top(*old(e)) ==> enc_top(*final(e)),
    decreases *v,
{
    match v {
        Value::Bool(b) => enc_put_i64(e, if *b { 1i64 } else { 0i64 }),
        Value::I8(x) => enc_put_i64(e, *x as i64),
        Value::I16(x) => enc_put_i64(e, *x as i64),
        Value::I32(x) => enc_put_i64(e, *x as i64),
        Value::I64(x) => enc_put_i64(e, *x),
        Value::U8(x) => enc_put_u64(e, *x as u64),
        Value::U16(x) => enc_put_u64(e, *x as u64),
        Value::U32(x) => enc_put_u64(e, *x as u64),
        Value::U64(x) => enc_put_u64(e, *x),
        Value::F32Le(a) => enc_put_bytes(e, vstd::array::array_as_slice(a)),
        Value::F64Le(a) => enc_put_bytes(e, vstd::array::array_as_slice(a)),
        Value::Char(c) => enc_put_u64(e, (*c as u32) as u64),
        Value::Str(b) => enc_put_bytes(e, b.as_slice()),
        Value::Bytes(b) => enc_put_bytes(e, b.as_slice()),
        Value::Opt(Some(inner)) => enc_put_list1(e, &**inner),
        Value::Opt(None) => write_empty_list(e),
        Value::Unit => write_empty_list(e),
        Value::UnitStruct => write_empty_list(e),
        Value::UnitVariant(name) => enc_put_bytes(e, name.as_slice()),
        Value::NewtypeStruct(inner) => write_value(e, &**inner),
        Value::NewtypeVariant(name, inner) => enc_put_dict1(e, name.as_slice(), &**inner),
    }
}

/// Writes an empty list where a value may begin.
fn write_empty_list(e: &mut bendy::encoding::Encoder) -> (r: Result<(), Error>)
    requires
        enc_ready(*old(e)),
    ensures
        r is Ok,
        enc_bytes(*final(e)) == enc_bytes(*old(e)) + empty_list_token(),
        enc_ready(*final(e)),
        enc_top(*old(e)) ==> enc_top(*final(e)),
{
    let items: Vec<Value> = Vec::new();
    let r = enc_put_list(e, &items);
    proof {
        assert(list_wire(items@) =~= empty_list_token());
    }
    r
}

/// Writes a run of values in order, appending exactly their encodings.
/// This is the body that bendy's list emission runs.
pub(crate) fn write_list_body(e: &mut bendy::encoding::Encoder, items: &Vec<Value>) -> (r: Result<
    (),
    Error,
>)
    requires
        enc_ready(*old(e)),
    ensures
        r is Ok,
        enc_bytes(*final(e)) == enc_bytes(*old(e)) + items_wire(items@),
        enc_ready(*final(e)),
        enc_top(*old(e)) ==> enc_top(*final(e)),
{
    let ghost e0 = *e;
    let mut i: usize = 0;
    while i < items.len()
        invariant
            i <= items.len(),
            enc_ready(*e),
            enc_bytes(*e) == enc_bytes(e0) + items_wire(items@.take(i as int)),
            enc_top(e0) ==> enc_top(*e),
        decreases items.len() - i,
    {
        let r = write_value(e, &items[i]);
        match r {
            Ok(()) => {},
            Err(err) => {
                return Err(err);
            },
        }
        proof {
            lemma_items_wire_step(items@, i as int);
        }
        i = i + 1;
    }
    proof {
        assert(items@.take(items@.len() as int) =~= items@);
    }
    Ok(())
}

/// Writes one complete value through a one-shot sink.  The sink's effect
/// lands in the buffer hidden behind it, so the contract of the trusted
/// caller that hands the sink out accounts for the bytes; this routine
/// only fixes which emissions make up the value.
fn write_value_single(s: bendy::encoding::SingleItemEncoder<'_>, v: &Value) -> Result<(), Error>
    decreases *v,
{
    match v {
        Value::Bool(b) => sie_put_i64(s, if *b { 1i64 } else { 0i64 }),
        Value::I8(x) => sie_put_i64(s, *x as i64),
        Value::I16(x) => sie_put_i64(s, *x as i64),
        Value::I32(x) => sie_put_i64(s, *x as i64),
        Value::I64(x) => sie_put_i64(s, *x),
        Value::U8(x) => sie_put_u64(s, *x as u64),
        Value::U16(x) => sie_put_u64(s, *x as u64),
        Value::U32(x) => sie_put_u64(s, *x as u64),
        Value::U64(x) => sie_put_u64(s, *x),
        Value::F32Le(a) => sie_put_bytes(s, vstd::array::array_as_slice(a)),
        Value::F64Le(a) => sie_put_bytes(s, vstd::array::array_as_slice(a)),
        Value::Char(c) => sie_put_u64(s, (*c as u32) as u64),
        Value::Str(b) => sie_put_bytes(s, b.as_slice()),
        Value::Bytes(b) => sie_put_bytes(s, b.as_slice()),
        Value::Opt(Some(inner)) => sie_put_list1(s, &**inner),
        Value::Opt(None) => sie_put_empty_list(s),
        Value::Unit => sie_put_empty_list(s),
        Value::UnitStruct => sie_put_empty_list(s),
        Value::UnitVariant(name) => sie_put_bytes(s, name.as_slice()),
        Value::NewtypeStruct(inner) => write_value_single(s, &**inner),
        Value::NewtypeVariant(name, inner) => sie_put_dict1(s, name.as_slice(), &**inner),
    }
}

} // verus!
