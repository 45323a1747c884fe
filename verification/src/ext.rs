//! Declarations of the outside encoder's types, so that values of them can
//! pass through this crate's signatures and fields.  Their contents stay
//! opaque; what is relied upon about their behaviour is stated on the
//! trusted functions that call into them.

use bendy::encoding::Error as BendyError;
use vstd::prelude::*;

verus! {

/// bendy's encoding error, carried unchanged inside this crate's error.
#[verifier::external_type_specification]
#[verifier::external_body]
pub struct ExBendyEncodingError(BendyError);

/// bendy's streaming encoder: an append-only binary sink that owns the
/// growing output buffer.
#[verifier::external_type_specification]
#[verifier::external_body]
pub struct ExBendyEncoder(bendy::encoding::Encoder);

/// bendy's one-shot encoder, handed out for dictionary value slots.
#[verifier::external_type_specification]
#[verifier::external_body]
pub struct ExBendySingleItemEncoder<'a>(bendy::encoding::SingleItemEncoder<'a>);

} // verus!
