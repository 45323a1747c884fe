//! A bridge from a generic "describe how to serialize yourself" data model
//! to a self-describing, sorted-dictionary, length-prefixed binary wire
//! format.  The core is the dual-mode [`ser::Serializer`] adapter; the wire
//! format's own token emission is done by the `bendy` encoder, relied upon
//! through a small set of declared interfaces.

mod enc;

pub mod error;
pub mod ext;
pub mod laws;
pub mod ser;
pub mod value;
pub mod wire;

pub use error::Error;
pub use ser::to_bytes;
pub use ser::Serializer;
pub use value::Value;
