//! The error surfaced to callers: a wire-format failure reported by the
//! encoder, or an ad-hoc message raised by whatever drives the visit.

use vstd::prelude::*;

verus! {

/// Why a serialization stopped.
#[derive(Debug)]
pub enum Error {
    /// The underlying wire-format encoder rejected an operation.
    Encoding(bendy::encoding::Error),
    /// A generic failure reported during visitation of a value.
    Message(String),
}

impl Error {
    /// The ad-hoc error constructor the generic framework requires.
    pub fn custom(message: String) -> (r: Error)
        ensures
            r matches Error::Message(m) && m@ == message@,
    {
        Error::Message(message)
    }

    /// A short description: the ad-hoc message itself, or a fixed marker
    /// for encoder failures (the underlying failure's own wording is not
    /// forwarded).
    pub fn description(&self) -> (r: String)
        ensures
            self matches Error::Message(m) ==> r@ == m@,
            self matches Error::Encoding(_) ==> r@ == "encoding"@,
    {
        match self {
            Error::Message(message) => message.as_str().to_owned(),
            Error::Encoding(_) => "encoding".to_owned(),
        }
    }
}

impl From<bendy::encoding::Error> for Error {
    /// Wraps an encoder failure unchanged.
    fn from(source: bendy::encoding::Error) -> (r: Error) {
        Error::Encoding(source)
    }
}

impl vstd::std_specs::convert::FromSpecImpl<bendy::encoding::Error> for Error {
    open spec fn obeys_from_spec() -> bool {
        true
    }

    open spec fn from_spec(source: bendy::encoding::Error) -> Error {
        Error::Encoding(source)
    }
}

} // verus!
