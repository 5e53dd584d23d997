use vstd::prelude::*;
use librebound_sys::Error as RebError;

verus! {

/// The REBOUND error type, carried opaquely inside [`Error::Reb`].
#[verifier::external_type_specification]
#[verifier::external_body]
pub struct ExRebError(RebError);

/// Errors produced by the ASSIST wrappers.
#[derive(Debug)]
pub enum Error {
    /// An error reported by REBOUND.
    Reb(RebError),
    /// An ASSIST ephemeris failure (missing file, malformed data, etc.).
    EphemerisError(String),
    /// Any other failure, with its message.
    Other(String),
}

impl From<RebError> for Error {
    fn from(err: RebError) -> (res: Self) {
        Error::Reb(err)
    }
}

impl vstd::std_specs::convert::FromSpecImpl<RebError> for Error {
    open spec fn obeys_from_spec() -> bool {
        true
    }

    open spec fn from_spec(v: RebError) -> Self {
        Error::Reb(v)
    }
}

} // verus!
