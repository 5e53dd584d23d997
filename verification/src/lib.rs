//! Verified core of the ASSIST bindings: the ownership handles, the
//! particle-parameter store of an ASSIST simulation, the conversion of
//! kernel paths into C strings, the force-model flags, and the error type.
//!
//! The calls into the ASSIST C library itself, and everything that carries
//! floating-point values, stand outside this crate's verified part.

pub mod cstring;
pub mod ephemeris;
pub mod error;
pub mod flags;
pub mod sim;

pub use cstring::{path_to_cstring, PathError};
pub use ephemeris::Ephemeris;
pub use error::Error;
pub use sim::AssistSim;
