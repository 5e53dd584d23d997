//! The ephemeris handle: the address of an `assist_ephem` that the C
//! library created, owned by whoever holds the handle.

use vstd::prelude::*;
use crate::error::Error;

verus! {

/// Owned ASSIST ephemeris data, known by the address of its C object.
///
/// A handle is never null: a creation that failed yields no handle.
pub struct Ephemeris {
    addr: usize,
}

impl Ephemeris {
    #[verifier::type_invariant]
    spec fn non_null(self) -> bool {
        self.addr != 0
    }

    /// The address of the underlying `assist_ephem`.
    pub closed spec fn handle(&self) -> usize {
        self.addr
    }

    /// Adopts the address that `assist_ephem_create` returned: a null address
    /// means that the kernel files could not be loaded.
    pub fn from_handle(addr: usize) -> (r: Result<Ephemeris, Error>)
        ensures
            addr == 0 <==> r is Err,
            r matches Ok(e) ==> e.handle() == addr,
            r matches Err(err) ==> err matches Error::EphemerisError(msg)
                && msg@ == "assist_ephem_create returned null — check file paths"@,
    {
        if addr == 0 {
            return Err(
                Error::EphemerisError("assist_ephem_create returned null — check file paths".to_owned()),
            );
        }
        Ok(Ephemeris { addr })
    }

    /// The address of the underlying `assist_ephem`, for direct calls into
    /// the C library. It is never zero.
    pub fn as_ptr(&self) -> (p: usize)
        ensures
            p == self.handle(),
            p != 0,
    {
        proof {
            use_type_invariant(self);
        }
        self.addr
    }
}

} // verus!
