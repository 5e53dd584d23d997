//! An ASSIST-powered REBOUND simulation: the simulation itself, the handle
//! of the `assist_extras` attached to it, and the array of non-gravitational
//! coefficients that ASSIST reads through a pointer.
//!
//! The coefficients are IEEE-754 doubles; this module holds each of them by
//! its bit pattern (`f64::to_bits`), so that the array it owns is, byte for
//! byte, the `double` array that ASSIST reads.

use vstd::prelude::*;
use librebound_sys::Simulation;
use crate::error::Error;

verus! {

/// REBOUND's simulation, carried opaquely.
#[verifier::external_type_specification]
#[verifier::external_body]
pub struct ExSimulation(Simulation);

/// What a simulation holds, counted: the number of particles (real and
/// variational) in its particle array, which `Simulation::n_particles` reads.
pub uninterp spec fn particle_count(sim: Simulation) -> nat;

/// Whether the simulation's `exact_finish_time` switch is on: the setting
/// that `Simulation::set_exact_finish_time` writes (the Rust API offers no
/// getter for it).
pub uninterp spec fn exact_finish_time(sim: Simulation) -> bool;

/// Everything a simulation holds except its `exact_finish_time` switch, as
/// bytes: every other field of the C `reb_simulation` (time, timestep,
/// integrator and gravity settings, callbacks) and the memory it owns (the
/// particles, in order). `Simulation::set_exact_finish_time` keeps it.
pub uninterp spec fn state_apart_from_exact_finish(sim: Simulation) -> Seq<u8>;

/// Wraps `Simulation::n_particles`, which reads REBOUND's particle count `N`.
#[verifier::external_body]
fn sim_n_particles(sim: &Simulation) -> (n: usize)
    ensures
        n == particle_count(*sim),
{
    sim.n_particles()
}

/// Wraps `Simulation::set_exact_finish_time`, which writes REBOUND's
/// `exact_finish_time` field and nothing else: the particles, the time and
/// every other setting stay as they were.
#[verifier::external_body]
fn sim_set_exact_finish_time(sim: &mut Simulation, v: bool)
    ensures
        exact_finish_time(*final(sim)) == v,
        particle_count(*final(sim)) == particle_count(*old(sim)),
        state_apart_from_exact_finish(*final(sim)) == state_apart_from_exact_finish(*old(sim)),
{
    sim.set_exact_finish_time(v)
}

/// The coefficient array with the real test particle's A1, A2, A3 (its
/// first three slots) replaced.
pub open spec fn with_coeffs(p: Seq<u64>, a1: u64, a2: u64, a3: u64) -> Seq<u64> {
    p.update(0, a1).update(1, a2).update(2, a3)
}

/// The installed coefficient array after a coefficient update: nothing to
/// update where none is installed.
pub open spec fn update_coeffs(state: Option<Seq<u64>>, a1: u64, a2: u64, a3: u64) -> Option<
    Seq<u64>,
> {
    match state {
        Some(p) => Some(with_coeffs(p, a1, a2, a3)),
        None => None,
    }
}

/// A coefficient update writes A1, A2, A3 into the first three slots and
/// leaves the length and every variational column (index 3 on) as it was.
pub proof fn lemma_coeff_update_keeps_variational_columns(p: Seq<u64>, a1: u64, a2: u64, a3: u64)
    requires
        p.len() >= 3,
    ensures
        with_coeffs(p, a1, a2, a3).len() == p.len(),
        with_coeffs(p, a1, a2, a3)[0] == a1,
        with_coeffs(p, a1, a2, a3)[1] == a2,
        with_coeffs(p, a1, a2, a3)[2] == a3,
        forall|i: int| 3 <= i < p.len() ==> #[trigger] with_coeffs(p, a1, a2, a3)[i] == p[i],
{
}

/// Of two coefficient updates in a row, the second one wins: the array
/// holds what a single update with the second coefficients would give, and
/// without an installed array both are refused alike.
pub proof fn lemma_coeff_update_last_wins(
    state: Option<Seq<u64>>,
    a1: u64,
    a2: u64,
    a3: u64,
    b1: u64,
    b2: u64,
    b3: u64,
)
    requires
        state matches Some(p) ==> p.len() >= 3,
    ensures
        update_coeffs(update_coeffs(state, a1, a2, a3), b1, b2, b3) == update_coeffs(
            state,
            b1,
            b2,
            b3,
        ),
{
    if let Some(p) = state {
        assert(with_coeffs(with_coeffs(p, a1, a2, a3), b1, b2, b3) =~= with_coeffs(p, b1, b2, b3));
    }
}

/// Updating the coefficients of an installed array leaves the new
/// coefficients in front of the installed variational columns.
pub proof fn lemma_install_then_update(params: Seq<u64>, a1: u64, a2: u64, a3: u64)
    requires
        params.len() >= 3,
    ensures
        update_coeffs(Some(params), a1, a2, a3) == Some(
            seq![a1, a2, a3] + params.subrange(3, params.len() as int),
        ),
{
    assert(with_coeffs(params, a1, a2, a3) =~= seq![a1, a2, a3] + params.subrange(
        3,
        params.len() as int,
    ));
}

/// A REBOUND simulation with ASSIST ephemeris forces attached.
///
/// Owns the simulation and the handle of its `assist_extras`, which is never
/// null, and keeps the installed `particle_params` array alive for as long as
/// the simulation.
pub struct AssistSim {
    sim: Simulation,
    ax: ExtrasHandle,
    particle_params: Option<Vec<u64>>,
}

/// The address of an attached `assist_extras`; never null.
struct ExtrasHandle {
    addr: usize,
}

impl ExtrasHandle {
    #[verifier::type_invariant]
    spec fn non_null(self) -> bool {
        self.addr != 0
    }
}

impl AssistSim {
    /// The underlying simulation.
    pub closed spec fn simulation(&self) -> Simulation {
        self.sim
    }

    /// The address of the attached `assist_extras`.
    pub closed spec fn extras(&self) -> usize {
        self.ax.addr
    }

    /// The installed `particle_params` array, if any.
    pub closed spec fn params(&self) -> Option<Seq<u64>> {
        match self.particle_params {
            Some(v) => Some(v@),
            None => None,
        }
    }

    /// Takes ownership of `sim` with the `assist_extras` at address `ax`
    /// attached to it, and switches exact finish time on, leaving the rest of
    /// the simulation as it came in. A null `ax` means
    /// that attaching failed.
    pub fn new(sim: Simulation, ax: usize) -> (r: Result<AssistSim, Error>)
        ensures
            ax == 0 <==> r is Err,
            r matches Err(e) ==> e matches Error::Other(msg) && msg@ == "assist_attach returned null"@,
            r matches Ok(s) ==> {
                &&& s.extras() == ax
                &&& s.params() is None
                &&& exact_finish_time(s.simulation())
                &&& particle_count(s.simulation()) == particle_count(sim)
                &&& state_apart_from_exact_finish(s.simulation())
                    == state_apart_from_exact_finish(sim)
            },
    {
        if ax == 0 {
            return Err(Error::Other("assist_attach returned null".to_owned()));
        }
        let mut sim = sim;
        sim_set_exact_finish_time(&mut sim, true);
        Ok(AssistSim { sim, ax: ExtrasHandle { addr: ax }, particle_params: None })
    }

    /// The address of the attached `assist_extras`, for direct calls into
    /// the C library. It is never zero.
    pub fn extras_ptr(&self) -> (p: usize)
        ensures
            p == self.extras(),
            p != 0,
    {
        proof {
            use_type_invariant(&self.ax);
        }
        self.ax.addr
    }

    /// The number of particles (real and variational) in the simulation.
    pub fn n_particles(&self) -> (n: usize)
        ensures
            n == particle_count(self.simulation()),
    {
        sim_n_particles(&self.sim)
    }

    /// Access the underlying simulation.
    pub fn sim(&self) -> (s: &Simulation)
        ensures
            *s == self.simulation(),
    {
        &self.sim
    }

    /// Mutable access to the underlying simulation.
    pub fn sim_mut(&mut self) -> (s: &mut Simulation)
        ensures
            *s == old(self).simulation(),
            final(self).simulation() == *final(s),
            final(self).extras() == old(self).extras(),
            final(self).params() == old(self).params(),
    {
        &mut self.sim
    }

    /// The installed `particle_params` array, if any.
    pub fn particle_params(&self) -> (r: Option<&Vec<u64>>)
        ensures
            match r {
                Some(v) => self.params() == Some(v@),
                None => self.params() is None,
            },
    {
        match &self.particle_params {
            Some(v) => Some(v),
            None => None,
        }
    }

    /// Installs ASSIST's `particle_params` array: three coefficients per
    /// particle, `[A1, A2, A3]`, real particles first, then variational ones.
    /// Its length must be three times the number of particles. A previously
    /// installed array is dropped.
    pub fn set_particle_params(&mut self, params: Vec<u64>)
        requires
            params@.len() == 3 * particle_count(old(self).simulation()),
        ensures
            final(self).params() == Some(params@),
            final(self).simulation() == old(self).simulation(),
            final(self).extras() == old(self).extras(),
    {
        self.particle_params = Some(params);
    }

    /// Installs `params` as [`Self::set_particle_params`] does where its length
    /// is three times the number of particles; otherwise hands it back and
    /// changes nothing.
    pub fn set_particle_params_checked(&mut self, params: Vec<u64>) -> (r: Result<(), Vec<u64>>)
        ensures
            params@.len() == 3 * particle_count(old(self).simulation()) <==> r is Ok,
            r is Ok ==> final(self).params() == Some(params@),
            r matches Err(p) ==> p@ == params@ && final(self).params() == old(self).params(),
            final(self).simulation() == old(self).simulation(),
            final(self).extras() == old(self).extras(),
    {
        let n = self.n_particles();
        let len = params.len();
        match n.checked_mul(3) {
            Some(expected) => {
                if len == expected {
                    self.set_particle_params(params);
                    Ok(())
                } else {
                    Err(params)
                }
            },
            None => Err(params),
        }
    }

    /// Rewrites the first three slots of the installed `particle_params`
    /// array (the real test particle's A1, A2, A3) in place; the variational
    /// columns from index 3 on are left as they are. Fails, changing
    /// nothing, where no array was installed.
    pub fn update_nongrav_coeffs(&mut self, a1: u64, a2: u64, a3: u64) -> (r: Result<(), Error>)
        requires
            old(self).params() matches Some(p) ==> p.len() >= 3,
        ensures
            r is Ok <==> old(self).params() is Some,
            r matches Err(e) ==> e matches Error::Other(msg) && msg@
                == "update_nongrav_coeffs called before set_particle_params; install a particle_params array first"@,
            final(self).params() == update_coeffs(old(self).params(), a1, a2, a3),
            final(self).simulation() == old(self).simulation(),
            final(self).extras() == old(self).extras(),
    {
        match self.particle_params.take() {
            None => Err(
                Error::Other(
                    "update_nongrav_coeffs called before set_particle_params; install a particle_params array first".to_owned(),
                ),
            ),
            Some(mut v) => {
                v.set(0, a1);
                v.set(1, a2);
                v.set(2, a3);
                self.particle_params = Some(v);
                Ok(())
            },
        }
    }
}

} // verus!
