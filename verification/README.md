# libassist_sys

Verified core of the Rust bindings to ASSIST, the ephemeris-driven N-body
force model layered on REBOUND.

- `src/` — the library, verified with Verus:
  - `cstring.rs`: kernel paths to NUL-terminated C strings (UTF-8 and
    interior-NUL checks), with the round-trip law;
  - `ephemeris.rs`: the non-null ephemeris handle;
  - `sim.rs`: `AssistSim`, owning the REBOUND `Simulation`, the non-null
    `assist_extras` handle and the `particle_params` coefficient store, with
    the laws of coefficient updates;
  - `flags.rs`: body identifiers, force flags and the default force model;
  - `error.rs`: the error type.
- `app/` — the C bindings (`extern "C"` declarations), the RAII wrappers that
  call ASSIST and free its objects, the floating-point accessors, and the
  error type with its `Display` impl.
- `tests/` — tests of the library.
