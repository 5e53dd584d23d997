//! ASSIST body identifiers, force-model flags and status codes.

use vstd::prelude::*;

verus! {

pub const ASSIST_BODY_SUN: i32 = 0;
pub const ASSIST_BODY_MERCURY: i32 = 1;
pub const ASSIST_BODY_VENUS: i32 = 2;
pub const ASSIST_BODY_EARTH: i32 = 3;
pub const ASSIST_BODY_MOON: i32 = 4;
pub const ASSIST_BODY_MARS: i32 = 5;
pub const ASSIST_BODY_JUPITER: i32 = 6;
pub const ASSIST_BODY_SATURN: i32 = 7;
pub const ASSIST_BODY_URANUS: i32 = 8;
pub const ASSIST_BODY_NEPTUNE: i32 = 9;
pub const ASSIST_BODY_PLUTO: i32 = 10;
pub const ASSIST_BODY_NPLANETS: i32 = 11;

pub const ASSIST_FORCE_SUN: i32 = 0x01;
pub const ASSIST_FORCE_PLANETS: i32 = 0x02;
pub const ASSIST_FORCE_ASTEROIDS: i32 = 0x04;
pub const ASSIST_FORCE_NON_GRAVITATIONAL: i32 = 0x08;
pub const ASSIST_FORCE_EARTH_HARMONICS: i32 = 0x10;
pub const ASSIST_FORCE_SUN_HARMONICS: i32 = 0x20;
pub const ASSIST_FORCE_GR_EIH: i32 = 0x40;
pub const ASSIST_FORCE_GR_SIMPLE: i32 = 0x80;
pub const ASSIST_FORCE_GR_POTENTIAL: i32 = 0x100;

/// Default force flags: Sun + planets + asteroids + Earth J2/J3/J4 + Sun J2 + GR (EIH).
pub const ASSIST_FORCES_DEFAULT: i32 = ASSIST_FORCE_SUN | ASSIST_FORCE_PLANETS
    | ASSIST_FORCE_ASTEROIDS | ASSIST_FORCE_EARTH_HARMONICS | ASSIST_FORCE_SUN_HARMONICS
    | ASSIST_FORCE_GR_EIH;

pub const ASSIST_SUCCESS: i32 = 0;
pub const ASSIST_ERROR_EPHEM_FILE: i32 = 1;
pub const ASSIST_ERROR_AST_FILE: i32 = 2;

/// The flag `flag` is switched on in `flags`.
pub open spec fn force_enabled(flags: i32, flag: i32) -> bool {
    flags & flag != 0
}

/// The default force model switches on the Sun, the planets, the massive
/// asteroids, the Earth and Sun harmonics and the EIH relativity term, and
/// leaves off the non-gravitational force and the other two relativity models.
pub proof fn lemma_default_forces()
    ensures
        force_enabled(ASSIST_FORCES_DEFAULT, ASSIST_FORCE_SUN),
        force_enabled(ASSIST_FORCES_DEFAULT, ASSIST_FORCE_PLANETS),
        force_enabled(ASSIST_FORCES_DEFAULT, ASSIST_FORCE_ASTEROIDS),
        force_enabled(ASSIST_FORCES_DEFAULT, ASSIST_FORCE_EARTH_HARMONICS),
        force_enabled(ASSIST_FORCES_DEFAULT, ASSIST_FORCE_SUN_HARMONICS),
        force_enabled(ASSIST_FORCES_DEFAULT, ASSIST_FORCE_GR_EIH),
        !force_enabled(ASSIST_FORCES_DEFAULT, ASSIST_FORCE_NON_GRAVITATIONAL),
        !force_enabled(ASSIST_FORCES_DEFAULT, ASSIST_FORCE_GR_SIMPLE),
        !force_enabled(ASSIST_FORCES_DEFAULT, ASSIST_FORCE_GR_POTENTIAL),
        ASSIST_FORCES_DEFAULT == 0x77,
{
    assert(0x01i32 | 0x02i32 | 0x04i32 | 0x10i32 | 0x20i32 | 0x40i32 == 0x77i32) by (bit_vector);
    assert(0x77i32 & 0x01i32 != 0 && 0x77i32 & 0x02i32 != 0 && 0x77i32 & 0x04i32 != 0
        && 0x77i32 & 0x10i32 != 0 && 0x77i32 & 0x20i32 != 0 && 0x77i32 & 0x40i32 != 0
        && 0x77i32 & 0x08i32 == 0 && 0x77i32 & 0x80i32 == 0 && 0x77i32 & 0x100i32 == 0)
        by (bit_vector);
}

} // verus!
