use libassist_sys::flags::{
    ASSIST_FORCES_DEFAULT, ASSIST_FORCE_ASTEROIDS, ASSIST_FORCE_EARTH_HARMONICS,
    ASSIST_FORCE_GR_EIH, ASSIST_FORCE_GR_POTENTIAL, ASSIST_FORCE_GR_SIMPLE,
    ASSIST_FORCE_NON_GRAVITATIONAL, ASSIST_FORCE_PLANETS, ASSIST_FORCE_SUN,
    ASSIST_FORCE_SUN_HARMONICS,
};
use libassist_sys::{AssistSim, Error};
use librebound_sys::Simulation;

const FAKE_EXTRAS: usize = 0x1000;

fn sim_with_particles(n: usize) -> Simulation {
    let mut sim = Simulation::new().unwrap();
    for i in 0..n {
        sim.add_test_particle(1.0 + i as f64, 0.5, 0.0, 0.0, 0.017, 0.0);
    }
    sim
}

fn bits(v: &[f64]) -> Vec<u64> {
    v.iter().map(|x| x.to_bits()).collect()
}

#[test]
fn null_extras_is_refused() {
    let err = match AssistSim::new(sim_with_particles(1), 0) {
        Ok(_) => panic!("expected an error for a null assist_extras"),
        Err(e) => e,
    };
    match err {
        Error::Other(msg) => assert_eq!(msg, "assist_attach returned null"),
        other => panic!("unexpected error {:?}", other),
    }
}

#[test]
fn new_sim_keeps_its_particles_and_extras() {
    let asim = AssistSim::new(sim_with_particles(3), FAKE_EXTRAS).unwrap();
    assert_eq!(asim.extras_ptr(), FAKE_EXTRAS);
    assert_eq!(asim.sim().n_particles(), 3);
    assert_eq!(asim.n_particles(), 3);
    assert!(asim.particle_params().is_none());
}

#[test]
fn update_before_install_is_refused() {
    let mut asim = AssistSim::new(sim_with_particles(1), FAKE_EXTRAS).unwrap();
    let err = asim.update_nongrav_coeffs(1.0f64.to_bits(), 2.0f64.to_bits(), 3.0f64.to_bits());
    match err {
        Err(Error::Other(msg)) => assert_eq!(
            msg,
            "update_nongrav_coeffs called before set_particle_params; install a particle_params array first"
        ),
        other => panic!("unexpected result {:?}", other.err()),
    }
    assert!(asim.particle_params().is_none());
}

#[test]
fn install_then_update_rewrites_first_three_slots() {
    let mut asim = AssistSim::new(sim_with_particles(2), FAKE_EXTRAS).unwrap();
    asim.set_particle_params(bits(&[0.0, 0.0, 0.0, 1.0, 0.0, 0.0]));
    asim.update_nongrav_coeffs(1e-8f64.to_bits(), 2e-9f64.to_bits(), 0.0f64.to_bits())
        .unwrap();
    assert_eq!(
        asim.particle_params().unwrap(),
        &bits(&[1e-8, 2e-9, 0.0, 1.0, 0.0, 0.0])
    );
}

#[test]
fn second_update_wins() {
    let mut asim = AssistSim::new(sim_with_particles(2), FAKE_EXTRAS).unwrap();
    asim.set_particle_params(bits(&[0.0, 0.0, 0.0, 5.0, 6.0, 7.0]));
    asim.update_nongrav_coeffs(1.0f64.to_bits(), 1.0f64.to_bits(), 1.0f64.to_bits()).unwrap();
    asim.update_nongrav_coeffs(4.0f64.to_bits(), 3.0f64.to_bits(), 2.0f64.to_bits()).unwrap();
    assert_eq!(
        asim.particle_params().unwrap(),
        &bits(&[4.0, 3.0, 2.0, 5.0, 6.0, 7.0])
    );
}

#[test]
fn reinstall_replaces_previous_array() {
    let mut asim = AssistSim::new(sim_with_particles(1), FAKE_EXTRAS).unwrap();
    asim.set_particle_params(bits(&[1.0, 2.0, 3.0]));
    asim.set_particle_params(bits(&[7.0, 8.0, 9.0]));
    assert_eq!(asim.particle_params().unwrap(), &bits(&[7.0, 8.0, 9.0]));
}

#[test]
fn checked_install_counts_particles() {
    let mut asim = AssistSim::new(sim_with_particles(2), FAKE_EXTRAS).unwrap();
    let wrong = bits(&[1.0, 2.0, 3.0]);
    assert_eq!(asim.set_particle_params_checked(wrong.clone()), Err(wrong));
    assert!(asim.particle_params().is_none());
    let right = bits(&[1.0, 2.0, 3.0, 4.0, 5.0, 6.0]);
    assert_eq!(asim.set_particle_params_checked(right.clone()), Ok(()));
    assert_eq!(asim.particle_params().unwrap(), &right);
}

#[test]
fn checked_install_on_empty_simulation_takes_empty_array() {
    let mut asim = AssistSim::new(sim_with_particles(0), FAKE_EXTRAS).unwrap();
    assert_eq!(asim.set_particle_params_checked(vec![0u64]), Err(vec![0u64]));
    assert_eq!(asim.set_particle_params_checked(Vec::new()), Ok(()));
}

#[test]
fn sim_mut_reaches_the_owned_simulation() {
    let mut asim = AssistSim::new(sim_with_particles(1), FAKE_EXTRAS).unwrap();
    asim.sim_mut().add_test_particle(2.0, 0.0, 0.0, 0.0, 0.01, 0.0);
    assert_eq!(asim.sim().n_particles(), 2);
    assert_eq!(asim.set_particle_params_checked(vec![0u64; 6]), Ok(()));
}

#[test]
fn rebound_error_converts_into_reb_variant() {
    let e = Error::from(librebound_sys::Error::NoParticles);
    assert!(matches!(e, Error::Reb(librebound_sys::Error::NoParticles)));
    let e = Error::from(librebound_sys::Error::IntegrationFailed(7));
    assert!(matches!(e, Error::Reb(librebound_sys::Error::IntegrationFailed(7))));
}

#[test]
fn default_forces_are_the_documented_six() {
    assert_eq!(ASSIST_FORCES_DEFAULT, 0x77);
    for f in [
        ASSIST_FORCE_SUN,
        ASSIST_FORCE_PLANETS,
        ASSIST_FORCE_ASTEROIDS,
        ASSIST_FORCE_EARTH_HARMONICS,
        ASSIST_FORCE_SUN_HARMONICS,
        ASSIST_FORCE_GR_EIH,
    ] {
        assert_ne!(ASSIST_FORCES_DEFAULT & f, 0);
    }
    for f in [
        ASSIST_FORCE_NON_GRAVITATIONAL,
        ASSIST_FORCE_GR_SIMPLE,
        ASSIST_FORCE_GR_POTENTIAL,
    ] {
        assert_eq!(ASSIST_FORCES_DEFAULT & f, 0);
    }
}
