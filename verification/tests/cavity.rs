use aerocore::solvers::lbm::d2q9;
use aerocore::solvers::lbm::lbm2d::LbmSolver2D;

const N: usize = 32;
const U_LID: f64 = 0.05;
const VISCOSITY: f64 = 0.01450;
const STEPS: u64 = 8_000;
const MASS_TOL: f64 = 0.001;

#[test]
fn cavity2d_s1_energy_and_mass() {
    let mut solver = LbmSolver2D::new(N, N, VISCOSITY);
    let initial_mass = solver.total_density();

    let mut ke_early = 0.0_f64;
    let mut ke_late = 0.0_f64;
    for step in 1..=STEPS {
        solver.step(U_LID);
        if step == 200 {
            ke_early = solver.total_kinetic_energy();
        }
        if step == STEPS {
            ke_late = solver.total_kinetic_energy();
        }
    }

    assert!(ke_early > 0.0, "Expected positive KE after 200 steps, got {ke_early}");
    assert!(
        ke_late > ke_early,
        "Expected KE to grow from early ({ke_early:.4e}) to late ({ke_late:.4e})"
    );
    let final_mass = solver.total_density();
    let mass_err = ((final_mass - initial_mass) / initial_mass).abs();
    assert!(
        mass_err < MASS_TOL,
        "Mass conservation violated: initial={initial_mass:.6}, final={final_mass:.6}, rel_err={mass_err:.2e}"
    );
}

#[test]
fn cavity2d_s1_primary_vortex() {
    let mut solver = LbmSolver2D::new(N, N, VISCOSITY);
    for _ in 0..STEPS {
        solver.step(U_LID);
    }

    let u_profile = solver.centerline_u();
    let interior = &u_profile[1..N - 1];
    let u_near_lid = interior[interior.len() - 1];
    let has_positive = interior.iter().any(|&u| u > 0.0);
    let has_negative = interior.iter().any(|&u| u < 0.0);

    assert!(
        u_near_lid > 0.0,
        "Node just below lid should have u > 0 (lid drags fluid); got {u_near_lid:.4e}"
    );
    assert!(
        has_positive,
        "Vertical centreline u-profile has no positive values — vortex not formed?\n{interior:?}"
    );
    assert!(
        has_negative,
        "Vertical centreline u-profile has no negative values — sign change expected for Re≈100\n{interior:?}"
    );
    assert!(
        u_near_lid > 0.1 * U_LID,
        "u just below lid ({u_near_lid:.4e}) is less than 10% of U_lid ({U_LID:.4e})"
    );

    let n_cells = N * N;
    let mass: f64 = solver.rho.iter().sum();
    let expected = n_cells as f64;
    let mass_err = ((mass - expected) / expected).abs();
    assert!(mass_err < MASS_TOL, "Mass drift after vortex check: {mass_err:.2e} > {MASS_TOL}");
}

#[test]
fn cavity_new_is_at_rest() {
    let s: LbmSolver2D<f64> = LbmSolver2D::new(4, 3, 0.1);
    assert_eq!((s.nx, s.ny, s.timestep), (4, 3, 0));
    assert_eq!(s.rho, vec![1.0; 12]);
    assert_eq!(s.ux, vec![0.0; 12]);
    assert_eq!(s.uy, vec![0.0; 12]);
    assert_eq!(s.total_density(), 12.0);
    assert_eq!(s.total_kinetic_energy(), 0.0);
}

#[test]
fn cavity_step_at_rest_without_lid_stays_at_rest() {
    let mut s: LbmSolver2D<f64> = LbmSolver2D::new(5, 5, 0.1);
    s.step(0.0);
    assert_eq!(s.timestep, 1);
    for c in 0..25 {
        assert!((s.rho[c] - 1.0).abs() < 1e-14);
        assert!(s.ux[c].abs() < 1e-15 && s.uy[c].abs() < 1e-15);
    }
    // the recorded moments are those of the rest state; the next step sees
    // the same uniform populations again
    s.step(0.0);
    assert!((s.total_density() - 25.0).abs() < 1e-12);
}

#[test]
fn cavity_lid_pushes_top_row() {
    let mut s: LbmSolver2D<f64> = LbmSolver2D::new(4, 4, 0.1);
    s.step(0.1);
    s.step(0.1);
    let top = s.centerline_u()[3];
    let bottom = s.centerline_u()[0];
    assert!(top > 0.0);
    assert!(top > bottom);
    assert_eq!(s.centerline_v().len(), 4);
}

#[test]
fn cavity_weights_as_doubles() {
    let sum: f64 = d2q9::W_NUMERATOR.iter().map(|&w| w as f64 / 36.0).sum();
    assert!((sum - 1.0).abs() < 1e-15);
}
