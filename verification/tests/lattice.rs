use aerocore::solvers::lbm::d2q9;
use aerocore::solvers::lbm::d3q19;
use aerocore::solvers::lbm::lbm2d::cavity_route;
use aerocore::solvers::lbm::{cell_index, periodic_shift, LbmSolver, Route};

#[test]
fn weights_sum_to_one() {
    let sum: i32 = d2q9::W_NUMERATOR.iter().sum();
    assert_eq!(sum, d2q9::W_DENOMINATOR, "D2Q9 weights sum to {sum}/36 (expected 1)");
}

#[test]
fn opposite_directions_are_negatives() {
    for i in 0..d2q9::Q {
        let j = d2q9::OPPOSITE[i];
        assert_eq!(d2q9::E[j][0], -d2q9::E[i][0], "OPPOSITE x mismatch at i={i}");
        assert_eq!(d2q9::E[j][1], -d2q9::E[i][1], "OPPOSITE y mismatch at i={i}");
    }
}

#[test]
fn velocity_count_is_nine() {
    assert_eq!(d2q9::E.len(), 9);
    assert_eq!(d2q9::W_NUMERATOR.len(), 9);
    assert_eq!(d2q9::OPPOSITE.len(), 9);
}

#[test]
fn isotropy_first_moment() {
    let mut sx = 0i32;
    let mut sy = 0i32;
    for i in 0..d2q9::Q {
        sx += d2q9::W_NUMERATOR[i] * d2q9::E[i][0];
        sy += d2q9::W_NUMERATOR[i] * d2q9::E[i][1];
    }
    assert_eq!(sx, 0, "first moment x = {sx}");
    assert_eq!(sy, 0, "first moment y = {sy}");
}

#[test]
fn isotropy_second_moment() {
    let mut sxx = 0i32;
    let mut syy = 0i32;
    let mut sxy = 0i32;
    for i in 0..d2q9::Q {
        let ex = d2q9::E[i][0];
        let ey = d2q9::E[i][1];
        sxx += d2q9::W_NUMERATOR[i] * ex * ex;
        syy += d2q9::W_NUMERATOR[i] * ey * ey;
        sxy += d2q9::W_NUMERATOR[i] * ex * ey;
    }
    // cs² = 1/3 = 12/36
    assert_eq!(sxx, d2q9::CS2_NUMERATOR, "Σ w eₓ² = {sxx}/36");
    assert_eq!(syy, d2q9::CS2_NUMERATOR, "Σ w eᵧ² = {syy}/36");
    assert_eq!(sxy, 0, "Σ w eₓeᵧ = {sxy}/36");
    assert_eq!(3 * d2q9::CS2_NUMERATOR, d2q9::W_DENOMINATOR);
}

#[test]
fn test_weights_sum_to_one() {
    let sum: i32 = d3q19::W_NUMERATOR.iter().sum();
    assert_eq!(sum, d3q19::W_DENOMINATOR, "Weights sum to {}/36 (should be 1)", sum);
}

#[test]
fn test_opposite_directions() {
    for i in 0..d3q19::Q {
        let j = d3q19::OPPOSITE[i];
        assert_eq!(d3q19::E[j][0], -d3q19::E[i][0], "Opposite x mismatch for direction {}", i);
        assert_eq!(d3q19::E[j][1], -d3q19::E[i][1], "Opposite y mismatch for direction {}", i);
        assert_eq!(d3q19::E[j][2], -d3q19::E[i][2], "Opposite z mismatch for direction {}", i);
    }
}

#[test]
fn test_d3q19_velocity_count() {
    assert_eq!(d3q19::E.len(), 19);
    assert_eq!(d3q19::W_NUMERATOR.len(), 19);
    assert_eq!(d3q19::OPPOSITE.len(), 19);
}

#[test]
fn test_isotropy_first_moment() {
    let mut sum_x = 0i32;
    let mut sum_y = 0i32;
    let mut sum_z = 0i32;
    for i in 0..d3q19::Q {
        sum_x += d3q19::W_NUMERATOR[i] * d3q19::E[i][0];
        sum_y += d3q19::W_NUMERATOR[i] * d3q19::E[i][1];
        sum_z += d3q19::W_NUMERATOR[i] * d3q19::E[i][2];
    }
    assert_eq!(sum_x, 0);
    assert_eq!(sum_y, 0);
    assert_eq!(sum_z, 0);
}

#[test]
fn d3q19_second_moment_is_isotropic() {
    for a in 0..3 {
        for b in 0..3 {
            let mut s = 0i32;
            for i in 0..d3q19::Q {
                s += d3q19::W_NUMERATOR[i] * d3q19::E[i][a] * d3q19::E[i][b];
            }
            assert_eq!(s, if a == b { d3q19::CS2_NUMERATOR } else { 0 });
        }
    }
}

#[test]
fn opposite_is_an_involution() {
    for i in 0..d2q9::Q {
        assert_eq!(d2q9::OPPOSITE[d2q9::OPPOSITE[i]], i);
    }
    for i in 0..d3q19::Q {
        assert_eq!(d3q19::OPPOSITE[d3q19::OPPOSITE[i]], i);
    }
}

#[test]
fn periodic_shift_wraps_both_ends() {
    assert_eq!(periodic_shift(0, -1, 5), 4);
    assert_eq!(periodic_shift(4, 1, 5), 0);
    assert_eq!(periodic_shift(2, 1, 5), 3);
    assert_eq!(periodic_shift(2, 0, 5), 2);
    assert_eq!(periodic_shift(0, 1, 1), 0);
    assert_eq!(cell_index(1, 2, 3, 4, 5, 6), (3 * 5 + 2) * 4 + 1);
}

#[test]
fn cavity_routes() {
    // right-moving population at the right wall bounces back to the left direction
    assert_eq!(cavity_route(3, 1, 1, 4, 4), Route::BounceBack { dir: 3 });
    // downward population at the bottom wall bounces back upward
    assert_eq!(cavity_route(1, 0, 4, 4, 4), Route::BounceBack { dir: 2 });
    // upward population below the lid hits the moving wall
    assert_eq!(cavity_route(1, 3, 2, 4, 4), Route::MovingWall { dir: 4 });
    // diagonal into the lid at the left corner is bounced back plainly
    assert_eq!(cavity_route(0, 3, 5, 4, 4), Route::BounceBack { dir: 7 });
    // interior streaming
    assert_eq!(cavity_route(1, 1, 5, 4, 4), Route::Stream { cell: 2 * 4 + 2 });
    assert_eq!(cavity_route(2, 2, 0, 4, 4), Route::Stream { cell: 2 * 4 + 2 });
}

#[test]
fn cavity_streaming_fills_each_slot_once() {
    let (nx, ny) = (5usize, 4usize);
    let mut seen = vec![false; d2q9::Q * nx * ny];
    for y in 0..ny {
        for x in 0..nx {
            for i in 0..d2q9::Q {
                let idx = y * nx + x;
                let slot = match cavity_route(x, y, i, nx, ny) {
                    Route::Stream { cell } => i * nx * ny + cell,
                    Route::BounceBack { dir } | Route::MovingWall { dir } => dir * nx * ny + idx,
                };
                assert!(!seen[slot], "slot {slot} filled twice");
                seen[slot] = true;
            }
        }
    }
    assert!(seen.iter().all(|&s| s));
}

fn solver_3d(nx: usize, ny: usize, nz: usize) -> LbmSolver<f64> {
    let mut s: LbmSolver<f64> = LbmSolver::new(nx, ny, nz, 0.1);
    s.init();
    s
}

#[test]
fn lbm_new_sets_relaxation() {
    let s: LbmSolver<f64> = LbmSolver::new(4, 4, 4, 0.1);
    assert!((s.omega() - 1.0 / 0.8).abs() < 1e-12);
    assert!(!s.is_initialized());
    assert_eq!(s.timestep(), 0);
    assert_eq!(s.dims(), (4, 4, 4));
}

#[test]
fn lbm_init_rest_state() {
    let s = solver_3d(3, 2, 2);
    let n = 12;
    assert!(s.is_initialized());
    for i in 0..d3q19::Q {
        let w = d3q19::W_NUMERATOR[i] as f64 / 36.0;
        for idx in 0..n {
            assert_eq!(s.population(i, idx), w);
        }
    }
    assert_eq!(s.density(5), 1.0);
    assert_eq!(s.velocity(5), (0.0, 0.0, 0.0));
    assert!(!s.is_solid(5));
}

#[test]
fn lbm_step_refused_before_init() {
    let mut s: LbmSolver<f64> = LbmSolver::new(2, 2, 2, 0.1);
    assert!(s.begin_step().is_err());
    s.init();
    assert!(s.begin_step().is_ok());
    assert_eq!(s.outgoing(3, 1), 0.0);
    s.set_outgoing(3, 1, 2.5);
    assert_eq!(s.finish_step(), 1);
    assert_eq!(s.population(3, 1), 2.5);
    s.finalize();
    assert!(s.begin_step().is_err());
}

#[test]
fn lbm_boundary_mask_length_checked() {
    let mut s = solver_3d(2, 2, 2);
    s.set_boundary_mask(vec![true; 7]);
    assert!(!s.is_solid(0));
    let mut mask = vec![false; 8];
    mask[s.get_index(1, 0, 0)] = true;
    s.set_boundary_mask(mask);
    assert!(s.is_solid(1));
    assert!(!s.is_solid(0));
}

#[test]
fn lbm_routes_periodic_and_walls() {
    let mut s = solver_3d(3, 3, 3);
    // +x from the last column wraps to the first
    assert_eq!(s.route_periodic(2, 1, 1, 1), Route::Stream { cell: s.get_index(0, 1, 1) });
    // -y at y = 0 wraps periodically but bounces at the channel wall
    assert_eq!(s.route_periodic(1, 0, 1, 4), Route::Stream { cell: s.get_index(1, 2, 1) });
    assert_eq!(s.route_channel(1, 0, 1, 4), Route::BounceBack { dir: 3 });
    // the lid reflects +y populations with the moving-wall correction
    assert_eq!(s.route_lid(1, 2, 1, 3), Route::MovingWall { dir: 4 });
    assert_eq!(s.route_lid(1, 0, 1, 4), Route::BounceBack { dir: 3 });
    // a solid neighbour reflects
    let mut mask = vec![false; 27];
    mask[s.get_index(2, 1, 1)] = true;
    s.set_boundary_mask(mask);
    assert_eq!(s.route_periodic(1, 1, 1, 1), Route::BounceBack { dir: 2 });
    assert_eq!(s.route_channel(1, 1, 1, 1), Route::BounceBack { dir: 2 });
}

#[test]
fn lbm_periodic_streaming_fills_fluid_slots_once() {
    let (nx, ny, nz) = (3usize, 2usize, 2usize);
    let mut s = solver_3d(nx, ny, nz);
    let n = nx * ny * nz;
    let mut mask = vec![false; n];
    mask[s.get_index(1, 1, 0)] = true;
    s.set_boundary_mask(mask.clone());
    let mut seen = vec![false; d3q19::Q * n];
    for z in 0..nz {
        for y in 0..ny {
            for x in 0..nx {
                let idx = s.get_index(x, y, z);
                if mask[idx] {
                    continue;
                }
                for i in 0..d3q19::Q {
                    let slot = match s.route_periodic(x, y, z, i) {
                        Route::Stream { cell } => i * n + cell,
                        Route::BounceBack { dir } | Route::MovingWall { dir } => dir * n + idx,
                    };
                    assert!(!seen[slot], "slot {slot} filled twice");
                    seen[slot] = true;
                }
            }
        }
    }
}

fn total_density(s: &LbmSolver<f64>) -> f64 {
    s.densities().iter().sum()
}

fn total_kinetic_energy(s: &LbmSolver<f64>) -> f64 {
    let (rho, ux, uy, uz) = (s.densities(), s.velocities_x(), s.velocities_y(), s.velocities_z());
    (0..rho.len())
        .map(|i| 0.5 * rho[i] * (ux[i] * ux[i] + uy[i] * uy[i] + uz[i] * uz[i]))
        .sum()
}

#[test]
fn lid_driven_cavity_energy_and_mass() {
    const N: usize = 8;
    const U_LID: f64 = 0.05;
    const VISCOSITY: f64 = 0.01;
    const ITERATIONS: u64 = 500;
    const MASS_TOLERANCE: f64 = 0.001;

    let mut solver: LbmSolver<f64> = LbmSolver::new(N, N, N, VISCOSITY);
    solver.init();
    let initial_mass = total_density(&solver);

    let mut kinetic_energy_early = 0.0_f64;
    let mut kinetic_energy_late = 0.0_f64;
    for step in 0..ITERATIONS {
        solver.step_with_lid(U_LID).expect("LBM step failed");
        if step == 50 {
            kinetic_energy_early = total_kinetic_energy(&solver);
        }
        if step == ITERATIONS - 1 {
            kinetic_energy_late = total_kinetic_energy(&solver);
        }
    }

    assert!(
        kinetic_energy_early > 0.0,
        "Expected positive kinetic energy after 50 steps, got {}",
        kinetic_energy_early
    );
    assert!(
        kinetic_energy_late > kinetic_energy_early,
        "Expected kinetic energy to grow from early ({}) to late ({})",
        kinetic_energy_early,
        kinetic_energy_late
    );
    let final_mass = total_density(&solver);
    let mass_error = ((final_mass - initial_mass) / initial_mass).abs();
    assert!(
        mass_error < MASS_TOLERANCE,
        "Mass conservation violated: initial={:.6}, final={:.6}, rel_error={:.6}",
        initial_mass,
        final_mass,
        mass_error
    );
}

#[test]
fn poiseuille_flow_analytical_validation() {
    const NX: usize = 4;
    const NY: usize = 12;
    const NZ: usize = 4;
    const VISCOSITY: f64 = 0.1;
    const ITERATIONS: u64 = 2_000;
    const BODY_FORCE: f64 = 1e-5;

    let mut solver: LbmSolver<f64> = LbmSolver::new(NX, NY, NZ, VISCOSITY);
    solver.init();
    for _ in 0..ITERATIONS {
        solver
            .step_with_body_force(BODY_FORCE, 0.0, 0.0)
            .expect("LBM step failed");
    }

    let ux = solver.velocities_x();
    let ux_profile: Vec<f64> = (0..NY).map(|y| ux[solver.get_index(NX / 2, y, NZ / 2)]).collect();

    let nu = VISCOSITY;
    let f = BODY_FORCE;
    let ny_f = NY as f64;
    let tolerance = 0.10;
    let mut max_rel_err = 0.0_f64;
    for (j, &u_lbm) in ux_profile.iter().enumerate().skip(1).take(NY - 2) {
        let y = j as f64;
        let u_analytical = (f / (2.0 * nu)) * (y + 0.5) * (ny_f - 0.5 - y);
        if u_analytical.abs() > 1e-15 {
            let rel_err = ((u_lbm - u_analytical) / u_analytical).abs();
            if rel_err > max_rel_err {
                max_rel_err = rel_err;
            }
        }
    }
    assert!(
        max_rel_err < tolerance,
        "Poiseuille flow: max relative error {:.4} exceeds tolerance {:.4}.\n\
         LBM profile:        {:?}\n",
        max_rel_err,
        tolerance,
        &ux_profile[1..NY - 1],
    );
}

#[test]
fn lbm_step_at_rest_keeps_rest_state() {
    // The rest state is a fixed point of the periodic step: every population
    // equals its equilibrium, and streaming a uniform field changes nothing.
    let mut s = solver_3d(3, 2, 2);
    assert_eq!(s.step(), Ok(1));
    assert_eq!(s.timestep(), 1);
    for i in 0..d3q19::Q {
        let w = d3q19::W_NUMERATOR[i] as f64 / 36.0;
        for idx in 0..12 {
            assert!((s.population(i, idx) - w).abs() < 1e-15);
        }
    }
    for idx in 0..12 {
        assert!((s.density(idx) - 1.0).abs() < 1e-14);
        let (ux, uy, uz) = s.velocity(idx);
        assert!(ux.abs() < 1e-15 && uy.abs() < 1e-15 && uz.abs() < 1e-15);
    }
}

#[test]
fn lbm_steps_refused_before_init() {
    let mut s: LbmSolver<f64> = LbmSolver::new(2, 2, 2, 0.1);
    assert!(s.step().is_err());
    assert!(s.step_with_lid(0.1).is_err());
    assert!(s.step_with_body_force(1e-3, 0.0, 0.0).is_err());
    assert_eq!(s.timestep(), 0);
    assert!(!s.is_initialized());
}

#[test]
fn lbm_periodic_step_moves_populations_to_neighbours() {
    // Cell (1, 1, 1) holds twice the rest populations (density two, at rest):
    // its populations are already at equilibrium, so the step streams each
    // one unchanged to the periodic neighbour along its direction.
    let (nx, ny, nz) = (3usize, 3usize, 3usize);
    let n = nx * ny * nz;
    let mut s = solver_3d(nx, ny, nz);
    let c0 = s.get_index(1, 1, 1);
    assert!(s.begin_step().is_ok());
    for i in 0..d3q19::Q {
        let w = d3q19::W_NUMERATOR[i] as f64 / 36.0;
        for idx in 0..n {
            s.set_outgoing(i, idx, if idx == c0 { 2.0 * w } else { w });
        }
    }
    assert_eq!(s.finish_step(), 1);
    assert_eq!(s.step(), Ok(2));
    assert!((s.density(c0) - 2.0).abs() < 1e-14);
    for i in 0..d3q19::Q {
        let w = d3q19::W_NUMERATOR[i] as f64 / 36.0;
        let t = cell_index(
            periodic_shift(1, d3q19::E[i][0], nx),
            periodic_shift(1, d3q19::E[i][1], ny),
            periodic_shift(1, d3q19::E[i][2], nz),
            nx,
            ny,
            nz,
        );
        for idx in 0..n {
            let expected = if idx == t { 2.0 * w } else { w };
            assert!((s.population(i, idx) - expected).abs() < 1e-15, "direction {i}, cell {idx}");
        }
    }
}

#[test]
fn lbm_body_force_accelerates_along_force() {
    let mut s = solver_3d(2, 4, 2);
    s.step_with_body_force(1e-3, 0.0, 0.0).unwrap();
    let (ux, uy, uz) = s.velocity(s.get_index(0, 1, 0));
    // the recorded velocity is u + F/(2ρ) with u = 0 and ρ = 1 at rest
    assert!((ux - 5e-4).abs() < 1e-15);
    assert!(uy.abs() < 1e-15 && uz.abs() < 1e-15);
    assert!(s.velocities_x().iter().all(|&u| (u - 5e-4).abs() < 1e-15));
}

#[test]
fn lbm_lid_drags_fluid_below_it() {
    let mut s = solver_3d(3, 3, 3);
    s.step_with_lid(0.1).unwrap();
    s.step_with_lid(0.1).unwrap();
    let (u_top, _, _) = s.velocity(s.get_index(1, 2, 1));
    let (u_bottom, _, _) = s.velocity(s.get_index(1, 0, 1));
    assert!(u_top > 0.0);
    assert!(u_top > u_bottom);
}
