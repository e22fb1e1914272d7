use ising_metropolis::array_rng_interface::ArrayRngInterface;
use ising_metropolis::monte_carlo::ising_state::{
    spin_down, spin_of_unit, spin_up, thermal_lattice, thermal_state, thermalise, SPINDOWN, SPINUP,
};
use ising_metropolis::os_based_rng::OsBasedRng;
use ising_metropolis::monte_carlo::metropolis::{
    accept_state, apply_proposal, decide, get_delta_energy, get_neighbour_sum, get_total_energy,
    perform_metropolis_proposal, perform_metropolis_sweep, Acceptance, AcceptanceTable,
};
use ising_metropolis::monte_carlo::{MonteCarloRngInterface, SpinEnergyFluctuation, UNIT_SCALE};
use ising_metropolis::periodic_array_2d::PeriodicArray2D;
use ising_metropolis::xorshifts::{Xorshift64, XorshiftRandomGenerator, Xoshiro256pp};

const MAX_BETA: f64 = 1E6;

fn threshold(probability: f64) -> u64 {
    if probability.is_nan() {
        0
    } else {
        (probability * UNIT_SCALE as f64).ceil() as u64
    }
}

fn rule(temp: f64, coupling: f64, field: f64, spin: f64, neighbours: f64) -> Acceptance {
    let beta = if temp > 0.0 { 1.0 / temp } else { MAX_BETA };
    let delta_energy = 2.0 * spin * (coupling * neighbours - field);
    if delta_energy < 0.0 {
        Acceptance::Always
    } else {
        Acceptance::Draw(threshold((-beta * delta_energy).exp()))
    }
}

fn table(temp: f64, coupling: f64, field: f64) -> AcceptanceTable {
    let mut entries = [Acceptance::Always; 10];
    for (half, spin) in [-1.0, 1.0].into_iter().enumerate() {
        for (place, neighbours) in [-4.0, -2.0, 0.0, 2.0, 4.0].into_iter().enumerate() {
            entries[5 * half + place] = rule(temp, coupling, field, spin, neighbours);
        }
    }
    AcceptanceTable::new(entries)
}

fn grid_from(rows: i32, columns: i32, cells: &[i8]) -> PeriodicArray2D {
    let mut next = 0;
    PeriodicArray2D::new_with(rows, columns, || {
        next += 1;
        cells[next - 1]
    })
    .unwrap()
}

fn thermal_grid(rows: i32, columns: i32, seed: u64) -> PeriodicArray2D {
    let mut rng = Xoshiro256pp::from_seed(seed);
    PeriodicArray2D::new_with(rows, columns, || thermal_state(&mut rng)).unwrap()
}

#[test]
fn initial_states() {
    assert_eq!(spin_up(), 1);
    assert_eq!(spin_down(), -1);
    assert_eq!(SPINUP, 1);
    assert_eq!(SPINDOWN, -1);
    assert_eq!(spin_of_unit(0), 1);
    assert_eq!(spin_of_unit(UNIT_SCALE / 2 - 1), 1);
    assert_eq!(spin_of_unit(UNIT_SCALE / 2), -1);
    assert_eq!(spin_of_unit(UNIT_SCALE - 1), -1);
    let mut a = Xorshift64::new(42);
    let mut b = Xorshift64::new(42);
    let mut ups = 0;
    for _ in 0..10_000 {
        let unit = a.generate_rand_unit();
        let spin = thermal_state(&mut b);
        assert_eq!(spin, if unit < UNIT_SCALE / 2 { 1 } else { -1 });
        if spin == 1 {
            ups += 1;
        }
    }
    assert!(ups > 4_700 && ups < 5_300, "{ups} of 10000 spins point up");
}

#[test]
fn fluctuations_add_field_by_field() {
    let a = SpinEnergyFluctuation(2, -8);
    let b = SpinEnergyFluctuation(-2, 4);
    let c = a + b;
    assert_eq!((c.0, c.1), (0, -4));
    let mut d = SpinEnergyFluctuation::default();
    assert_eq!((d.0, d.1), (0, 0));
    d.add_assign(a);
    d.add_assign(a);
    assert_eq!((d.0, d.1), (4, -16));
    let z = SpinEnergyFluctuation::zero();
    assert_eq!((z.0, z.1), (0, 0));
}

#[test]
fn total_energy_of_every_two_by_two_grid() {
    for code in 0..16_u32 {
        let cells: Vec<i8> = (0..4).map(|bit| if code >> bit & 1 == 1 { 1 } else { -1 }).collect();
        let grid = grid_from(2, 2, &cells);
        let (a, b, c, d) = (cells[0] as i64, cells[1] as i64, cells[2] as i64, cells[3] as i64);
        let expected = -2 * (a * b + c * d + a * c + b * d);
        assert_eq!(get_total_energy(&grid), expected, "grid {cells:?}");
        for coupling in [-1.0_f64, 0.5, 1.0, 3.0] {
            let energy = coupling * get_total_energy(&grid) as f64;
            assert_eq!(energy, coupling * expected as f64);
        }
    }
    let up = PeriodicArray2D::new_with(2, 2, spin_up).unwrap();
    assert_eq!(get_total_energy(&up), -8);
    let chequered = grid_from(2, 2, &[1, -1, -1, 1]);
    assert_eq!(get_total_energy(&chequered), 8);
    let striped = grid_from(2, 2, &[1, 1, -1, -1]);
    assert_eq!(get_total_energy(&striped), 0);
}

#[test]
fn total_energy_counts_each_bond_once() {
    let up = PeriodicArray2D::new_with(5, 7, spin_up).unwrap();
    assert_eq!(get_total_energy(&up), -70);
    let down = PeriodicArray2D::new_with(5, 7, spin_down).unwrap();
    assert_eq!(get_total_energy(&down), -70);
    let mut one = PeriodicArray2D::new_with(5, 7, spin_up).unwrap();
    one.flip(2, 3);
    assert_eq!(get_total_energy(&one), -70 + 8);
    let chequered = grid_from(4, 4, &[1, -1, 1, -1, -1, 1, -1, 1, 1, -1, 1, -1, -1, 1, -1, 1]);
    assert_eq!(get_total_energy(&chequered), 32);
    let single = PeriodicArray2D::new_with(1, 1, spin_up).unwrap();
    assert_eq!(get_total_energy(&single), -2);
}

#[test]
fn delta_energy_follows_the_neighbours() {
    let up = PeriodicArray2D::new_with(4, 4, spin_up).unwrap();
    let d = get_delta_energy(&up, 0, 0);
    assert_eq!((d.0, d.1), (-2, 8));
    let d = get_delta_energy(&up, -1, 17);
    assert_eq!((d.0, d.1), (-2, 8));
    let mut grid = PeriodicArray2D::new_with(4, 4, spin_up).unwrap();
    grid.flip(1, 1);
    let d = get_delta_energy(&grid, 1, 1);
    assert_eq!((d.0, d.1), (2, -8));
    let d = get_delta_energy(&grid, 1, 2);
    assert_eq!((d.0, d.1), (-2, 4));
    let d = get_delta_energy(&grid, 0, 1);
    assert_eq!((d.0, d.1), (-2, 4));
    let d = get_delta_energy(&grid, 3, 3);
    assert_eq!((d.0, d.1), (-2, 8));
    grid.flip(1, 2);
    let d = get_delta_energy(&grid, 1, 1);
    assert_eq!((d.0, d.1), (2, -4));
    grid.flip(0, 1);
    let d = get_delta_energy(&grid, 1, 1);
    assert_eq!((d.0, d.1), (2, 0));
    for coupling in [-1.0_f64, 1.0, 2.5] {
        for field in [0.0_f64, 0.3, -1.0] {
            let d = get_delta_energy(&grid, 2, 2);
            let spin = grid.at_unchecked(2, 2) as f64;
            let neighbours = (grid.at_unchecked(1, 2)
                + grid.at_unchecked(3, 2)
                + grid.at_unchecked(2, 3)
                + grid.at_unchecked(2, 1)) as f64;
            let expected = 2.0 * spin * (coupling * neighbours - field);
            assert_eq!(coupling * d.1 as f64 + field * d.0 as f64, expected);
        }
    }
}

#[test]
fn decisions_compare_the_draw_with_the_threshold() {
    assert!(decide(Acceptance::Always, 0));
    assert!(decide(Acceptance::Always, UNIT_SCALE - 1));
    assert!(decide(Acceptance::Draw(5), 4));
    assert!(!decide(Acceptance::Draw(5), 5));
    assert!(!decide(Acceptance::Draw(0), 0));
    assert!(decide(Acceptance::Draw(UNIT_SCALE), UNIT_SCALE - 1));
    let mut rng = Xorshift64::new(42);
    let mut twin = Xorshift64::new(42);
    assert!(accept_state(Acceptance::Always, &mut rng));
    assert_eq!(rng.generate(), twin.generate());
    for _ in 0..100 {
        assert!(!accept_state(Acceptance::Draw(0), &mut rng));
        assert!(accept_state(Acceptance::Draw(UNIT_SCALE), &mut rng));
    }
    let mut rng = Xorshift64::new(42);
    let mut twin = Xorshift64::new(42);
    for _ in 0..100 {
        let draw = twin.generate_rand_unit();
        assert_eq!(accept_state(Acceptance::Draw(UNIT_SCALE / 3), &mut rng), draw < UNIT_SCALE / 3);
    }
}

#[test]
fn thresholds_decide_as_the_probabilities_do() {
    let mut rng = Xoshiro256pp::from_seed(8);
    for temp in [0.5_f64, 1.0, 2.0, 2.269, 5.0] {
        for delta_energy in [0.0_f64, 4.0, 8.0, 0.7] {
            let probability = (-delta_energy / temp).exp();
            let rule = Acceptance::Draw(threshold(probability));
            for _ in 0..1000 {
                let draw = rng.generate_rand_unit();
                let number = draw as f64 / UNIT_SCALE as f64;
                assert_eq!(decide(rule, draw), number < probability);
            }
        }
    }
    assert_eq!(threshold(1.0), UNIT_SCALE);
    assert_eq!(threshold(0.0), 0);
    assert_eq!(threshold(0.5), UNIT_SCALE / 2);
    assert_eq!(threshold(f64::NAN), 0);
}

#[test]
fn tables_are_indexed_by_spin_and_neighbours() {
    let mut entries = [Acceptance::Always; 10];
    for (k, entry) in entries.iter_mut().enumerate() {
        *entry = Acceptance::Draw(k as u64);
    }
    let table = AcceptanceTable::new(entries);
    let mut expected = 0;
    for spin in [-1_i8, 1] {
        for neighbours in [-4, -2, 0, 2, 4] {
            match table.entry(spin, neighbours) {
                Acceptance::Draw(t) => assert_eq!(t, expected),
                Acceptance::Always => panic!("an entry was lost"),
            }
            expected += 1;
        }
    }
    let same = AcceptanceTable::uniform(Acceptance::Draw(9));
    for spin in [-1_i8, 1] {
        for neighbours in [-4, -2, 0, 2, 4] {
            assert!(matches!(same.entry(spin, neighbours), Acceptance::Draw(9)));
        }
    }
}

#[test]
fn ferromagnetic_table_at_two_kelvin() {
    let table = table(2.0, 1.0, 0.0);
    // an up spin among four up spins: flipping it costs 8
    match table.entry(1, 4) {
        Acceptance::Draw(t) => assert_eq!(t, threshold((-4.0_f64).exp())),
        Acceptance::Always => panic!("an uphill flip is accepted for certain"),
    }
    match table.entry(1, 2) {
        Acceptance::Draw(t) => assert_eq!(t, threshold((-2.0_f64).exp())),
        Acceptance::Always => panic!("an uphill flip is accepted for certain"),
    }
    assert!(matches!(table.entry(-1, 0), Acceptance::Draw(UNIT_SCALE)));
    assert!(matches!(table.entry(1, 0), Acceptance::Draw(UNIT_SCALE)));
    assert!(matches!(table.entry(1, -4), Acceptance::Always));
    assert!(matches!(table.entry(1, -2), Acceptance::Always));
    assert!(matches!(table.entry(-1, 4), Acceptance::Always));
    assert!(matches!(table.entry(-1, 2), Acceptance::Always));
    assert!(matches!(table.entry(-1, -4), Acceptance::Draw(_)));
}

#[test]
fn a_decided_proposal_is_carried_out() {
    let mut grid = PeriodicArray2D::new_with(4, 4, spin_up).unwrap();
    let d = apply_proposal(&mut grid, 1, 2, false);
    assert_eq!((d.0, d.1), (0, 0));
    assert_eq!(grid.sum(), 16);
    let d = apply_proposal(&mut grid, 1, 2, true);
    assert_eq!((d.0, d.1), (-2, 8));
    assert_eq!(grid.at_unchecked(1, 2), -1);
    assert_eq!(grid.sum(), 14);
    assert_eq!(get_total_energy(&grid), -32 + 8);
    let d = apply_proposal(&mut grid, 1, 2, true);
    assert_eq!((d.0, d.1), (2, -8));
    assert_eq!(grid.sum(), 16);
    assert_eq!(get_total_energy(&grid), -32);
}

#[test]
fn a_proposal_flips_at_most_one_spin() {
    let table = table(2.0, 1.0, 0.0);
    let mut grid = thermal_grid(6, 5, 3);
    let mut rng = Xoshiro256pp::from_seed(4);
    for _ in 0..2000 {
        let before: Vec<i8> =
            (0..30).map(|x| grid.at_unchecked(x / 5, x % 5)).collect();
        let d = perform_metropolis_proposal(&mut grid, &mut rng, &table);
        let after: Vec<i8> = (0..30).map(|x| grid.at_unchecked(x / 5, x % 5)).collect();
        let changed: Vec<usize> = (0..30).filter(|k| before[*k] != after[*k]).collect();
        if d.0 == 0 {
            assert!(changed.is_empty());
            assert_eq!(d.1, 0);
        } else {
            assert_eq!(changed.len(), 1);
            let k = changed[0];
            assert_eq!(after[k], -before[k]);
            assert_eq!(d.0, 2 * after[k] as i64);
        }
    }
}

#[test]
fn running_totals_agree_with_recomputed_ones() {
    for (rows, columns) in [(2, 2), (2, 3), (3, 2), (8, 8), (5, 9), (16, 4)] {
        for temp in [0.1_f64, 1.0, 2.269, 10.0] {
            let table = table(temp, 1.0, 0.0);
            let mut grid = thermal_grid(rows, columns, 17);
            let mut rng = Xoshiro256pp::from_seed(23);
            let mut spin_sum = grid.sum();
            let mut energy = get_total_energy(&grid);
            for _ in 0..200 {
                let d = perform_metropolis_sweep(&mut grid, &mut rng, &table);
                spin_sum += d.0;
                energy += d.1;
                assert_eq!(spin_sum, grid.sum());
                assert_eq!(energy, get_total_energy(&grid));
                assert!(grid.is_ising_state());
            }
        }
    }
}

#[test]
fn running_spin_total_agrees_on_a_single_row() {
    let table = table(2.0, 1.0, 0.0);
    for (rows, columns) in [(1, 1), (1, 6), (6, 1)] {
        let mut grid = thermal_grid(rows, columns, 5);
        let mut rng = Xoshiro256pp::from_seed(6);
        let mut spin_sum = grid.sum();
        for _ in 0..100 {
            let d = perform_metropolis_sweep(&mut grid, &mut rng, &table);
            spin_sum += d.0;
            assert_eq!(spin_sum, grid.sum());
        }
    }
}

#[test]
fn a_cell_that_is_its_own_neighbour_reports_another_energy() {
    let mut grid = PeriodicArray2D::new_with(1, 1, spin_up).unwrap();
    let before = get_total_energy(&grid);
    let d = apply_proposal(&mut grid, 0, 0, true);
    assert_eq!((d.0, d.1), (-2, 8));
    assert_eq!(get_total_energy(&grid), before);
}

#[test]
fn sweeps_with_one_seed_repeat() {
    let table = table(2.269, 1.0, 0.0);
    let mut a = thermal_grid(8, 8, 1);
    let mut b = thermal_grid(8, 8, 1);
    let mut rng_a = Xoshiro256pp::from_seed(2);
    let mut rng_b = Xoshiro256pp::from_seed(2);
    for _ in 0..50 {
        let da = perform_metropolis_sweep(&mut a, &mut rng_a, &table);
        let db = perform_metropolis_sweep(&mut b, &mut rng_b, &table);
        assert_eq!((da.0, da.1), (db.0, db.1));
    }
    for x in 0..64 {
        assert_eq!(a.at_unchecked(x / 8, x % 8), b.at_unchecked(x / 8, x % 8));
    }
    assert_eq!(rng_a.generate(), rng_b.generate());
}

#[test]
fn at_infinite_temperature_every_proposal_is_accepted() {
    let hot = table(f64::INFINITY, 1.0, 0.0);
    for spin in [-1_i8, 1] {
        for neighbours in [-4, -2, 0, 2, 4] {
            match hot.entry(spin, neighbours) {
                Acceptance::Draw(t) => assert_eq!(t, UNIT_SCALE),
                Acceptance::Always => assert!(spin as i32 * neighbours < 0),
            }
        }
    }
    assert!(hot.is_certain_everywhere());
    assert!(!hot.never_climbs());
    assert!(!table(1.0e6, 1.0, 0.0).is_certain_everywhere());
    let mut grid = PeriodicArray2D::new_with(10, 10, spin_up).unwrap();
    let mut rng = Xoshiro256pp::from_seed(31);
    for _ in 0..1000 {
        let d = perform_metropolis_proposal(&mut grid, &mut rng, &hot);
        assert!(d.0 == 2 || d.0 == -2);
    }
    let steps = 2000;
    let mut spin_sum = grid.sum();
    let mut total = 0_i64;
    for _ in 0..steps {
        total += spin_sum;
        spin_sum += perform_metropolis_sweep(&mut grid, &mut rng, &hot).0;
    }
    let mean = total as f64 / steps as f64 / 100.0;
    assert!(mean.abs() < 0.05, "mean magnetization {mean}");
}

#[test]
fn near_zero_temperature_no_uphill_flip_is_made() {
    let cold = table(0.0, 1.0, 0.0);
    for spin in [-1_i8, 1] {
        for neighbours in [-4, -2, 0, 2, 4] {
            let uphill = spin as i32 * neighbours > 0;
            match cold.entry(spin, neighbours) {
                Acceptance::Draw(t) => {
                    assert!(spin as i32 * neighbours >= 0);
                    assert_eq!(t, if uphill { 0 } else { UNIT_SCALE });
                }
                Acceptance::Always => assert!(spin as i32 * neighbours < 0),
            }
        }
    }
    assert!(cold.never_climbs());
    assert!(!cold.is_certain_everywhere());
    assert!(table(-3.0, 1.0, 0.0).never_climbs());
    assert!(table(1.0e-6, 1.0, 0.0).never_climbs());
    assert!(!table(2.0, 1.0, 0.0).never_climbs());
    assert!(!table(0.0, -1.0, 0.0).never_climbs());
    assert!(AcceptanceTable::uniform(Acceptance::Draw(0)).never_climbs());
    assert!(!AcceptanceTable::uniform(Acceptance::Draw(1)).never_climbs());
    assert!(!AcceptanceTable::uniform(Acceptance::Always).never_climbs());
    assert!(AcceptanceTable::uniform(Acceptance::Always).is_certain_everywhere());
    assert!(AcceptanceTable::uniform(Acceptance::Draw(UNIT_SCALE)).is_certain_everywhere());
    assert!(!AcceptanceTable::uniform(Acceptance::Draw(UNIT_SCALE - 1)).is_certain_everywhere());
    let mut grid = thermal_grid(8, 8, 40);
    let mut rng = Xoshiro256pp::from_seed(41);
    let mut energy = get_total_energy(&grid);
    for _ in 0..6400 {
        let d = perform_metropolis_proposal(&mut grid, &mut rng, &cold);
        assert!(d.1 <= 0);
        energy += d.1;
    }
    assert_eq!(energy, get_total_energy(&grid));
}

#[test]
fn near_zero_temperature_defects_heal() {
    let cold = table(-1.0, 1.0, 0.0);
    for fill in [spin_up, spin_down] {
        let mut grid = PeriodicArray2D::new_with(8, 8, fill).unwrap();
        let ground = grid.sum();
        grid.flip(1, 1);
        grid.flip(4, 6);
        grid.flip(4, 7);
        grid.flip(7, 0);
        let mut rng = Xoshiro256pp::from_seed(50);
        for _ in 0..200 {
            perform_metropolis_sweep(&mut grid, &mut rng, &cold);
        }
        assert_eq!(grid.sum(), ground);
        assert_eq!(get_total_energy(&grid), -128);
    }
}

#[test]
fn thermal_grids_are_drawn_row_by_row() {
    let mut rng = Xoshiro256pp::from_seed(3);
    let mut twin = Xoshiro256pp::from_seed(3);
    let grid = thermal_lattice(7, 9, &mut rng).unwrap();
    assert_eq!(grid.shape(), (7, 9));
    assert!(grid.is_ising_state());
    for i in 0..7 {
        for j in 0..9 {
            assert_eq!(grid.at_unchecked(i, j), thermal_state(&mut twin));
        }
    }
    assert_eq!(rng.generate(), twin.generate());
    let same = thermal_grid(7, 9, 3);
    for x in 0..63 {
        assert_eq!(grid.at_unchecked(x / 9, x % 9), same.at_unchecked(x / 9, x % 9));
    }
    assert!(grid.sum().abs() < 40);

    let mut grid = PeriodicArray2D::new_with(4, 4, || 5).unwrap();
    thermalise(&mut grid, &mut rng);
    assert!(grid.is_ising_state());
    assert_eq!(grid.shape(), (4, 4));
}

#[test]
fn thermal_grids_of_invalid_extent_are_refused() {
    let mut rng = Xoshiro256pp::from_seed(3);
    let mut twin = Xoshiro256pp::from_seed(3);
    for (rows, columns) in [(0, 3), (3, 0), (-1, -1), (65536, 32768)] {
        let err = match thermal_lattice(rows, columns, &mut rng) {
            Ok(_) => panic!("{rows} x {columns} was accepted"),
            Err(e) => e,
        };
        assert_eq!(err.message(), "Rows & columns need to be > 0.");
    }
    assert_eq!(rng.generate(), twin.generate());
}

#[test]
fn the_thread_generator_draws_in_range() {
    let mut rng = OsBasedRng::new();
    let mut seen = [false; 6];
    for _ in 0..2000 {
        let num = rng.generate_rand_i32(-2, 4);
        assert!(num >= -2 && num < 4);
        seen[(num + 2) as usize] = true;
        assert!(rng.generate_rand_unit() < UNIT_SCALE);
        assert_eq!(rng.generate_rand_i32(7, 8), 7);
    }
    assert!(seen.iter().all(|s| *s));
    let units: Vec<u64> = (0..8).map(|_| rng.generate_rand_unit()).collect();
    assert!(units.iter().any(|u| *u != units[0]));
    assert!(units.iter().any(|u| *u >= 1 << 40));
}

#[test]
fn sweeps_run_on_the_thread_generator() {
    let table = table(2.0, 1.0, 0.0);
    let mut rng = OsBasedRng::new();
    let mut grid = thermal_lattice(8, 8, &mut rng).unwrap();
    let mut spin_sum = grid.sum();
    let mut energy = get_total_energy(&grid);
    for _ in 0..100 {
        let d = perform_metropolis_sweep(&mut grid, &mut rng, &table);
        spin_sum += d.0;
        energy += d.1;
    }
    assert_eq!(spin_sum, grid.sum());
    assert_eq!(energy, get_total_energy(&grid));
}

#[test]
fn neighbours_are_found_from_any_coordinates() {
    let cells: Vec<i8> = (0..12).map(|k| if k % 5 == 0 { -1 } else { 1 }).collect();
    let grid = grid_from(3, 4, &cells);
    for i in 0..3 {
        for j in 0..4 {
            let expected = (grid.at_unchecked(i - 1, j)
                + grid.at_unchecked(i + 1, j)
                + grid.at_unchecked(i, j - 1)
                + grid.at_unchecked(i, j + 1)) as i32;
            assert_eq!(get_neighbour_sum(&grid, i, j), expected);
            assert_eq!(get_neighbour_sum(&grid, i - 300, j + 4000), expected);
            let d = get_delta_energy(&grid, i + 3, j - 8);
            let spin = grid.at_unchecked(i, j) as i64;
            assert_eq!((d.0, d.1), (-2 * spin, 2 * spin * expected as i64));
        }
    }
    // the last row and column are reached from the ends of the coordinate range
    assert_eq!(get_neighbour_sum(&grid, i32::MAX, i32::MIN), get_neighbour_sum(&grid, 1, 0));
    assert_eq!(get_neighbour_sum(&grid, i32::MIN, i32::MAX), get_neighbour_sum(&grid, 1, 3));
    let d = get_delta_energy(&grid, i32::MAX, i32::MAX);
    let e = get_delta_energy(&grid, 1, 3);
    assert_eq!((d.0, d.1), (e.0, e.1));
    let mut grid = PeriodicArray2D::new_with(3, 4, spin_up).unwrap();
    let d = apply_proposal(&mut grid, i32::MIN, i32::MAX, true);
    assert_eq!((d.0, d.1), (-2, 8));
    assert_eq!(grid.at_unchecked(1, 3), -1);
    assert_eq!(grid.sum(), 10);
}
