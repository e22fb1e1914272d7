use ising_metropolis::classical_sim::{
    measure_magnetization, perform_magnetization_computation, CalculationError, ExperimentParam,
};
use ising_metropolis::ising_calculation::{any_negative_temperature, TemperaturePoint};
use ising_metropolis::monte_carlo::ising_state::spin_up;
use ising_metropolis::monte_carlo::metropolis::{
    perform_metropolis_proposal, Acceptance, AcceptanceTable,
};
use ising_metropolis::monte_carlo::UNIT_SCALE;
use ising_metropolis::periodic_array_2d::PeriodicArray2D;
use ising_metropolis::xorshifts::Xoshiro256pp;

const MAX_BETA: f64 = 1E6;

fn threshold(probability: f64) -> u64 {
    if probability.is_nan() {
        0
    } else {
        (probability * UNIT_SCALE as f64).ceil() as u64
    }
}

fn table(temp: f64, coupling: f64) -> AcceptanceTable {
    let beta = if temp > 0.0 { 1.0 / temp } else { MAX_BETA };
    let mut entries = [Acceptance::Always; 10];
    for (half, spin) in [-1.0, 1.0].into_iter().enumerate() {
        for (place, neighbours) in [-4.0, -2.0, 0.0, 2.0, 4.0].into_iter().enumerate() {
            let delta_energy: f64 = 2.0 * spin * coupling * neighbours;
            entries[5 * half + place] = if delta_energy < 0.0 {
                Acceptance::Always
            } else {
                Acceptance::Draw(threshold((-beta * delta_energy).exp()))
            };
        }
    }
    AcceptanceTable::new(entries)
}

fn point(temp: f64) -> TemperaturePoint {
    TemperaturePoint { temperature: temp.to_bits(), acceptance: table(temp, 1.0) }
}

#[test]
fn magnetization_falls_with_the_temperature() {
    let cells = 100;
    let param = ExperimentParam {
        temperatures: vec![point(2.0), point(3.0), point(6.0)],
        steps_between_measures: cells,
        thermalisation_steps: cells * 2000,
        measurement_steps: cells * 2000,
    };
    let results = perform_magnetization_computation(10, 10, &param).unwrap();
    assert_eq!(results.len(), 3);
    let magnetization: Vec<f64> = results
        .iter()
        .map(|r| r.spins_abs_sum as f64 / r.number_of_measures as f64 / cells as f64)
        .collect();
    for r in &results {
        assert_eq!(r.number_of_measures, 2000);
    }
    for m in &magnetization {
        assert!(0.0 < *m && *m <= 1.0, "magnetization {m}");
    }
    assert!(magnetization[0] > 0.6, "magnetization at T = 2: {}", magnetization[0]);
    assert!(magnetization[2] < 0.4, "magnetization at T = 6: {}", magnetization[2]);
    assert!(magnetization[0] > magnetization[2]);
}

#[test]
fn measurements_follow_every_nth_proposal() {
    let table = table(2.269, 1.0);
    let mut grid = PeriodicArray2D::new_with(5, 5, spin_up).unwrap();
    let mut rng = Xoshiro256pp::from_seed(14);
    let sum = measure_magnetization(&mut grid, &mut rng, &table, 40, 103, 7);

    let mut twin = PeriodicArray2D::new_with(5, 5, spin_up).unwrap();
    let mut twin_rng = Xoshiro256pp::from_seed(14);
    for _ in 0..40 {
        perform_metropolis_proposal(&mut twin, &mut twin_rng, &table);
    }
    let mut expected = 0_u128;
    let mut measures = 0;
    for n in 0..103 {
        perform_metropolis_proposal(&mut twin, &mut twin_rng, &table);
        if n % 7 == 0 {
            expected += twin.sum().unsigned_abs() as u128;
            measures += 1;
        }
    }
    assert_eq!(measures, 15);
    assert_eq!(sum, expected);
    for x in 0..25 {
        assert_eq!(grid.at_unchecked(x / 5, x % 5), twin.at_unchecked(x / 5, x % 5));
    }
}

#[test]
fn a_frozen_grid_measures_its_size_every_time() {
    let frozen = AcceptanceTable::uniform(Acceptance::Draw(0));
    let mut grid = PeriodicArray2D::new_with(3, 4, spin_up).unwrap();
    let mut rng = Xoshiro256pp::from_seed(1);
    assert_eq!(measure_magnetization(&mut grid, &mut rng, &frozen, 5, 10, 3), 12 * 4);
    assert_eq!(measure_magnetization(&mut grid, &mut rng, &frozen, 5, 10, 1), 12 * 10);
    assert_eq!(measure_magnetization(&mut grid, &mut rng, &frozen, 5, 10, 10), 12);
    assert_eq!(measure_magnetization(&mut grid, &mut rng, &frozen, 5, 10, 11), 12);
    assert_eq!(measure_magnetization(&mut grid, &mut rng, &frozen, 5, 0, 2), 0);
}

#[test]
fn the_divisor_is_rounded_down() {
    let param = ExperimentParam {
        temperatures: vec![point(2.0)],
        steps_between_measures: 3,
        thermalisation_steps: 10,
        measurement_steps: 10,
    };
    let results = perform_magnetization_computation(4, 4, &param).unwrap();
    assert_eq!(results[0].number_of_measures, 3);
    assert!(results[0].spins_abs_sum <= 16 * 4);
}

#[test]
fn a_negative_temperature_is_refused() {
    let param = ExperimentParam {
        temperatures: vec![point(1.0), point(-2.0)],
        steps_between_measures: 1,
        thermalisation_steps: 10,
        measurement_steps: 10,
    };
    assert!(any_negative_temperature(&param.temperatures));
    let res = perform_magnetization_computation(4, 4, &param);
    assert!(matches!(res, Err(CalculationError::NegativeTempError)));
    let res = perform_magnetization_computation(0, 4, &param);
    assert!(matches!(res, Err(CalculationError::NegativeTempError)));
}

#[test]
fn an_invalid_extent_is_refused() {
    let param = ExperimentParam {
        temperatures: vec![point(1.0)],
        steps_between_measures: 1,
        thermalisation_steps: 10,
        measurement_steps: 10,
    };
    assert!(!any_negative_temperature(&param.temperatures));
    for (rows, columns) in [(0, 4), (4, -1), (-3, -3), (46341, 46341)] {
        match perform_magnetization_computation(rows, columns, &param) {
            Err(CalculationError::ArrayInitError(e)) => {
                assert_eq!(
                    e.to_string(),
                    "from: PeriodicArray2D::new(), msg: Rows & columns need to be > 0."
                );
            }
            _ => panic!("{rows} x {columns} was not refused"),
        }
    }
}
