use secs::matrix::TransferMatrix;
use secs::scalar::Scalar;
use secs::solver::{retained_indices, solve_plan, zero_amplitudes, SolvePlan};

fn s(x: f64) -> Scalar {
    Scalar { bits: x.to_bits() }
}

#[test]
fn retained_indices_keep_values_at_or_above_the_threshold() {
    let spectrum = vec![s(1.0), s(0.5), s(0.25), s(0.1)];
    assert_eq!(retained_indices(&spectrum, s(0.3)), vec![0, 1]);
    assert_eq!(retained_indices(&spectrum, s(0.25)), vec![0, 1, 2]);
    assert_eq!(retained_indices(&spectrum, s(0.0)), vec![0, 1, 2, 3]);
    assert_eq!(retained_indices(&spectrum, s(2.0)), Vec::<usize>::new());
    // order of unsorted spectra is preserved
    let unsorted = vec![s(0.1), s(1.0), s(0.2), s(0.9)];
    assert_eq!(retained_indices(&unsorted, s(0.15)), vec![1, 2, 3]);
}

#[test]
fn retained_indices_never_keep_nan() {
    let spectrum = vec![s(1.0), s(f64::NAN), s(0.5)];
    assert_eq!(retained_indices(&spectrum, s(0.1)), vec![0, 2]);
    // a NaN threshold keeps nothing
    assert_eq!(
        retained_indices(&spectrum, s(f64::NAN)),
        Vec::<usize>::new()
    );
}

#[test]
fn raising_the_threshold_keeps_no_more_modes() {
    let spectrum = vec![s(1.0), s(0.51), s(0.23), s(0.0044), s(0.0001)];
    let mut previous = retained_indices(&spectrum, s(0.0)).len();
    for &eps in [0.0001, 0.005, 0.05, 0.1, 0.3, 0.6, 1.1].iter() {
        // threshold = epsilon * largest singular value
        let current = retained_indices(&spectrum, s(eps * 1.0)).len();
        assert!(current <= previous, "threshold {} kept more modes", eps);
        previous = current;
    }
}

#[test]
fn solver_shape_decides_the_plan() {
    assert_eq!(solve_plan(0, 5), SolvePlan::Trivial);
    assert_eq!(solve_plan(5, 0), SolvePlan::Trivial);
    assert_eq!(solve_plan(0, 0), SolvePlan::Trivial);
    assert_eq!(solve_plan(6, 1), SolvePlan::Decompose);
}

#[test]
fn zero_amplitudes_are_positive_zeros() {
    let z = zero_amplitudes(4);
    assert_eq!(z.len(), 4);
    for a in z.iter() {
        assert_eq!(a.bits, 0u64);
        assert_eq!(f64::from_bits(a.bits), 0.0);
    }
    assert_eq!(zero_amplitudes(0).len(), 0);
}

#[test]
fn transfer_matrix_layout_and_flat_view_agree() {
    // two locations, two poles: twelve entries, carried as raw bit payloads
    let data: Vec<Scalar> = (0u64..12).map(|b| Scalar { bits: b }).collect();
    let t = TransferMatrix::new(2, 2, data);
    assert_eq!(t.n_locs(), 2);
    assert_eq!(t.n_sec(), 2);
    // entry (p, c, s) sits at (p*3 + c)*n_sec + s
    assert_eq!(t.at(0, 0, 0).bits, 0);
    assert_eq!(t.at(0, 0, 1).bits, 1);
    assert_eq!(t.at(0, 1, 0).bits, 2);
    assert_eq!(t.at(0, 2, 1).bits, 5);
    assert_eq!(t.at(1, 0, 0).bits, 6);
    assert_eq!(t.at(1, 2, 1).bits, 11);
    // the flat 2-D view reads the same buffer: row r is (r / 3, r % 3)
    for row in 0..6 {
        for col in 0..2 {
            assert_eq!(t.flat_at(row, col), t.at(row / 3, row % 3, col));
        }
    }
    // one component row across the poles
    let row = t.component_row(1, 1);
    assert_eq!(row.len(), 2);
    assert_eq!(row[0].bits, 8);
    assert_eq!(row[1].bits, 9);
}
