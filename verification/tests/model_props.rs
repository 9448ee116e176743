use secs::geo::GeographicalPoint;
use secs::matrix::TransferMatrix;
use secs::model::{
    assemble_predictions, flatten_observations, observation_locations, ObservationVector,
    PredictionVector, SECS,
};
use secs::scalar::Scalar;
use secs::{SecsError, R_EARTH};

fn s(x: f64) -> Scalar {
    Scalar { bits: x.to_bits() }
}

fn p(lat: f64, lon: f64, alt: f64) -> GeographicalPoint {
    GeographicalPoint {
        latitude: s(lat),
        longitude: s(lon),
        altitude: s(alt),
    }
}

fn obs(lat: f64, lon: f64, i: f64, j: f64, k: f64, alt: f64) -> ObservationVector {
    ObservationVector {
        lon: s(lon),
        lat: s(lat),
        i: s(i),
        j: s(j),
        k: s(k),
        alt: s(alt),
    }
}

/// A transfer matrix of the right shape whose entries are small integers.
fn kernel(n_locs: usize, n_sec: usize) -> TransferMatrix {
    let data: Vec<Scalar> = (0..(n_locs * 3 * n_sec))
        .map(|n| s(n as f64))
        .collect();
    TransferMatrix::new(n_locs, n_sec, data)
}

#[test]
fn check_r_earth_constant_for_tests() {
    assert_eq!(
        R_EARTH as f64, 6371_000.0,
        "R_EARTH constant mismatch with Python script assumptions."
    );
}

#[test]
fn observation_locations_carry_the_fit_altitude() {
    let observations = vec![
        obs(69.0, 19.0, -100.0, -100.0, 0.0, 0.0),
        obs(40.0, 50.0, 1.0, 3.0, 5.0, 0.0),
    ];
    let locs = observation_locations(&observations, s(0.0));
    assert_eq!(locs.len(), 2);
    assert_eq!(locs[0], p(69.0, 19.0, 0.0));
    assert_eq!(locs[1], p(40.0, 50.0, 0.0));
}

#[test]
fn flatten_observations_interleaves_components_in_row_order() {
    let observations = vec![
        obs(40.0, 50.0, 1.0, 3.0, 5.0, 0.0),
        obs(50.0, 60.0, 2.0, 4.0, 6.0, 0.0),
    ];
    let b = flatten_observations(&observations);
    let expected = [1.0, 3.0, 5.0, 2.0, 4.0, 6.0];
    assert_eq!(b.len(), 6);
    for (n, &x) in expected.iter().enumerate() {
        assert_eq!(b[n], s(x));
    }
}

#[test]
fn assemble_predictions_preserves_input_order() {
    let locs = vec![p(40.0, 50.0, 110e3), p(50.0, 60.0, 110e3)];
    let fields = vec![(s(1.5), s(-2.5), s(3.5)), (s(0.0), s(-0.0), s(9.0))];
    let out = assemble_predictions(&locs, &fields);
    assert_eq!(out.len(), 2);
    assert_eq!(
        out[0],
        PredictionVector {
            lon: s(50.0),
            lat: s(40.0),
            i: s(1.5),
            j: s(-2.5),
            k: s(3.5),
        }
    );
    assert_eq!(
        out[1],
        PredictionVector {
            lon: s(60.0),
            lat: s(50.0),
            i: s(0.0),
            j: s(-0.0),
            k: s(9.0),
        }
    );
}

#[test]
fn a_fresh_model_is_unfitted() {
    let model = SECS::new(vec![p(10.0, 20.0, 0.0)], s(110e3));
    assert!(!model.is_fitted());
    assert_eq!(model.n_sec(), 1);
    assert_eq!(model.sec_altitude(), s(110e3));
    assert!(model.amplitudes().is_none());
    assert!(!model.has_pred_transfer());
    assert_eq!(model.pred_count(), 0);
    assert_eq!(model.predict_check(), Err(SecsError::ModelNotFitted));
}

#[test]
fn fit_commit_is_transactional() {
    let mut model = SECS::new(vec![p(10.0, 20.0, 0.0)], s(110e3));
    let locs = vec![p(40.0, 50.0, 0.0), p(50.0, 60.0, 0.0)];

    // a failing solve leaves the model exactly as it was
    assert!(model.needs_obs_transfer(&locs));
    let r = model.fit_finish(
        locs.clone(),
        Some(kernel(2, 1)),
        Err(SecsError::DecompositionFailed),
    );
    assert_eq!(r, Err(SecsError::DecompositionFailed));
    assert!(!model.is_fitted());
    assert!(model.needs_obs_transfer(&locs));
    assert_eq!(model.predict_check(), Err(SecsError::ModelNotFitted));

    // a successful solve commits amplitudes and the observation cache
    let r = model.fit_finish(locs.clone(), Some(kernel(2, 1)), Ok(vec![s(7.5)]));
    assert_eq!(r, Ok(true));
    assert!(model.is_fitted());
    assert_eq!(model.amplitudes(), Some(vec![s(7.5)]));
    assert_eq!(model.predict_check(), Ok(()));
    assert!(!model.needs_obs_transfer(&locs));

    // refitting over the same locations reuses the cached matrix
    let r = model.fit_finish(locs.clone(), None, Ok(vec![s(-2.25)]));
    assert_eq!(r, Ok(false));
    assert_eq!(model.amplitudes(), Some(vec![s(-2.25)]));
    assert!(!model.needs_obs_transfer(&locs));
}

#[test]
fn cache_comparison_uses_floating_point_equality() {
    let mut model = SECS::new(vec![p(10.0, 20.0, 0.0)], s(110e3));
    let locs = vec![p(0.0, 50.0, 0.0)];
    model
        .fit_finish(locs, Some(kernel(1, 1)), Ok(vec![s(1.0)]))
        .unwrap();
    // a latitude of -0.0 names the same location as 0.0
    let negative_zero = vec![p(-0.0, 50.0, 0.0)];
    assert!(!model.needs_obs_transfer(&negative_zero));
    // a different longitude does not
    let moved = vec![p(0.0, 51.0, 0.0)];
    assert!(model.needs_obs_transfer(&moved));
    // a shorter or longer list never matches
    assert!(model.needs_obs_transfer(&vec![]));
}

#[test]
fn a_nan_location_list_never_hits_the_cache() {
    let mut model = SECS::new(vec![p(10.0, 20.0, 0.0)], s(110e3));
    let locs = vec![p(f64::NAN, 50.0, 0.0)];
    model
        .fit_finish(locs.clone(), Some(kernel(1, 1)), Ok(vec![s(1.0)]))
        .unwrap();
    // NaN equals nothing, so even the very same list forces a recomputation
    assert!(model.needs_obs_transfer(&locs));
}

#[test]
fn prediction_side_never_touches_the_fit() {
    let mut model = SECS::new(vec![p(10.0, 20.0, 0.0), p(30.0, 40.0, 0.0)], s(110e3));
    let obs_locs = vec![p(40.0, 50.0, 0.0)];
    model
        .fit_finish(obs_locs.clone(), Some(kernel(1, 2)), Ok(vec![s(1.0), s(2.0)]))
        .unwrap();
    let amps_before = model.amplitudes();

    let pred_locs = vec![p(45.0, 55.0, 110e3), p(46.0, 56.0, 110e3)];
    assert!(model.needs_pred_transfer(&pred_locs));
    model.set_pred_transfer(pred_locs.clone(), kernel(2, 2));
    assert!(model.has_pred_transfer());
    assert_eq!(model.pred_count(), 2);
    assert!(!model.needs_pred_transfer(&pred_locs));

    // an identical-by-value list still hits the cache
    let same_by_value = vec![p(45.0, 55.0, 110e3), p(46.0, 56.0, 110e3)];
    assert!(!model.needs_pred_transfer(&same_by_value));

    // the kernel rows read back exactly what was installed
    let row = model.pred_kernel_row(1, 2);
    assert_eq!(row.len(), 2);
    assert_eq!(row[0], s(((1 * 3 + 2) * 2) as f64));
    assert_eq!(row[1], s(((1 * 3 + 2) * 2 + 1) as f64));

    // the amplitude vector and the observation cache are untouched
    assert_eq!(model.amplitudes(), amps_before);
    assert!(!model.needs_obs_transfer(&obs_locs));
    assert_eq!(model.predict_check(), Ok(()));
}

#[test]
fn predicting_twice_over_one_location_list_reuses_one_kernel() {
    let mut model = SECS::new(vec![p(10.0, 20.0, 0.0)], s(110e3));
    model
        .fit_finish(
            vec![p(40.0, 50.0, 0.0)],
            Some(kernel(1, 1)),
            Ok(vec![s(3.0)]),
        )
        .unwrap();
    let pred_locs = vec![p(45.0, 55.0, 110e3)];
    model.set_pred_transfer(pred_locs.clone(), kernel(1, 1));
    let first: Vec<Vec<Scalar>> = (0..3).map(|c| model.pred_kernel_row(0, c)).collect();
    let amps_first = model.amplitudes();
    // the second prediction finds the cache warm and reads the same rows
    assert!(!model.needs_pred_transfer(&pred_locs));
    let second: Vec<Vec<Scalar>> = (0..3).map(|c| model.pred_kernel_row(0, c)).collect();
    assert_eq!(first, second);
    assert_eq!(model.amplitudes(), amps_first);
}
