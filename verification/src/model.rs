use vstd::prelude::*;

use crate::geo::{points_eq, points_eq_value, GeographicalPoint};
use crate::matrix::TransferMatrix;
use crate::scalar::Scalar;
use crate::SecsError;
use vstd::pervasive::unreached;

verus! {

/// One magnetometer observation: location in degrees, altitude in meters,
/// and the three measured field components in nanotesla.
#[derive(Clone, Copy, Debug, PartialEq, Eq, Structural)]
pub struct ObservationVector {
    /// The longitude in degrees.
    pub lon: Scalar,
    /// The latitude in degrees.
    pub lat: Scalar,
    /// i vector (usually x magnetometer component) in nano teslas.
    pub i: Scalar,
    /// j vector (usually y magnetometer component) in nano teslas.
    pub j: Scalar,
    /// k vector (usually k magnetometer component) in nano teslas.
    pub k: Scalar,
    /// Altitude from the surface of the earth where the measurement has been
    /// conducted (usually 0), in meters.
    pub alt: Scalar,
}

/// The model output at one queried location: the location in degrees and the
/// three predicted field components in nanotesla.
#[derive(Clone, Copy, Debug, PartialEq, Eq, Structural)]
pub struct PredictionVector {
    /// The longitude in degrees.
    pub lon: Scalar,
    /// The latitude in degrees.
    pub lat: Scalar,
    /// i vector (usually x magnetometer component) in nano teslas.
    pub i: Scalar,
    /// j vector (usually y magnetometer component) in nano teslas.
    pub j: Scalar,
    /// k vector (usually k magnetometer component) in nano teslas.
    pub k: Scalar,
}

/// The observation location list a fit works on: one point per observation,
/// in observation order, every point at the given altitude.
pub fn observation_locations(obs: &Vec<ObservationVector>, obs_altitude: Scalar) -> (r: Vec<
    GeographicalPoint,
>)
    ensures
        r@.len() == obs@.len(),
        forall|n: int|
            0 <= n < obs@.len() ==> r@[n] == (GeographicalPoint {
                latitude: (#[trigger] obs@[n]).lat,
                longitude: obs@[n].lon,
                altitude: obs_altitude,
            }),
{
    let count = obs.len();
    let mut locs: Vec<GeographicalPoint> = Vec::new();
    let mut n: usize = 0;
    while n < count
        invariant
            count == obs@.len(),
            n <= count,
            locs@.len() == n,
            forall|m: int|
                0 <= m < n ==> locs@[m] == (GeographicalPoint {
                    latitude: (#[trigger] obs@[m]).lat,
                    longitude: obs@[m].lon,
                    altitude: obs_altitude,
                }),
        decreases count - n,
    {
        locs.push(
            GeographicalPoint {
                latitude: obs[n].lat,
                longitude: obs[n].lon,
                altitude: obs_altitude,
            },
        );
        n += 1;
    }
    locs
}

/// The flattened measurement vector a fit solves against: the three
/// components of each observation in order, so entry `3·n + c` is component
/// `c` of observation `n` — the same row order as the flattened transfer
/// matrix.
pub fn flatten_observations(obs: &Vec<ObservationVector>) -> (r: Vec<Scalar>)
    ensures
        r@.len() == 3 * obs@.len(),
        forall|n: int|
            0 <= n < obs@.len() ==> r@[3 * n] == (#[trigger] obs@[n]).i && r@[3 * n + 1]
                == obs@[n].j && r@[3 * n + 2] == obs@[n].k,
{
    let count = obs.len();
    let mut b: Vec<Scalar> = Vec::new();
    let mut n: usize = 0;
    while n < count
        invariant
            count == obs@.len(),
            n <= count,
            b@.len() == 3 * n,
            forall|m: int|
                0 <= m < n ==> b@[3 * m] == (#[trigger] obs@[m]).i && b@[3 * m + 1] == obs@[m].j
                    && b@[3 * m + 2] == obs@[m].k,
        decreases count - n,
    {
        b.push(obs[n].i);
        b.push(obs[n].j);
        b.push(obs[n].k);
        n += 1;
    }
    b
}

/// Pairs each queried location with its computed field components, in input
/// order: output `n` carries the latitude and longitude of location `n` and
/// the `(north, east, down)` triple `fields[n]`.
pub fn assemble_predictions(
    pred_locs: &Vec<GeographicalPoint>,
    fields: &Vec<(Scalar, Scalar, Scalar)>,
) -> (r: Vec<PredictionVector>)
    requires
        pred_locs@.len() == fields@.len(),
    ensures
        r@.len() == pred_locs@.len(),
        forall|n: int|
            0 <= n < pred_locs@.len() ==> r@[n] == (PredictionVector {
                lon: (#[trigger] pred_locs@[n]).longitude,
                lat: pred_locs@[n].latitude,
                i: fields@[n].0,
                j: fields@[n].1,
                k: fields@[n].2,
            }),
{
    let count = pred_locs.len();
    let mut out: Vec<PredictionVector> = Vec::new();
    let mut n: usize = 0;
    while n < count
        invariant
            count == pred_locs@.len(),
            count == fields@.len(),
            n <= count,
            out@.len() == n,
            forall|m: int|
                0 <= m < n ==> out@[m] == (PredictionVector {
                    lon: (#[trigger] pred_locs@[m]).longitude,
                    lat: pred_locs@[m].latitude,
                    i: fields@[m].0,
                    j: fields@[m].1,
                    k: fields@[m].2,
                }),
        decreases count - n,
    {
        out.push(
            PredictionVector {
                lon: pred_locs[n].longitude,
                lat: pred_locs[n].latitude,
                i: fields[n].0,
                j: fields[n].1,
                k: fields[n].2,
            },
        );
        n += 1;
    }
    out
}

/// Copies a vector of scalars.
fn copy_scalars(v: &Vec<Scalar>) -> (r: Vec<Scalar>)
    ensures
        r@ == v@,
{
    let count = v.len();
    let mut out: Vec<Scalar> = Vec::new();
    let mut n: usize = 0;
    while n < count
        invariant
            count == v@.len(),
            n <= count,
            out@ == v@.take(n as int),
        decreases count - n,
    {
        out.push(v[n]);
        proof {
            assert(out@ =~= v@.take(n + 1 as int));
        }
        n += 1;
    }
    proof {
        assert(v@.take(count as int) =~= v@);
    }
    out
}

/// Copies a vector of points.
fn copy_points(v: &Vec<GeographicalPoint>) -> (r: Vec<GeographicalPoint>)
    ensures
        r@ == v@,
{
    let count = v.len();
    let mut out: Vec<GeographicalPoint> = Vec::new();
    let mut n: usize = 0;
    while n < count
        invariant
            count == v@.len(),
            n <= count,
            out@ == v@.take(n as int),
        decreases count - n,
    {
        out.push(v[n]);
        proof {
            assert(out@ =~= v@.take(n + 1 as int));
        }
        n += 1;
    }
    proof {
        assert(v@.take(count as int) =~= v@);
    }
    out
}

/// The spherical-elementary-current model: a fixed pole grid at a fixed
/// altitude, the amplitude vector of the last successful fit, and the two
/// transfer-matrix caches, keyed by the location lists they were computed
/// for.  The caches are pure optimizations: a fit or prediction computes the
/// same result whether or not they hit.
pub struct SECS {
    /// The latitude and longitude of the divergence-free pole locations.
    sec_locs: Vec<GeographicalPoint>,
    /// The altitude in meters above the surface of the earth at which the
    /// poles are located.
    sec_locs_altitude: Scalar,
    /// The scaling factors (amplitudes) of the poles from the last fit.
    sec_amps: Option<Vec<Scalar>>,
    /// The observation locations the cached observation transfer matrix was
    /// computed for.
    obs_locs_cache: Option<Vec<GeographicalPoint>>,
    /// The cached observation transfer matrix.
    t_obs_cache: Option<TransferMatrix>,
    /// The prediction locations the cached prediction transfer matrix was
    /// computed for.
    pred_locs_cache: Option<Vec<GeographicalPoint>>,
    /// The cached prediction transfer matrix.
    t_pred_cache: Option<TransferMatrix>,
}

impl SECS {
    pub closed spec fn spec_sec_locs(self) -> Seq<GeographicalPoint> {
        self.sec_locs@
    }

    pub closed spec fn spec_sec_alt(self) -> Scalar {
        self.sec_locs_altitude
    }

    pub closed spec fn spec_sec_amps(self) -> Option<Seq<Scalar>> {
        match self.sec_amps {
            Some(v) => Some(v@),
            None => None,
        }
    }

    pub closed spec fn spec_obs_cache(self) -> Option<Seq<GeographicalPoint>> {
        match self.obs_locs_cache {
            Some(v) => Some(v@),
            None => None,
        }
    }

    pub closed spec fn spec_t_obs(self) -> Option<TransferMatrix> {
        self.t_obs_cache
    }

    pub closed spec fn spec_pred_cache(self) -> Option<Seq<GeographicalPoint>> {
        match self.pred_locs_cache {
            Some(v) => Some(v@),
            None => None,
        }
    }

    pub closed spec fn spec_t_pred(self) -> Option<TransferMatrix> {
        self.t_pred_cache
    }

    /// Well-formedness: each transfer-matrix cache is present exactly with
    /// its location list, and its dimensions match that list and the pole
    /// grid.
    pub closed spec fn wf(self) -> bool {
        &&& (self.t_obs_cache is Some) == (self.obs_locs_cache is Some)
        &&& (self.t_pred_cache is Some) == (self.pred_locs_cache is Some)
        &&& (self.t_obs_cache matches Some(t) ==> t.wf() && t.spec_n_sec()
            == self.sec_locs@.len() && (self.obs_locs_cache matches Some(c) && t.spec_n_locs()
            == c@.len()))
        &&& (self.t_pred_cache matches Some(t) ==> t.wf() && t.spec_n_sec()
            == self.sec_locs@.len() && (self.pred_locs_cache matches Some(c) && t.spec_n_locs()
            == c@.len()))
    }

    /// A fresh, unfitted model over the given pole grid: no amplitudes and
    /// cold caches.
    pub fn new(sec_locs: Vec<GeographicalPoint>, sec_locs_altitude: Scalar) -> (r: SECS)
        ensures
            r.wf(),
            r.spec_sec_locs() == sec_locs@,
            r.spec_sec_alt() == sec_locs_altitude,
            r.spec_sec_amps() is None,
            r.spec_obs_cache() is None,
            r.spec_t_obs() is None,
            r.spec_pred_cache() is None,
            r.spec_t_pred() is None,
    {
        SECS {
            sec_locs,
            sec_locs_altitude,
            sec_amps: None,
            obs_locs_cache: None,
            t_obs_cache: None,
            pred_locs_cache: None,
            t_pred_cache: None,
        }
    }

    /// The number of poles of the model.
    pub fn n_sec(&self) -> (r: usize)
        ensures
            r == self.spec_sec_locs().len(),
    {
        self.sec_locs.len()
    }

    /// A copy of the pole locations.
    pub fn sec_locations(&self) -> (r: Vec<GeographicalPoint>)
        ensures
            r@ == self.spec_sec_locs(),
    {
        copy_points(&self.sec_locs)
    }

    /// The altitude of the pole grid.
    pub fn sec_altitude(&self) -> (r: Scalar)
        ensures
            r == self.spec_sec_alt(),
    {
        self.sec_locs_altitude
    }

    /// Whether a fit has succeeded on this model.
    pub fn is_fitted(&self) -> (r: bool)
        ensures
            r == (self.spec_sec_amps() is Some),
    {
        match &self.sec_amps {
            Some(_) => true,
            None => false,
        }
    }

    /// A copy of the fitted amplitude vector, if any.
    pub fn amplitudes(&self) -> (r: Option<Vec<Scalar>>)
        ensures
            match r {
                Some(v) => self.spec_sec_amps() == Some(v@),
                None => self.spec_sec_amps() is None,
            },
    {
        match &self.sec_amps {
            Some(v) => Some(copy_scalars(v)),
            None => None,
        }
    }

    /// Whether a fit over the given observation locations must recompute the
    /// observation transfer matrix: true unless the cached location list
    /// equals the given one value by value, in the floating-point sense.
    pub fn needs_obs_transfer(&self, obs_locs: &Vec<GeographicalPoint>) -> (r: bool)
        ensures
            r == match self.spec_obs_cache() {
                Some(c) => !points_eq(c, obs_locs@),
                None => true,
            },
    {
        match &self.obs_locs_cache {
            Some(c) => !points_eq_value(c, obs_locs),
            None => true,
        }
    }

    /// The cached observation transfer matrix.
    pub fn obs_transfer(&self) -> (r: &Option<TransferMatrix>)
        ensures
            *r == self.spec_t_obs(),
    {
        &self.t_obs_cache
    }

    /// Commits the outcome of a fit, atomically: on a solver failure the
    /// model is left exactly as it was — neither the amplitude vector nor
    /// the observation cache changes — and the failure is passed through.
    /// On success the amplitude vector is replaced and, where a freshly
    /// computed transfer matrix is handed in, the observation cache with it;
    /// the returned flag says whether that recomputation was needed.  The
    /// prediction side of the model is never touched.
    pub fn fit_finish(
        &mut self,
        obs_locs: Vec<GeographicalPoint>,
        t_obs: Option<TransferMatrix>,
        outcome: Result<Vec<Scalar>, SecsError>,
    ) -> (r: Result<bool, SecsError>)
        requires
            old(self).wf(),
            match t_obs {
                Some(t) => t.wf() && t.spec_n_locs() == obs_locs@.len() && t.spec_n_sec() == old(
                    self,
                ).spec_sec_locs().len() && match old(self).spec_obs_cache() {
                    Some(c) => !points_eq(c, obs_locs@),
                    None => true,
                },
                None => match old(self).spec_obs_cache() {
                    Some(c) => points_eq(c, obs_locs@),
                    None => false,
                },
            },
            outcome matches Ok(amps) ==> amps@.len() == old(self).spec_sec_locs().len(),
        ensures
            final(self).wf(),
            final(self).spec_sec_locs() == old(self).spec_sec_locs(),
            final(self).spec_sec_alt() == old(self).spec_sec_alt(),
            final(self).spec_pred_cache() == old(self).spec_pred_cache(),
            final(self).spec_t_pred() == old(self).spec_t_pred(),
            outcome matches Err(e) ==> *final(self) == *old(self) && r == Err::<
                bool,
                SecsError,
            >(e),
            outcome matches Ok(amps) ==> {
                &&& final(self).spec_sec_amps() == Some(amps@)
                &&& r == Ok::<bool, SecsError>(t_obs is Some)
                &&& (t_obs matches Some(t) ==> final(self).spec_obs_cache() == Some(obs_locs@)
                    && final(self).spec_t_obs() == Some(t))
                &&& (t_obs is None ==> final(self).spec_obs_cache() == old(self).spec_obs_cache()
                    && final(self).spec_t_obs() == old(self).spec_t_obs())
            },
    {
        match outcome {
            Err(e) => Err(e),
            Ok(amps) => {
                let recomputed = match t_obs {
                    Some(t) => {
                        self.t_obs_cache = Some(t);
                        self.obs_locs_cache = Some(obs_locs);
                        true
                    },
                    None => false,
                };
                self.sec_amps = Some(amps);
                Ok(recomputed)
            },
        }
    }

    /// Whether a prediction may proceed: fails with `ModelNotFitted` before
    /// the first successful fit, and with `AmplitudeDimensionMismatch` when
    /// the fitted amplitude vector no longer matches the pole count.
    pub fn predict_check(&self) -> (r: Result<(), SecsError>)
        ensures
            self.spec_sec_amps() is None ==> r == Err::<(), SecsError>(SecsError::ModelNotFitted),
            self.spec_sec_amps() matches Some(a) ==> r == if a.len()
                == self.spec_sec_locs().len() {
                Ok::<(), SecsError>(())
            } else {
                Err::<(), SecsError>(SecsError::AmplitudeDimensionMismatch)
            },
    {
        match &self.sec_amps {
            None => Err(SecsError::ModelNotFitted),
            Some(a) => if a.len() == self.sec_locs.len() {
                Ok(())
            } else {
                Err(SecsError::AmplitudeDimensionMismatch)
            },
        }
    }

    /// Whether a prediction over the given locations must recompute the
    /// prediction transfer matrix: true unless the cached location list
    /// equals the given one value by value, in the floating-point sense.
    pub fn needs_pred_transfer(&self, pred_locs: &Vec<GeographicalPoint>) -> (r: bool)
        ensures
            r == match self.spec_pred_cache() {
                Some(c) => !points_eq(c, pred_locs@),
                None => true,
            },
    {
        match &self.pred_locs_cache {
            Some(c) => !points_eq_value(c, pred_locs),
            None => true,
        }
    }

    /// Installs a freshly computed prediction transfer matrix and its
    /// location list.  Nothing else changes: in particular the amplitude
    /// vector and the whole observation side are left as they were, so a
    /// prediction never alters what a fit established.
    pub fn set_pred_transfer(&mut self, pred_locs: Vec<GeographicalPoint>, t: TransferMatrix)
        requires
            old(self).wf(),
            t.wf(),
            t.spec_n_locs() == pred_locs@.len(),
            t.spec_n_sec() == old(self).spec_sec_locs().len(),
        ensures
            final(self).wf(),
            final(self).spec_pred_cache() == Some(pred_locs@),
            final(self).spec_t_pred() == Some(t),
            final(self).spec_sec_locs() == old(self).spec_sec_locs(),
            final(self).spec_sec_alt() == old(self).spec_sec_alt(),
            final(self).spec_sec_amps() == old(self).spec_sec_amps(),
            final(self).spec_obs_cache() == old(self).spec_obs_cache(),
            final(self).spec_t_obs() == old(self).spec_t_obs(),
    {
        self.t_pred_cache = Some(t);
        self.pred_locs_cache = Some(pred_locs);
    }

    /// Whether a prediction transfer matrix is cached.
    pub fn has_pred_transfer(&self) -> (r: bool)
        ensures
            r == (self.spec_t_pred() is Some),
    {
        match &self.t_pred_cache {
            Some(_) => true,
            None => false,
        }
    }

    /// The number of locations the cached prediction transfer matrix covers,
    /// or zero with a cold cache.
    pub fn pred_count(&self) -> (r: usize)
        ensures
            r == match self.spec_t_pred() {
                Some(t) => t.spec_n_locs(),
                None => 0,
            },
    {
        match &self.t_pred_cache {
            Some(t) => t.n_locs(),
            None => 0,
        }
    }

    /// The kernel row of component `c` at prediction location `p`: entry `s`
    /// is the response of pole `s`, so the predicted component is the dot
    /// product of this row with the amplitude vector.
    pub fn pred_kernel_row(&self, p: usize, c: usize) -> (r: Vec<Scalar>)
        requires
            self.wf(),
            self.spec_t_pred() matches Some(t) && p < t.spec_n_locs() && c < 3,
        ensures
            self.spec_t_pred() matches Some(t) ==> r@.len() == t.spec_n_sec() && forall|s: int|
                0 <= s < t.spec_n_sec() ==> r@[s] == t.spec_at(p as int, c as int, s),
    {
        match &self.t_pred_cache {
            Some(t) => t.component_row(p, c),
            None => unreached(),
        }
    }
}

} // verus!
