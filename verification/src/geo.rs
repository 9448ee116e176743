use vstd::prelude::*;

use crate::scalar::{float_eq, float_le, Scalar};
use crate::SecsError;

verus! {

/// A geographical location: latitude and longitude in degrees, altitude in
/// meters above the Earth's surface.  All three are IEEE-754 doubles carried
/// as bit patterns.
#[derive(Clone, Copy, Debug, PartialEq, Eq, Structural, Hash)]
pub struct GeographicalPoint {
    /// The latitude in degrees.
    pub latitude: Scalar,
    /// The longitude in degrees.
    pub longitude: Scalar,
    /// Altitude from the surface of the earth, in meters.
    pub altitude: Scalar,
}

impl GeographicalPoint {
    pub fn new(latitude: Scalar, longitude: Scalar, altitude: Scalar) -> (r: GeographicalPoint)
        ensures
            r == (GeographicalPoint { latitude, longitude, altitude }),
    {
        GeographicalPoint { latitude, longitude, altitude }
    }
}

/// Floating-point equality of two points, field by field: the meaning that
/// `==` on doubles would give, so two points differing only in the sign of a
/// zero coordinate are equal, and a point with a NaN coordinate equals
/// nothing, not even itself.
pub open spec fn point_eq(p: GeographicalPoint, q: GeographicalPoint) -> bool {
    &&& float_eq(p.latitude.bits, q.latitude.bits)
    &&& float_eq(p.longitude.bits, q.longitude.bits)
    &&& float_eq(p.altitude.bits, q.altitude.bits)
}

/// Floating-point equality of two location lists: same length and
/// pointwise `point_eq`.
pub open spec fn points_eq(s1: Seq<GeographicalPoint>, s2: Seq<GeographicalPoint>) -> bool {
    s1.len() == s2.len() && forall|n: int| 0 <= n < s1.len() ==> point_eq(#[trigger] s1[n], s2[n])
}

/// Decides `point_eq` on two points.
pub fn point_eq_value(p: &GeographicalPoint, q: &GeographicalPoint) -> (r: bool)
    ensures
        r == point_eq(*p, *q),
{
    p.latitude.eq_value(&q.latitude) && p.longitude.eq_value(&q.longitude)
        && p.altitude.eq_value(&q.altitude)
}

/// Decides `points_eq` on two location lists.
pub fn points_eq_value(a: &Vec<GeographicalPoint>, b: &Vec<GeographicalPoint>) -> (r: bool)
    ensures
        r == points_eq(a@, b@),
{
    if a.len() != b.len() {
        return false;
    }
    let n = a.len();
    let mut idx: usize = 0;
    while idx < n
        invariant
            n == a@.len(),
            n == b@.len(),
            idx <= n,
            forall|m: int| 0 <= m < idx ==> point_eq(#[trigger] a@[m], b@[m]),
        decreases n - idx,
    {
        if !point_eq_value(&a[idx], &b[idx]) {
            return false;
        }
        idx += 1;
    }
    true
}

/// Validates a sampling range: a `linspace` range is rejected with
/// `InvalidRange` exactly when its end does not lie strictly above its start
/// in the floating-point order.  A range with a NaN endpoint is not caught
/// here, as a NaN compares below nothing — the same acceptance the plain
/// `end <= start` test on doubles gives.
pub fn check_linspace_range(start: Scalar, end: Scalar) -> (r: Result<(), SecsError>)
    ensures
        (r is Err) == float_le(end.bits, start.bits),
        r is Err ==> r == Err::<(), SecsError>(SecsError::InvalidRange),
{
    if end.le_value(&start) {
        Err(SecsError::InvalidRange)
    } else {
        Ok(())
    }
}

/// The point a grid places at latitude row `i` and longitude column `j`.
pub open spec fn grid_point(
    lats: Seq<Scalar>,
    lons: Seq<Scalar>,
    altitude: Scalar,
    i: int,
    j: int,
) -> GeographicalPoint {
    GeographicalPoint { latitude: lats[i], longitude: lons[j], altitude }
}

/// A cell of a row-major lattice with `nlon` columns lies strictly before
/// the end of row `i` whenever its row `a` lies strictly before `i`.
proof fn lemma_row_major_bound(a: int, b: int, i: int, nlon: int)
    requires
        0 <= a < i,
        0 <= b < nlon,
    ensures
        a * nlon + b < i * nlon,
{
    assert(a * nlon + b < i * nlon) by (nonlinear_arith)
        requires
            0 <= a < i,
            0 <= b < nlon,
    ;
}

/// Builds the lattice of geographical points over the given latitude and
/// longitude samples, every point tagged with the fixed altitude.  The output
/// is row-major over latitude then longitude: all longitudes of the first
/// latitude, then all longitudes of the second, and so on.
pub fn geographical_grid(
    latitudes: &Vec<Scalar>,
    longitudes: &Vec<Scalar>,
    altitude: Scalar,
) -> (r: Vec<GeographicalPoint>)
    ensures
        r@.len() == latitudes@.len() * longitudes@.len(),
        forall|i: int, j: int|
            0 <= i < latitudes@.len() && 0 <= j < longitudes@.len() ==> r@[i * longitudes@.len()
                + j] == #[trigger] grid_point(latitudes@, longitudes@, altitude, i, j),
{
    let nlat = latitudes.len();
    let nlon = longitudes.len();
    let mut result: Vec<GeographicalPoint> = Vec::new();
    let mut i: usize = 0;
    while i < nlat
        invariant
            nlat == latitudes@.len(),
            nlon == longitudes@.len(),
            i <= nlat,
            result@.len() == i * nlon,
            forall|a: int, b: int|
                0 <= a < i && 0 <= b < nlon ==> result@[a * nlon + b] == #[trigger] grid_point(
                    latitudes@,
                    longitudes@,
                    altitude,
                    a,
                    b,
                ),
        decreases nlat - i,
    {
        let mut j: usize = 0;
        while j < nlon
            invariant
                nlat == latitudes@.len(),
                nlon == longitudes@.len(),
                i < nlat,
                j <= nlon,
                result@.len() == i * nlon + j,
                forall|a: int, b: int|
                    0 <= a < i && 0 <= b < nlon ==> result@[a * nlon + b] == #[trigger] grid_point(
                        latitudes@,
                        longitudes@,
                        altitude,
                        a,
                        b,
                    ),
                forall|b: int|
                    0 <= b < j ==> result@[i * nlon + b] == #[trigger] grid_point(
                        latitudes@,
                        longitudes@,
                        altitude,
                        i as int,
                        b,
                    ),
            decreases nlon - j,
        {
            result.push(
                GeographicalPoint {
                    latitude: latitudes[i],
                    longitude: longitudes[j],
                    altitude,
                },
            );
            proof {
                assert forall|a: int, b: int| 0 <= a < i && 0 <= b < nlon implies result@[a * nlon
                    + b] == #[trigger] grid_point(latitudes@, longitudes@, altitude, a, b) by {
                    lemma_row_major_bound(a, b, i as int, nlon as int);
                };
            }
            j += 1;
        }
        proof {
            assert((i + 1) * nlon == i * nlon + nlon) by (nonlinear_arith);
            assert forall|a: int, b: int| 0 <= a < i + 1 && 0 <= b < nlon implies result@[a * nlon
                + b] == #[trigger] grid_point(latitudes@, longitudes@, altitude, a, b) by {
                if a < i {
                    lemma_row_major_bound(a, b, i as int, nlon as int);
                }
            };
        }
        i += 1;
    }
    result
}

} // verus!
