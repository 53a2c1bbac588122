//! The exact core of an ellipsoidal geodesy toolkit: the catalogue of
//! named reference ellipsoids with its flattening invariant, the waypoint
//! schedule that the track interpolator follows, and the whole-day part of
//! the Julian date.  Everything here is integer and string data with
//! machine-checked contracts; the floating-point transforms and solvers
//! built on top consume these values.

use vstd::prelude::*;

pub mod ellipsoid;
pub mod julian;
pub mod track;

pub use ellipsoid::{Ellipsoid, EllipsoidLibrary, Model};
pub use julian::julian_day_number;
pub use track::{track_schedule, TrackStep};

verus! {

/// How the spherical-radius helpers average the two radii of curvature:
/// arithmetic mean or geometric mean.
pub enum Method {
    Mean,
    Norm,
}

} // verus!
