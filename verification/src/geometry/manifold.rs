use vstd::prelude::*;

verus! {

/// Which global chart describes points on the fixed time submanifolds of R^4.
/// The time coordinate is never converted between charts.
#[derive(Clone, Copy, PartialEq, Eq, Debug, Structural)]
pub enum Chart {
    /// Cartesian coordinates of the scene itself.
    CartesianWorld,
    /// Cartesian coordinates around the center of the manifold's atlas.
    Cartesian,
    /// Spherical coordinates around the center, theta = 0 towards positive Z.
    SphericalZ,
    /// Spherical coordinates around the center, theta = 0 towards positive X.
    SphericalX,
}

} // verus!
