use vstd::prelude::*;

verus! {

/// A chart of the atlas of the fixed time submanifolds M_t.
pub trait IsChart: Copy + PartialEq {}

/// Charts whose image is described by coordinates (r, theta, phi).
pub trait IsSphericalChart: IsChart {}

/// Coordinates (x, y, z) around a center.
#[derive(Clone, Copy, PartialEq, Eq, Debug, Structural)]
pub struct Cartesian;

impl IsChart for Cartesian {}

/// Spherical coordinates around a center, with theta = 0 pointing towards positive Z.
#[derive(Clone, Copy, PartialEq, Eq, Debug, Structural)]
pub struct SphericalZ;

impl IsChart for SphericalZ {}

impl IsSphericalChart for SphericalZ {}

/// Spherical coordinates around a center, with theta = 0 pointing towards positive X.
#[derive(Clone, Copy, PartialEq, Eq, Debug, Structural)]
pub struct SphericalX;

impl IsChart for SphericalX {}

impl IsSphericalChart for SphericalX {}

} // verus!
