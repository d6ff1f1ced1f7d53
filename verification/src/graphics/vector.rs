use vstd::prelude::*;

verus! {

/// The coordinate system in which the components of a vector are read.
#[derive(Clone, Copy, PartialEq, Eq, Debug, Structural)]
pub enum CoordinateSystem {
    Cartesian,
    Spherical,
}

} // verus!
