use vstd::prelude::*;

verus! {

/// Which global chart describes points of R^3 and R^4; in R^4 `Spherical` keeps
/// the time coordinate and reads the three others in spherical coordinates.
#[derive(Clone, Copy, PartialEq, Eq, Debug, Structural)]
pub enum Chart {
    Cartesian,
    Spherical,
}

} // verus!
