use vstd::prelude::*;

verus! {

/// Which integrator renders the image: the CPU path tracer or the GPU kernel.
#[derive(Clone, Copy, PartialEq, Eq, Debug, Structural)]
pub enum Pipeline {
    CPU,
    GPU,
}

/// The numerical scheme that advances a photon along its null geodesic.
#[derive(Clone, Copy, PartialEq, Eq, Debug, Structural)]
pub enum IntegrationMethod {
    EULER,
    RK4,
}

} // verus!
