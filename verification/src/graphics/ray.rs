use vstd::prelude::*;

verus! {

/// Why the integration of a ray ended.
#[derive(Clone, Copy, PartialEq, Eq, Debug, Structural)]
pub enum StopReason {
    MaxStepsReached,
    BackgroundReached,
    ObjectHit,
    HorizonHit,
}

} // verus!
