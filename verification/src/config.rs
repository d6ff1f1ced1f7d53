use vstd::prelude::*;

verus! {

/// Seed of the random number generator that jitters rays within their pixel.
pub const RNG_SEED: u64 = 0;

/// The ray whose trajectory is recorded when debugging.
pub const DEBUG_RAY_INDEX: u32 = 82292;

/// Height of the rendered image in pixels.
pub const IMAGE_HEIGHT: u32 = 800;

/// Width of the rendered image in pixels, for a 16:9 aspect ratio.
pub const IMAGE_WIDTH: u32 = IMAGE_HEIGHT * 16 / 9;

/// Number of bounces after which a ray that hits another object is dropped.
pub const MAX_BOUNCES: u32 = 5;

/// Number of integration steps after which a ray is abandoned.
pub const MAX_INTEGRATION_STEPS: u32 = 10000;

/// Number of invocations in one compute workgroup of the GPU kernel.
pub const WORKGROUP_SIZE: u32 = 64;

/// Number of rays traced per pixel: one when debugging, seven otherwise.
pub fn samples_per_pixel(debug: bool) -> (samples: u32)
    ensures
        samples == if debug { 1u32 } else { 7u32 },
{
    if debug {
        1
    } else {
        7
    }
}

} // verus!
