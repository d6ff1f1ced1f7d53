use vstd::prelude::*;

verus! {

/// One entry of the bind group layout of the compute kernel, by its binding number.
#[derive(Clone, Copy, PartialEq, Eq, Debug, Structural)]
pub enum BindEntry {
    StorageBuffer { binding: u32, read_only: bool },
    Texture { binding: u32 },
    Sampler { binding: u32 },
}

} // verus!
