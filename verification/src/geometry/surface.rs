use vstd::prelude::*;

verus! {

/// The textures an object of the scene can carry.
#[derive(Clone, Copy, PartialEq, Eq, Debug, Structural)]
pub enum Texture {
    NONE,
    ACCRETION,
    BACKGROUND,
}

} // verus!
