use vstd::prelude::*;

verus! {

/// GPU kind tag of a sphere.
pub const GPU_OBJECT_SPHERE: u32 = 1;

/// GPU kind tag of a disc.
pub const GPU_OBJECT_DISC: u32 = 2;

/// GPU kind tag of a diffuse material.
pub const GPU_MATERIAL_DIFFUSE: u32 = 0;

/// GPU kind tag of a metallic material.
pub const GPU_MATERIAL_METAL: u32 = 1;

} // verus!
