use vstd::prelude::*;

verus! {

/// GPU tag of the CartesianWorld chart.
pub const CHART_CARTESIAN_WORLD: u32 = 0;

/// GPU tag of the CartesianWorld tangent space.
pub const TANGENT_CARTESIAN_WORLD: u32 = 0;

/// A photon of the scene as it travels to and from the GPU kernel: position and
/// velocity in world coordinates, each by the bit pattern of its 32-bit float,
/// each followed by the tag of the chart or tangent space it is read in.
#[derive(Clone, Copy, PartialEq, Eq, Debug)]
pub struct PackedPhoton3 {
    pub pos: [u32; 3],
    pub pos_chart: u32,
    pub vel: [u32; 3],
    pub vel_space: u32,
}

impl PackedPhoton3 {
    /// Both tags say that the photon is read in world coordinates, the only
    /// coordinates this layout carries.
    pub open spec fn is_world(self) -> bool {
        self.pos_chart == CHART_CARTESIAN_WORLD && self.vel_space == TANGENT_CARTESIAN_WORLD
    }

    /// Packs the world position and velocity of a photon.
    pub fn from_world(pos: [u32; 3], vel: [u32; 3]) -> (packed: Self)
        ensures
            packed.pos == pos,
            packed.vel == vel,
            packed.is_world(),
    {
        PackedPhoton3 { pos, pos_chart: CHART_CARTESIAN_WORLD, vel, vel_space: TANGENT_CARTESIAN_WORLD }
    }

    /// The world position and velocity of a packed photon tagged as world coordinates.
    pub fn to_world(self) -> (photon: ([u32; 3], [u32; 3]))
        requires
            self.is_world(),
        ensures
            photon == (self.pos, self.vel),
    {
        (self.pos, self.vel)
    }
}

/// The GPU layout of the result of one ray: the photon where integration ended,
/// the tag of the reason it ended, and padding to 64 bytes.
#[derive(Clone, Copy, PartialEq, Eq, Debug)]
pub struct PackedRayResult {
    pub photon: PackedPhoton3,
    pub stop_reason: u32,
    pub padding: [u32; 7],
}

} // verus!
