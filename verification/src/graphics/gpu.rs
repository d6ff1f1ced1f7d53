use vstd::prelude::*;

use crate::geometry::manifold::Chart;
use crate::geometry::vector::TangentSpace;
use crate::graphics::ray::StopReason;
use crate::config::WORKGROUP_SIZE;

verus! {

/// Number of tags of each kind that the GPU kernel understands.
pub const TAG_COUNT: u32 = 4;

/// The tag under which the GPU kernel knows a chart.
pub open spec fn chart_tag(chart: Chart) -> u32 {
    match chart {
        Chart::CartesianWorld => 0,
        Chart::Cartesian => 1,
        Chart::SphericalZ => 2,
        Chart::SphericalX => 3,
    }
}

/// The chart that a valid tag (below `TAG_COUNT`) stands for.
pub open spec fn chart_of_tag(value: u32) -> Chart
    recommends
        value < TAG_COUNT,
{
    if value == 0 {
        Chart::CartesianWorld
    } else if value == 1 {
        Chart::Cartesian
    } else if value == 2 {
        Chart::SphericalZ
    } else {
        Chart::SphericalX
    }
}

/// The tag under which the GPU kernel knows a tangent space.
pub open spec fn tangent_space_tag(space: TangentSpace) -> u32 {
    match space {
        TangentSpace::Cartesian => 0,
        TangentSpace::CartesianWorld => 1,
        TangentSpace::SphericalZ => 2,
        TangentSpace::SphericalX => 3,
    }
}

/// The tangent space that a valid tag (below `TAG_COUNT`) stands for.
pub open spec fn tangent_space_of_tag(value: u32) -> TangentSpace
    recommends
        value < TAG_COUNT,
{
    if value == 0 {
        TangentSpace::Cartesian
    } else if value == 1 {
        TangentSpace::CartesianWorld
    } else if value == 2 {
        TangentSpace::SphericalZ
    } else {
        TangentSpace::SphericalX
    }
}

/// The tag that the GPU kernel writes for each way a ray can stop.
pub open spec fn stop_reason_tag(reason: StopReason) -> u32 {
    match reason {
        StopReason::MaxStepsReached => 0,
        StopReason::BackgroundReached => 1,
        StopReason::ObjectHit => 2,
        StopReason::HorizonHit => 3,
    }
}

/// The stop reason that a valid tag (below `TAG_COUNT`) stands for.
pub open spec fn stop_reason_of_tag(value: u32) -> StopReason
    recommends
        value < TAG_COUNT,
{
    if value == 0 {
        StopReason::MaxStepsReached
    } else if value == 1 {
        StopReason::BackgroundReached
    } else if value == 2 {
        StopReason::ObjectHit
    } else {
        StopReason::HorizonHit
    }
}

/// Encodes a chart as the tag the GPU kernel reads.
pub fn chart_to_u32(chart: Chart) -> (tag: u32)
    ensures
        tag == chart_tag(chart),
        tag < TAG_COUNT,
{
    match chart {
        Chart::CartesianWorld => 0,
        Chart::Cartesian => 1,
        Chart::SphericalZ => 2,
        Chart::SphericalX => 3,
    }
}

/// Decodes a chart tag written by the GPU kernel; only the tags below `TAG_COUNT` exist.
pub fn chart_from_u32(value: u32) -> (chart: Chart)
    requires
        value < TAG_COUNT,
    ensures
        chart == chart_of_tag(value),
        chart_tag(chart) == value,
{
    match value {
        0 => Chart::CartesianWorld,
        1 => Chart::Cartesian,
        2 => Chart::SphericalZ,
        _ => Chart::SphericalX,
    }
}

/// Encodes a tangent space as the tag the GPU kernel reads.
pub fn tangent_space_to_u32(space: TangentSpace) -> (tag: u32)
    ensures
        tag == tangent_space_tag(space),
        tag < TAG_COUNT,
{
    match space {
        TangentSpace::Cartesian => 0,
        TangentSpace::CartesianWorld => 1,
        TangentSpace::SphericalZ => 2,
        TangentSpace::SphericalX => 3,
    }
}

/// Decodes a tangent space tag written by the GPU kernel; only the tags below `TAG_COUNT` exist.
pub fn tangent_space_from_u32(value: u32) -> (space: TangentSpace)
    requires
        value < TAG_COUNT,
    ensures
        space == tangent_space_of_tag(value),
        tangent_space_tag(space) == value,
{
    match value {
        0 => TangentSpace::Cartesian,
        1 => TangentSpace::CartesianWorld,
        2 => TangentSpace::SphericalZ,
        _ => TangentSpace::SphericalX,
    }
}

/// Decodes the stop reason tag written by the GPU kernel; only the tags below `TAG_COUNT` exist.
pub fn stop_reason_from_u32(value: u32) -> (reason: StopReason)
    requires
        value < TAG_COUNT,
    ensures
        reason == stop_reason_of_tag(value),
        stop_reason_tag(reason) == value,
{
    match value {
        0 => StopReason::MaxStepsReached,
        1 => StopReason::BackgroundReached,
        2 => StopReason::ObjectHit,
        _ => StopReason::HorizonHit,
    }
}

/// Decoding a chart's tag gives the chart back, and every chart has a valid tag.
pub proof fn lemma_chart_tag_roundtrip(chart: Chart)
    ensures
        chart_tag(chart) < TAG_COUNT,
        chart_of_tag(chart_tag(chart)) == chart,
{
}

/// Encoding the chart that a valid tag decodes to gives the tag back.
pub proof fn lemma_chart_of_tag_roundtrip(value: u32)
    requires
        value < TAG_COUNT,
    ensures
        chart_tag(chart_of_tag(value)) == value,
{
}

/// Distinct charts travel under distinct tags.
pub proof fn lemma_chart_tag_injective(a: Chart, b: Chart)
    requires
        chart_tag(a) == chart_tag(b),
    ensures
        a == b,
{
    lemma_chart_tag_roundtrip(a);
    lemma_chart_tag_roundtrip(b);
}

/// Decoding a tangent space's tag gives the tangent space back, and every tangent space has a valid tag.
pub proof fn lemma_tangent_space_tag_roundtrip(space: TangentSpace)
    ensures
        tangent_space_tag(space) < TAG_COUNT,
        tangent_space_of_tag(tangent_space_tag(space)) == space,
{
}

/// Encoding the tangent space that a valid tag decodes to gives the tag back.
pub proof fn lemma_tangent_space_of_tag_roundtrip(value: u32)
    requires
        value < TAG_COUNT,
    ensures
        tangent_space_tag(tangent_space_of_tag(value)) == value,
{
}

/// Every stop reason has exactly one valid tag: decoding it gives the reason back,
/// and distinct valid tags decode to distinct reasons.
pub proof fn lemma_stop_reason_tags(reason: StopReason, a: u32, b: u32)
    requires
        a < TAG_COUNT,
        b < TAG_COUNT,
    ensures
        stop_reason_tag(reason) < TAG_COUNT,
        stop_reason_of_tag(stop_reason_tag(reason)) == reason,
        stop_reason_tag(stop_reason_of_tag(a)) == a,
        stop_reason_of_tag(a) == stop_reason_of_tag(b) ==> a == b,
{
}

/// A photon of spacetime as it travels to and from the GPU kernel: its position,
/// read in `chart`, and its velocity, read in `vel_space`, each coordinate given
/// by the bit pattern of its 32-bit float.
#[derive(Clone, Copy, PartialEq, Eq, Debug)]
pub struct Photon4Bits {
    pub pos: [u32; 4],
    pub chart: Chart,
    pub vel: [u32; 4],
    pub vel_space: TangentSpace,
}

/// The GPU layout of a photon: coordinates, then the chart tag padded to 16
/// bytes, then velocity components, then the tangent space tag padded likewise.
#[derive(Clone, Copy, PartialEq, Eq, Debug)]
pub struct PackedPhoton4 {
    pub pos: [u32; 4],
    pub pos_chart: u32,
    pub pos_padding: [u32; 3],
    pub vel: [u32; 4],
    pub vel_space: u32,
    pub vel_padding: [u32; 3],
}

/// The GPU layout of the result of one ray: the photon where integration ended
/// and the tag of the reason it ended, padded to 16 bytes.
#[derive(Clone, Copy, PartialEq, Eq, Debug)]
pub struct PackedRayResult {
    pub photon: PackedPhoton4,
    pub stop_reason: u32,
    pub padding: [u32; 3],
}

/// The decoded result of one ray.
#[derive(Clone, Copy, PartialEq, Eq, Debug)]
pub struct GpuRayResult {
    pub photon: Photon4Bits,
    pub stop_reason: StopReason,
}

/// The packed photon that `photon` becomes: its coordinates unchanged, its
/// chart and tangent space by their tags, the padding zero.
pub open spec fn packed_photon4(photon: Photon4Bits) -> PackedPhoton4 {
    PackedPhoton4 {
        pos: photon.pos,
        pos_chart: chart_tag(photon.chart),
        pos_padding: [0u32, 0u32, 0u32],
        vel: photon.vel,
        vel_space: tangent_space_tag(photon.vel_space),
        vel_padding: [0u32, 0u32, 0u32],
    }
}

/// The photon that a packed photon with valid tags stands for.
pub open spec fn unpacked_photon4(packed: PackedPhoton4) -> Photon4Bits {
    Photon4Bits {
        pos: packed.pos,
        chart: chart_of_tag(packed.pos_chart),
        vel: packed.vel,
        vel_space: tangent_space_of_tag(packed.vel_space),
    }
}

impl PackedPhoton4 {
    /// Both tags name a chart and a tangent space that exist.
    pub open spec fn has_valid_tags(self) -> bool {
        self.pos_chart < TAG_COUNT && self.vel_space < TAG_COUNT
    }

    /// Packs a photon for the GPU kernel.
    pub fn from_photon(photon: Photon4Bits) -> (packed: Self)
        ensures
            packed == packed_photon4(photon),
            packed.has_valid_tags(),
            packed.pos == photon.pos,
            packed.vel == photon.vel,
            packed.pos_chart == chart_tag(photon.chart),
            packed.vel_space == tangent_space_tag(photon.vel_space),
            packed.pos_padding == [0u32, 0u32, 0u32],
            packed.vel_padding == [0u32, 0u32, 0u32],
    {
        PackedPhoton4 {
            pos: photon.pos,
            pos_chart: chart_to_u32(photon.chart),
            pos_padding: [0, 0, 0],
            vel: photon.vel,
            vel_space: tangent_space_to_u32(photon.vel_space),
            vel_padding: [0, 0, 0],
        }
    }

    /// Unpacks a photon written by the GPU kernel.
    pub fn to_photon(self) -> (photon: Photon4Bits)
        requires
            self.has_valid_tags(),
        ensures
            photon == unpacked_photon4(self),
            photon.pos == self.pos,
            photon.vel == self.vel,
            chart_tag(photon.chart) == self.pos_chart,
            tangent_space_tag(photon.vel_space) == self.vel_space,
    {
        Photon4Bits {
            pos: self.pos,
            chart: chart_from_u32(self.pos_chart),
            vel: self.vel,
            vel_space: tangent_space_from_u32(self.vel_space),
        }
    }
}

impl PackedRayResult {
    /// The photon's tags and the stop reason tag all name something that exists.
    pub open spec fn has_valid_tags(self) -> bool {
        self.photon.has_valid_tags() && self.stop_reason < TAG_COUNT
    }
}

impl GpuRayResult {
    /// Decodes the result of one ray written by the GPU kernel.
    pub fn from_packed(value: PackedRayResult) -> (result: Self)
        requires
            value.has_valid_tags(),
        ensures
            result.photon == unpacked_photon4(value.photon),
            result.stop_reason == stop_reason_of_tag(value.stop_reason),
            result.photon.pos == value.photon.pos,
            result.photon.vel == value.photon.vel,
            chart_tag(result.photon.chart) == value.photon.pos_chart,
            tangent_space_tag(result.photon.vel_space) == value.photon.vel_space,
            stop_reason_tag(result.stop_reason) == value.stop_reason,
    {
        GpuRayResult {
            photon: value.photon.to_photon(),
            stop_reason: stop_reason_from_u32(value.stop_reason),
        }
    }
}

/// Packing keeps every coordinate in place whatever the chart: the position bits
/// go to the position slots and the velocity bits to the velocity slots, the tags
/// name the photon's own chart and tangent space, and the padding is zero.
pub proof fn lemma_packing_keeps_coordinates(photon: Photon4Bits)
    ensures
        packed_photon4(photon).pos == photon.pos,
        packed_photon4(photon).vel == photon.vel,
        chart_of_tag(packed_photon4(photon).pos_chart) == photon.chart,
        tangent_space_of_tag(packed_photon4(photon).vel_space) == photon.vel_space,
        packed_photon4(photon).pos_padding == [0u32, 0u32, 0u32],
        packed_photon4(photon).vel_padding == [0u32, 0u32, 0u32],
{
    lemma_chart_tag_roundtrip(photon.chart);
    lemma_tangent_space_tag_roundtrip(photon.vel_space);
}

/// Unpacking keeps every coordinate in place whatever the tags: the position comes
/// from the position slots and the velocity from the velocity slots, and the chart
/// and tangent space are the ones whose tags were written.
pub proof fn lemma_unpacking_keeps_coordinates(packed: PackedPhoton4)
    requires
        packed.has_valid_tags(),
    ensures
        unpacked_photon4(packed).pos == packed.pos,
        unpacked_photon4(packed).vel == packed.vel,
        chart_tag(unpacked_photon4(packed).chart) == packed.pos_chart,
        tangent_space_tag(unpacked_photon4(packed).vel_space) == packed.vel_space,
{
    lemma_chart_of_tag_roundtrip(packed.pos_chart);
    lemma_tangent_space_of_tag_roundtrip(packed.vel_space);
}

/// Packing a photon and unpacking it gives the same photon back.
pub proof fn lemma_photon4_pack_roundtrip(photon: Photon4Bits)
    ensures
        packed_photon4(photon).has_valid_tags(),
        unpacked_photon4(packed_photon4(photon)) == photon,
{
    lemma_chart_tag_roundtrip(photon.chart);
    lemma_tangent_space_tag_roundtrip(photon.vel_space);
}

/// Unpacking a packed photon with valid tags and zero padding, then packing it
/// again, gives the same packed photon back.
pub proof fn lemma_photon4_unpack_roundtrip(packed: PackedPhoton4)
    requires
        packed.has_valid_tags(),
        packed.pos_padding == [0u32, 0u32, 0u32],
        packed.vel_padding == [0u32, 0u32, 0u32],
    ensures
        packed_photon4(unpacked_photon4(packed)) == packed,
{
    lemma_chart_of_tag_roundtrip(packed.pos_chart);
    lemma_tangent_space_of_tag_roundtrip(packed.vel_space);
}

/// Packs a batch of photons for the GPU kernel, in order.
pub fn pack_photons(rays: &[Photon4Bits]) -> (packed: Vec<PackedPhoton4>)
    ensures
        packed@.len() == rays@.len(),
        forall|i: int| 0 <= i < rays@.len() ==> #[trigger] packed@[i] == packed_photon4(rays@[i]),
        forall|i: int|
            0 <= i < rays@.len() ==> {
                &&& (#[trigger] packed@[i]).pos == rays@[i].pos
                &&& packed@[i].vel == rays@[i].vel
                &&& packed@[i].pos_chart == chart_tag(rays@[i].chart)
                &&& packed@[i].vel_space == tangent_space_tag(rays@[i].vel_space)
            },
{
    let mut packed: Vec<PackedPhoton4> = Vec::new();
    let mut i: usize = 0;
    while i < rays.len()
        invariant
            i <= rays@.len(),
            packed@.len() == i,
            forall|j: int| 0 <= j < i ==> #[trigger] packed@[j] == packed_photon4(rays@[j]),
        decreases rays@.len() - i,
    {
        packed.push(PackedPhoton4::from_photon(rays[i]));
        i = i + 1;
    }
    packed
}

/// Decodes the results written by the GPU kernel, in order. Every record must
/// carry valid tags: the kernel writes no others.
pub fn decode_results(packed: &[PackedRayResult]) -> (results: Vec<GpuRayResult>)
    requires
        forall|i: int| 0 <= i < packed@.len() ==> (#[trigger] packed@[i]).has_valid_tags(),
    ensures
        results@.len() == packed@.len(),
        forall|i: int|
            0 <= i < packed@.len() ==> {
                &&& (#[trigger] results@[i]).photon == unpacked_photon4(packed@[i].photon)
                &&& results@[i].stop_reason == stop_reason_of_tag(packed@[i].stop_reason)
            },
        forall|i: int|
            0 <= i < packed@.len() ==> {
                &&& (#[trigger] results@[i]).photon.pos == packed@[i].photon.pos
                &&& results@[i].photon.vel == packed@[i].photon.vel
                &&& chart_tag(results@[i].photon.chart) == packed@[i].photon.pos_chart
                &&& tangent_space_tag(results@[i].photon.vel_space) == packed@[i].photon.vel_space
                &&& stop_reason_tag(results@[i].stop_reason) == packed@[i].stop_reason
            },
{
    let mut results: Vec<GpuRayResult> = Vec::new();
    let mut i: usize = 0;
    while i < packed.len()
        invariant
            i <= packed@.len(),
            results@.len() == i,
            forall|j: int| 0 <= j < packed@.len() ==> (#[trigger] packed@[j]).has_valid_tags(),
            forall|j: int|
                0 <= j < i ==> {
                    &&& (#[trigger] results@[j]).photon == unpacked_photon4(packed@[j].photon)
                    &&& results@[j].stop_reason == stop_reason_of_tag(packed@[j].stop_reason)
                },
        decreases packed@.len() - i,
    {
        results.push(GpuRayResult::from_packed(packed[i]));
        i = i + 1;
    }
    results
}

/// Number of compute workgroups the kernel is dispatched with for `n_rays` rays:
/// one invocation per ray, `WORKGROUP_SIZE` invocations per workgroup, rounded up.
pub fn workgroup_count(n_rays: u32) -> (count: u32)
    ensures
        count == (n_rays as int + WORKGROUP_SIZE - 1) / WORKGROUP_SIZE as int,
        count as int * WORKGROUP_SIZE >= n_rays,
        (count as int - 1) * WORKGROUP_SIZE < n_rays || count == 0,
{
    let whole = n_rays / WORKGROUP_SIZE;
    if n_rays % WORKGROUP_SIZE == 0 {
        whole
    } else {
        whole + 1
    }
}

} // verus!
