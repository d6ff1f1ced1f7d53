use gr_raytracer::geometry::manifold::Chart;
use gr_raytracer::geometry::vector::TangentSpace;
use gr_raytracer::graphics::gpu::{
    chart_from_u32, chart_to_u32, decode_results, pack_photons, stop_reason_from_u32,
    tangent_space_from_u32, tangent_space_to_u32, workgroup_count, GpuRayResult, PackedPhoton4,
    PackedRayResult, Photon4Bits,
};
use gr_raytracer::graphics::ray::StopReason;
use gr_raytracer::integrator::gpu::packed_types::{
    PackedPhoton3, CHART_CARTESIAN_WORLD, TANGENT_CARTESIAN_WORLD,
};

const CHARTS: [Chart; 4] = [Chart::CartesianWorld, Chart::Cartesian, Chart::SphericalZ, Chart::SphericalX];
const SPACES: [TangentSpace; 4] = [
    TangentSpace::Cartesian,
    TangentSpace::CartesianWorld,
    TangentSpace::SphericalZ,
    TangentSpace::SphericalX,
];

#[test]
fn chart_tags_are_the_kernel_numbering() {
    assert_eq!(chart_to_u32(Chart::CartesianWorld), 0);
    assert_eq!(chart_to_u32(Chart::Cartesian), 1);
    assert_eq!(chart_to_u32(Chart::SphericalZ), 2);
    assert_eq!(chart_to_u32(Chart::SphericalX), 3);
    assert_eq!(chart_from_u32(0), Chart::CartesianWorld);
    assert_eq!(chart_from_u32(3), Chart::SphericalX);
}

#[test]
fn chart_tags_round_trip() {
    for chart in CHARTS {
        assert_eq!(chart_from_u32(chart_to_u32(chart)), chart);
    }
    for value in 0..4u32 {
        assert_eq!(chart_to_u32(chart_from_u32(value)), value);
    }
}

#[test]
fn tangent_space_tags_are_the_kernel_numbering() {
    assert_eq!(tangent_space_to_u32(TangentSpace::Cartesian), 0);
    assert_eq!(tangent_space_to_u32(TangentSpace::CartesianWorld), 1);
    assert_eq!(tangent_space_to_u32(TangentSpace::SphericalZ), 2);
    assert_eq!(tangent_space_to_u32(TangentSpace::SphericalX), 3);
    assert_eq!(tangent_space_from_u32(1), TangentSpace::CartesianWorld);
}

#[test]
fn tangent_space_tags_round_trip() {
    for space in SPACES {
        assert_eq!(tangent_space_from_u32(tangent_space_to_u32(space)), space);
    }
    for value in 0..4u32 {
        assert_eq!(tangent_space_to_u32(tangent_space_from_u32(value)), value);
    }
}

#[test]
fn stop_reason_tags_decode_to_distinct_reasons() {
    assert_eq!(stop_reason_from_u32(0), StopReason::MaxStepsReached);
    assert_eq!(stop_reason_from_u32(1), StopReason::BackgroundReached);
    assert_eq!(stop_reason_from_u32(2), StopReason::ObjectHit);
    assert_eq!(stop_reason_from_u32(3), StopReason::HorizonHit);
}

fn sample_photon(chart: Chart, vel_space: TangentSpace) -> Photon4Bits {
    Photon4Bits {
        pos: [0.0f32.to_bits(), 1.5f32.to_bits(), 0.25f32.to_bits(), 3.0f32.to_bits()],
        chart,
        vel: [1.0f32.to_bits(), (-0.5f32).to_bits(), 0.0f32.to_bits(), 2.0f32.to_bits()],
        vel_space,
    }
}

#[test]
fn packing_a_photon_tags_its_chart_and_space() {
    let photon = sample_photon(Chart::SphericalX, TangentSpace::CartesianWorld);
    let packed = PackedPhoton4::from_photon(photon);
    assert_eq!(packed.pos, photon.pos);
    assert_eq!(packed.vel, photon.vel);
    assert_eq!(packed.pos_chart, 3);
    assert_eq!(packed.vel_space, 1);
    assert_eq!(packed.pos_padding, [0, 0, 0]);
    assert_eq!(packed.vel_padding, [0, 0, 0]);
}

#[test]
fn packed_photons_round_trip() {
    for chart in CHARTS {
        for space in SPACES {
            let photon = sample_photon(chart, space);
            assert_eq!(PackedPhoton4::from_photon(photon).to_photon(), photon);
        }
    }
}

#[test]
fn a_batch_is_packed_in_order() {
    let rays = vec![
        sample_photon(Chart::Cartesian, TangentSpace::Cartesian),
        sample_photon(Chart::SphericalZ, TangentSpace::SphericalZ),
    ];
    let packed = pack_photons(&rays);
    assert_eq!(packed.len(), 2);
    assert_eq!(packed[0].pos_chart, 1);
    assert_eq!(packed[1].pos_chart, 2);
    assert_eq!(packed[1].vel_space, 2);
    assert!(pack_photons(&[]).is_empty());
}

#[test]
fn kernel_results_are_decoded_in_order() {
    let first = PackedRayResult {
        photon: PackedPhoton4::from_photon(sample_photon(Chart::SphericalZ, TangentSpace::SphericalZ)),
        stop_reason: 3,
        padding: [0, 0, 0],
    };
    let second = PackedRayResult {
        photon: PackedPhoton4::from_photon(sample_photon(Chart::CartesianWorld, TangentSpace::CartesianWorld)),
        stop_reason: 1,
        padding: [0, 0, 0],
    };
    let results = decode_results(&[first, second]);
    assert_eq!(results.len(), 2);
    assert_eq!(
        results[0],
        GpuRayResult {
            photon: sample_photon(Chart::SphericalZ, TangentSpace::SphericalZ),
            stop_reason: StopReason::HorizonHit,
        }
    );
    assert_eq!(results[1].stop_reason, StopReason::BackgroundReached);
    assert_eq!(results[1].photon.chart, Chart::CartesianWorld);
}

#[test]
fn workgroups_cover_every_ray() {
    assert_eq!(workgroup_count(0), 0);
    assert_eq!(workgroup_count(1), 1);
    assert_eq!(workgroup_count(64), 1);
    assert_eq!(workgroup_count(65), 2);
    assert_eq!(workgroup_count(1422 * 800), 17775);
    assert_eq!(workgroup_count(u32::MAX), 67108864);
}

#[test]
fn world_photons_carry_world_tags() {
    let pos = [1.0f32.to_bits(), 2.0f32.to_bits(), 3.0f32.to_bits()];
    let vel = [0.0f32.to_bits(), 0.0f32.to_bits(), 1.0f32.to_bits()];
    let packed = PackedPhoton3::from_world(pos, vel);
    assert_eq!(packed.pos_chart, CHART_CARTESIAN_WORLD);
    assert_eq!(packed.vel_space, TANGENT_CARTESIAN_WORLD);
    assert_eq!(packed.to_world(), (pos, vel));
}

#[test]
fn charts_induce_their_own_tangent_spaces() {
    assert_eq!(TangentSpace::of_chart(Chart::CartesianWorld), TangentSpace::CartesianWorld);
    assert_eq!(TangentSpace::of_chart(Chart::Cartesian), TangentSpace::Cartesian);
    assert_eq!(TangentSpace::of_chart(Chart::SphericalZ), TangentSpace::SphericalZ);
    assert_eq!(TangentSpace::of_chart(Chart::SphericalX), TangentSpace::SphericalX);
    for chart in CHARTS {
        assert_eq!(TangentSpace::of_chart(chart).chart(), chart);
    }
    for space in SPACES {
        assert_eq!(TangentSpace::of_chart(space.chart()), space);
    }
}

#[test]
fn chart_and_tangent_tags_differ_for_the_cartesian_pair() {
    // the kernel numbers the world chart first but the world tangent space second
    assert_eq!(chart_to_u32(Chart::CartesianWorld), 0);
    assert_eq!(tangent_space_to_u32(TangentSpace::of_chart(Chart::CartesianWorld)), 1);
}
