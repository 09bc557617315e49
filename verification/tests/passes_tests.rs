use pbr_pipeline::passes::cubemap_copy_plan;
use pbr_pipeline::passes::cubemap_face_passes;
use pbr_pipeline::passes::frame_pass_plan;
use pbr_pipeline::passes::specular_prefilter_levels;
use pbr_pipeline::passes::FaceCopy;
use pbr_pipeline::passes::LoadOp;
use pbr_pipeline::passes::ENVIRONMENT_FACE_SIZE;
use pbr_pipeline::passes::IRRADIANCE_FACE_SIZE;

#[test]
fn six_face_passes_at_the_requested_size() {
    let plan = cubemap_face_passes(ENVIRONMENT_FACE_SIZE);
    assert_eq!(plan.len(), 6);
    for (i, pass) in plan.iter().enumerate() {
        assert_eq!(pass.face as usize, i);
        assert_eq!(pass.width, 512);
        assert_eq!(pass.height, 512);
    }
    let small = cubemap_face_passes(IRRADIANCE_FACE_SIZE);
    assert_eq!(small[5].width, 32);
}

#[test]
fn copy_plan_for_a_single_mip_level() {
    let plan = cubemap_copy_plan(1);
    assert_eq!(plan.len(), 6);
    for k in 0..6usize {
        assert_eq!(
            plan[k],
            FaceCopy { src_index: k, mip_level: 0, layer: k as u32 }
        );
    }
}

#[test]
fn copy_plan_walks_mips_then_faces() {
    let plan = cubemap_copy_plan(3);
    assert_eq!(plan.len(), 18);
    assert_eq!(plan[0], FaceCopy { src_index: 0, mip_level: 0, layer: 0 });
    assert_eq!(plan[5], FaceCopy { src_index: 5, mip_level: 0, layer: 5 });
    assert_eq!(plan[6], FaceCopy { src_index: 6, mip_level: 1, layer: 0 });
    assert_eq!(plan[7], FaceCopy { src_index: 7, mip_level: 1, layer: 1 });
    assert_eq!(plan[17], FaceCopy { src_index: 17, mip_level: 2, layer: 5 });
}

#[test]
fn prefilter_levels_halve_size_and_step_roughness() {
    let plan = specular_prefilter_levels(128, 5);
    assert_eq!(plan.len(), 5);
    let sizes: Vec<u32> = plan.iter().map(|l| l.size).collect();
    assert_eq!(sizes, vec![128, 64, 32, 16, 8]);
    for (m, level) in plan.iter().enumerate() {
        assert_eq!(level.level as usize, m);
        assert_eq!(level.roughness_num as usize, m);
        assert_eq!(level.roughness_den, 4);
    }
    // The first level is perfectly smooth, the last fully rough.
    assert_eq!(plan[0].roughness_num, 0);
    assert_eq!(plan[4].roughness_num, plan[4].roughness_den);
}

#[test]
fn frame_opens_with_a_clearing_pass() {
    let plan = frame_pass_plan(3);
    assert_eq!(plan.len(), 4);
    assert_eq!(plan[0].color_load, LoadOp::Clear);
    assert_eq!(plan[0].depth_load, LoadOp::Clear);
    for pass in &plan[1..] {
        assert_eq!(pass.color_load, LoadOp::Load);
        assert_eq!(pass.depth_load, LoadOp::Load);
    }
}

#[test]
fn empty_frame_still_clears() {
    let plan = frame_pass_plan(0);
    assert_eq!(plan.len(), 1);
    assert_eq!(plan[0].color_load, LoadOp::Clear);
}
