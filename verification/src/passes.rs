//! Render-pass and copy schedules of the cubemap pipeline and the frame
//! loop.
//!
//! Converting the environment map, convolving it and presenting a frame
//! all follow fixed schedules: six passes render the cube once per face,
//! the rendered face textures are copied layer by layer (and mip by mip)
//! into the cubemap, the specular prefilter renders one mip level per
//! roughness step, and a frame opens with a clearing pass followed by
//! one loading pass per object.  The planners here compute those
//! schedules exactly.

use vstd::prelude::*;

verus! {

/// Face size, in pixels, at which the environment cubemap is rendered
/// from the equirectangular source.
pub const ENVIRONMENT_FACE_SIZE: u32 = 512;

/// Face size, in pixels, of the convolved diffuse irradiance cubemap.
pub const IRRADIANCE_FACE_SIZE: u32 = 32;

/// One render pass that draws the unit cube onto a fresh square
/// framebuffer for one cubemap face.
#[derive(Clone, Copy, PartialEq, Eq, Structural, Debug)]
pub struct FacePass {
    /// The face being rendered; also the index of the camera
    /// orientation to use.
    pub face: u32,
    pub width: u32,
    pub height: u32,
}

/// The six passes that render a cubemap whose faces are squares of
/// `size` pixels, in face order.
pub fn cubemap_face_passes(size: u32) -> (plan: Vec<FacePass>)
    ensures
        plan@.len() == 6,
        forall|i: int|
            0 <= i < 6 ==> #[trigger] plan@[i] == (FacePass {
                face: i as u32,
                width: size,
                height: size,
            }),
{
    let mut plan: Vec<FacePass> = Vec::new();
    let mut face: u32 = 0;
    while face < 6
        invariant
            face <= 6,
            plan@.len() == face,
            forall|i: int|
                0 <= i < face ==> #[trigger] plan@[i] == (FacePass {
                    face: i as u32,
                    width: size,
                    height: size,
                }),
        decreases 6 - face,
    {
        plan.push(FacePass { face, width: size, height: size });
        face = face + 1;
    }
    plan
}

/// One copy from a rendered face texture into the cubemap: source `k`
/// of the face-texture list lands in mip level `k / 6`, layer `k % 6`.
#[derive(Clone, Copy, PartialEq, Eq, Structural, Debug)]
pub struct FaceCopy {
    /// Index into the list of rendered face textures.
    pub src_index: usize,
    /// Destination mip level of the cubemap.
    pub mip_level: u32,
    /// Destination array layer (face) of the cubemap.
    pub layer: u32,
}

/// The copy schedule that assembles a cubemap with `mip_levels` mip
/// levels from a flat list of face textures: mip level by mip level,
/// and within each level face by face.
pub fn cubemap_copy_plan(mip_levels: u32) -> (plan: Vec<FaceCopy>)
    requires
        6 * mip_levels <= usize::MAX,
    ensures
        plan@.len() == 6 * mip_levels,
        forall|k: int|
            0 <= k < plan@.len() ==> #[trigger] plan@[k] == (FaceCopy {
                src_index: k as usize,
                mip_level: (k / 6) as u32,
                layer: (k % 6) as u32,
            }),
{
    let mut plan: Vec<FaceCopy> = Vec::new();
    let mut mip: u32 = 0;
    while mip < mip_levels
        invariant
            mip <= mip_levels,
            6 * mip_levels <= usize::MAX,
            plan@.len() == 6 * mip,
            forall|k: int|
                0 <= k < plan@.len() ==> #[trigger] plan@[k] == (FaceCopy {
                    src_index: k as usize,
                    mip_level: (k / 6) as u32,
                    layer: (k % 6) as u32,
                }),
        decreases mip_levels - mip,
    {
        let mut face: u32 = 0;
        while face < 6
            invariant
                mip < mip_levels,
                face <= 6,
                6 * mip_levels <= usize::MAX,
                plan@.len() == 6 * mip + face,
                forall|k: int|
                    0 <= k < plan@.len() ==> #[trigger] plan@[k] == (FaceCopy {
                        src_index: k as usize,
                        mip_level: (k / 6) as u32,
                        layer: (k % 6) as u32,
                    }),
            decreases 6 - face,
        {
            let src_index: usize = plan.len();
            plan.push(FaceCopy { src_index, mip_level: mip, layer: face });
            proof {
                assert((6 * mip + face) / 6 == mip);
                assert((6 * mip + face) % 6 == face);
            }
            face = face + 1;
        }
        mip = mip + 1;
    }
    plan
}

/// One level of the roughness-prefiltered specular cubemap: the mip
/// level it fills, the face size of that level, and the roughness
/// uniform for that level as the exact fraction `level / (levels - 1)`.
#[derive(Clone, Copy, PartialEq, Eq, Structural, Debug)]
pub struct PrefilterLevel {
    pub level: u32,
    /// Face size of this mip level: the base size halved `level` times.
    pub size: u32,
    /// Numerator of the roughness fraction.
    pub roughness_num: u32,
    /// Denominator of the roughness fraction.
    pub roughness_den: u32,
}

/// The prefilter schedule for a specular cubemap of `mip_count` mip
/// levels over a base face size: level `m` renders at the base size
/// halved `m` times with roughness `m / (mip_count - 1)`, so the first
/// level is perfectly smooth and the last fully rough.
pub fn specular_prefilter_levels(base_size: u32, mip_count: u32) -> (plan: Vec<PrefilterLevel>)
    requires
        2 <= mip_count <= 32,
    ensures
        plan@.len() == mip_count,
        forall|m: int|
            0 <= m < mip_count ==> #[trigger] plan@[m] == (PrefilterLevel {
                level: m as u32,
                size: base_size >> (m as u32),
                roughness_num: m as u32,
                roughness_den: (mip_count - 1) as u32,
            }),
{
    let mut plan: Vec<PrefilterLevel> = Vec::new();
    let mut level: u32 = 0;
    while level < mip_count
        invariant
            level <= mip_count,
            2 <= mip_count <= 32,
            plan@.len() == level,
            forall|m: int|
                0 <= m < level ==> #[trigger] plan@[m] == (PrefilterLevel {
                    level: m as u32,
                    size: base_size >> (m as u32),
                    roughness_num: m as u32,
                    roughness_den: (mip_count - 1) as u32,
                }),
        decreases mip_count - level,
    {
        plan.push(
            PrefilterLevel {
                level,
                size: base_size >> level,
                roughness_num: level,
                roughness_den: mip_count - 1,
            },
        );
        level = level + 1;
    }
    plan
}

/// How a render pass treats the previous contents of an attachment.
#[derive(Clone, Copy, PartialEq, Eq, Structural, Debug)]
pub enum LoadOp {
    /// Clear the attachment before drawing.
    Clear,
    /// Keep what earlier passes drew.
    Load,
}

/// The attachment policy of one pass of a frame.
#[derive(Clone, Copy, PartialEq, Eq, Structural, Debug)]
pub struct FramePass {
    pub color_load: LoadOp,
    pub depth_load: LoadOp,
}

/// The passes of one frame over `renderable_count` objects: an opening
/// pass clears colour and depth, then each object is drawn in a pass
/// that keeps what earlier passes drew.
pub fn frame_pass_plan(renderable_count: usize) -> (plan: Vec<FramePass>)
    requires
        renderable_count < usize::MAX,
    ensures
        plan@.len() == renderable_count + 1,
        plan@[0] == (FramePass { color_load: LoadOp::Clear, depth_load: LoadOp::Clear }),
        forall|i: int|
            1 <= i <= renderable_count ==> #[trigger] plan@[i] == (FramePass {
                color_load: LoadOp::Load,
                depth_load: LoadOp::Load,
            }),
{
    let mut plan: Vec<FramePass> = Vec::new();
    plan.push(FramePass { color_load: LoadOp::Clear, depth_load: LoadOp::Clear });
    let mut i: usize = 0;
    while i < renderable_count
        invariant
            i <= renderable_count,
            renderable_count < usize::MAX,
            plan@.len() == i + 1,
            plan@[0] == (FramePass { color_load: LoadOp::Clear, depth_load: LoadOp::Clear }),
            forall|j: int|
                1 <= j <= i ==> #[trigger] plan@[j] == (FramePass {
                    color_load: LoadOp::Load,
                    depth_load: LoadOp::Load,
                }),
        decreases renderable_count - i,
    {
        plan.push(FramePass { color_load: LoadOp::Load, depth_load: LoadOp::Load });
        i = i + 1;
    }
    plan
}

} // verus!
