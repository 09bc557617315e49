//! Generic bind-group layout builders.
//!
//! Materials that bind a plain list of textures (the equirectangular
//! conversion, the convolution passes, the skybox) interleave one
//! sampled-texture entry and one sampler entry per texture; uniform
//! data always occupies binding 0 of its own group.

use vstd::prelude::*;

use crate::material::BindingKind;
use crate::material::LayoutEntry;
use crate::material::TextureShape;

verus! {

/// Layout entries for a list of textures: texture `i` is sampled at
/// binding `2 i` and its sampler sits at binding `2 i + 1`.
pub fn texture_pair_entries(shapes: &Vec<TextureShape>) -> (entries: Vec<LayoutEntry>)
    requires
        2 * shapes@.len() <= u32::MAX,
    ensures
        entries@.len() == 2 * shapes@.len(),
        forall|i: int|
            0 <= i < shapes@.len() ==> {
                &&& entries@[2 * i] == (LayoutEntry {
                    binding: (2 * i) as u32,
                    kind: BindingKind::SampledTexture { shape: #[trigger] shapes@[i] },
                })
                &&& entries@[2 * i + 1] == (LayoutEntry {
                    binding: (2 * i + 1) as u32,
                    kind: BindingKind::Sampler,
                })
            },
{
    let mut entries: Vec<LayoutEntry> = Vec::new();
    let mut i: usize = 0;
    while i < shapes.len()
        invariant
            i <= shapes@.len(),
            2 * shapes@.len() <= u32::MAX,
            entries@.len() == 2 * i,
            forall|j: int|
                0 <= j < i ==> {
                    &&& entries@[2 * j] == (LayoutEntry {
                        binding: (2 * j) as u32,
                        kind: BindingKind::SampledTexture { shape: #[trigger] shapes@[j] },
                    })
                    &&& entries@[2 * j + 1] == (LayoutEntry {
                        binding: (2 * j + 1) as u32,
                        kind: BindingKind::Sampler,
                    })
                },
        decreases shapes@.len() - i,
    {
        let binding: u32 = (2 * i) as u32;
        entries.push(
            LayoutEntry {
                binding,
                kind: BindingKind::SampledTexture { shape: shapes[i] },
            },
        );
        entries.push(LayoutEntry { binding: binding + 1, kind: BindingKind::Sampler });
        i = i + 1;
    }
    entries
}

/// The layout of a bind group that carries one uniform buffer: a single
/// entry at binding 0.
pub fn uniform_buffer_entries() -> (entries: Vec<LayoutEntry>)
    ensures
        entries@ == seq![LayoutEntry { binding: 0, kind: BindingKind::UniformBuffer }],
{
    let mut entries: Vec<LayoutEntry> = Vec::new();
    entries.push(LayoutEntry { binding: 0, kind: BindingKind::UniformBuffer });
    proof {
        assert(entries@ =~= seq![LayoutEntry { binding: 0, kind: BindingKind::UniformBuffer }]);
    }
    entries
}

} // verus!
