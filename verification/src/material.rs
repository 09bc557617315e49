//! Dynamic PBR material assembly.
//!
//! A material is described by five named property slots (ambient
//! occlusion, albedo, emissive, metal-roughness, normal), each backed
//! either by a texture in the material's texture list or by a constant
//! four-component factor.  Assembly resolves the slots once, producing:
//!
//! * the constant factors packed into one uniform buffer, in slot order;
//! * a texture bind-group layout that starts with the three fixed
//!   image-based-lighting textures (irradiance cubemap, prefiltered
//!   environment cubemap, BRDF lookup table), each as a texture/sampler
//!   pair, followed by one texture/sampler pair per texture-backed slot;
//! * the resource bound at every binding index;
//! * one `#define` line per texture-backed slot naming the binding index
//!   of its texture.
//!
//! The central invariant, [`consistent`], is that binding indices are
//! assigned in iteration order and that every generated define names a
//! sampled-texture binding whose successor is the matching sampler —
//! the shader text and the layout are built from the same iteration and
//! can never disagree.

use vstd::prelude::*;

use crate::shader_text::define_line;
use crate::shader_text::render_define_line;

verus! {

/// Which image a sampled-texture binding expects.
#[derive(Clone, Copy, PartialEq, Eq, Structural, Debug)]
pub enum TextureShape {
    /// A two-dimensional image.
    D2,
    /// A six-face cube image.
    Cube,
}

/// The type of one bind-group layout entry.
#[derive(Clone, Copy, PartialEq, Eq, Structural, Debug)]
pub enum BindingKind {
    /// A sampled texture of the given shape.
    SampledTexture { shape: TextureShape },
    /// A sampler.
    Sampler,
    /// A uniform buffer.
    UniformBuffer,
}

/// One entry of a bind-group layout: a binding index and what is bound
/// there.
#[derive(Clone, Copy, PartialEq, Eq, Structural, Debug)]
pub struct LayoutEntry {
    pub binding: u32,
    pub kind: BindingKind,
}

/// A texture the material can reference.
#[derive(Clone, Copy, PartialEq, Eq, Structural, Debug)]
pub enum TextureRef {
    /// The diffuse irradiance cubemap.
    Irradiance,
    /// The roughness-prefiltered environment cubemap.
    PrefilteredEnvironment,
    /// The BRDF lookup table.
    BrdfLut,
    /// Texture at the given index of the material's texture list.
    Material(usize),
}

/// The resource attached at one binding index.
#[derive(Clone, Copy, PartialEq, Eq, Structural, Debug)]
pub enum BoundResource {
    /// The view of a texture.
    View(TextureRef),
    /// The sampler of a texture.
    Sampler(TextureRef),
}

/// One binding of the texture bind group.
#[derive(Clone, Copy, PartialEq, Eq, Structural, Debug)]
pub struct Binding {
    pub binding: u32,
    pub resource: BoundResource,
}

/// The bit patterns of the four float components of a constant factor.
#[derive(Clone, Copy, PartialEq, Eq, Structural, Debug)]
pub struct FactorBits {
    pub r: u32,
    pub g: u32,
    pub b: u32,
    pub a: u32,
}

impl FactorBits {
    /// The all-zero factor, used as filler when no slot is
    /// constant-backed (a uniform buffer may not be empty).
    pub fn zero() -> (f: FactorBits)
        ensures
            f == (FactorBits { r: 0, g: 0, b: 0, a: 0 }),
    {
        FactorBits { r: 0, g: 0, b: 0, a: 0 }
    }
}

/// A PBR input slot: backed by a texture of the material's texture list,
/// or by a constant factor.  When a texture id is present it wins; a
/// slot without either backing is not well formed.
#[derive(Clone, Copy)]
pub struct MaterialProperty {
    pub factor: Option<FactorBits>,
    pub texture_id: Option<usize>,
}

impl MaterialProperty {
    /// Every slot must be backed by a texture or by a factor.
    pub open spec fn wf(self) -> bool {
        self.texture_id is Some || self.factor is Some
    }

    /// A slot backed by a texture.
    pub fn from_texture(texture_id: usize) -> (p: MaterialProperty)
        ensures
            p.texture_id == Some(texture_id),
            p.factor is None,
            p.wf(),
    {
        MaterialProperty { factor: None, texture_id: Some(texture_id) }
    }

    /// A slot backed by a constant factor.
    pub fn from_factor(factor: FactorBits) -> (p: MaterialProperty)
        ensures
            p.factor == Some(factor),
            p.texture_id is None,
            p.wf(),
    {
        MaterialProperty { factor: Some(factor), texture_id: None }
    }
}

/// The five property slots, in the order the assembly iterates them.
#[derive(Clone, Copy, PartialEq, Eq, Structural, Debug)]
pub enum SlotKind {
    AmbientOcclusion,
    Albedo,
    Emissive,
    MetalRoughness,
    Normal,
}

impl SlotKind {
    /// The name under which the slot appears in the shader defines.
    pub open spec fn spec_name(self) -> Seq<char> {
        match self {
            SlotKind::AmbientOcclusion => "AO"@,
            SlotKind::Albedo => "ALBEDO"@,
            SlotKind::Emissive => "EMISSIVE"@,
            SlotKind::MetalRoughness => "METAL_ROUGHNESS"@,
            SlotKind::Normal => "NORMAL"@,
        }
    }

    /// The slot's name in the shader defines.
    pub fn name(self) -> (r: &'static str)
        ensures
            r@ == self.spec_name(),
    {
        match self {
            SlotKind::AmbientOcclusion => "AO",
            SlotKind::Albedo => "ALBEDO",
            SlotKind::Emissive => "EMISSIVE",
            SlotKind::MetalRoughness => "METAL_ROUGHNESS",
            SlotKind::Normal => "NORMAL",
        }
    }
}

/// One named property slot.
#[derive(Clone, Copy)]
pub struct PbrSlot {
    pub kind: SlotKind,
    pub property: MaterialProperty,
}

/// The define generated for one texture-backed slot: the slot's name and
/// the binding index of its texture.
#[derive(Clone, Copy, PartialEq, Eq, Structural, Debug)]
pub struct SlotDefine {
    pub kind: SlotKind,
    pub binding: u32,
}

/// Number of fixed bindings that precede the per-slot textures: three
/// image-based-lighting textures, each a texture/sampler pair.
pub open spec fn ibl_binding_count() -> int {
    6
}

/// The texture-backed slots of `slots`, in slot order, each with its
/// texture id.
pub open spec fn texture_backed(slots: Seq<PbrSlot>) -> Seq<(SlotKind, usize)>
    decreases slots.len(),
{
    if slots.len() == 0 {
        Seq::empty()
    } else {
        let rest = texture_backed(slots.drop_last());
        let s = slots.last();
        if s.property.texture_id is Some {
            rest.push((s.kind, s.property.texture_id->0))
        } else {
            rest
        }
    }
}

/// The constant factors of the factor-backed slots of `slots`, in slot
/// order.
pub open spec fn packed_factors(slots: Seq<PbrSlot>) -> Seq<FactorBits>
    decreases slots.len(),
{
    if slots.len() == 0 {
        Seq::empty()
    } else {
        let rest = packed_factors(slots.drop_last());
        let s = slots.last();
        if s.property.texture_id is Some {
            rest
        } else {
            rest.push(s.property.factor->0)
        }
    }
}

/// Every slot is resolved to exactly one backing, so the texture-backed
/// and the factor-backed slots together account for all slots.
pub proof fn lemma_slot_partition(slots: Seq<PbrSlot>)
    ensures
        texture_backed(slots).len() + packed_factors(slots).len() == slots.len(),
        texture_backed(slots).len() <= slots.len(),
        packed_factors(slots).len() <= slots.len(),
    decreases slots.len(),
{
    if slots.len() > 0 {
        lemma_slot_partition(slots.drop_last());
    }
}

/// The rendered define preamble for a list of slot defines.
pub open spec fn defines_rep(ds: Seq<SlotDefine>) -> Seq<char>
    decreases ds.len(),
{
    if ds.len() == 0 {
        Seq::empty()
    } else {
        defines_rep(ds.drop_last()) + define_line(
            ds.last().kind.spec_name(),
            ds.last().binding as nat,
        )
    }
}

/// Everything the assembly produces for one material.
pub struct PbrLayout {
    /// Constant factors packed into the factor uniform buffer.
    pub factors: Vec<FactorBits>,
    /// The texture bind-group layout.
    pub entries: Vec<LayoutEntry>,
    /// The resource bound at each binding index.
    pub bindings: Vec<Binding>,
    /// One define per texture-backed slot.
    pub defines: Vec<SlotDefine>,
    /// The rendered define preamble.
    pub defines_text: String,
}

impl PbrLayout {
    /// The invariant of the assembly: binding indices equal their
    /// position in the layout, the layout and the bound resources agree,
    /// and every define names a sampled-texture binding directly
    /// followed by its sampler.  Because the shader's defines and the
    /// layout are generated by the same iteration, the indices in the
    /// shader text always match the layout.
    pub open spec fn consistent(self) -> bool {
        &&& self.entries@.len() == self.bindings@.len()
        &&& forall|i: int|
            0 <= i < self.entries@.len() ==> (#[trigger] self.entries@[i]).binding == i
        &&& forall|i: int|
            0 <= i < self.bindings@.len() ==> (#[trigger] self.bindings@[i]).binding == i
        &&& forall|j: int|
            0 <= j < self.defines@.len() ==> {
                let b = (#[trigger] self.defines@[j]).binding as int;
                &&& b + 1 < self.entries@.len()
                &&& self.entries@[b].kind is SampledTexture
                &&& self.entries@[b + 1].kind is Sampler
                &&& self.bindings@[b].resource is View
                &&& self.bindings@[b + 1].resource is Sampler
            }
    }
}

/// The six fixed image-based-lighting layout entries.
pub open spec fn ibl_entries_rep() -> Seq<LayoutEntry> {
    seq![
        LayoutEntry { binding: 0, kind: BindingKind::SampledTexture { shape: TextureShape::Cube } },
        LayoutEntry { binding: 1, kind: BindingKind::Sampler },
        LayoutEntry { binding: 2, kind: BindingKind::SampledTexture { shape: TextureShape::Cube } },
        LayoutEntry { binding: 3, kind: BindingKind::Sampler },
        LayoutEntry { binding: 4, kind: BindingKind::SampledTexture { shape: TextureShape::D2 } },
        LayoutEntry { binding: 5, kind: BindingKind::Sampler },
    ]
}

/// The six fixed image-based-lighting bindings.
pub open spec fn ibl_bindings_rep() -> Seq<Binding> {
    seq![
        Binding { binding: 0, resource: BoundResource::View(TextureRef::Irradiance) },
        Binding { binding: 1, resource: BoundResource::Sampler(TextureRef::Irradiance) },
        Binding { binding: 2, resource: BoundResource::View(TextureRef::PrefilteredEnvironment) },
        Binding { binding: 3, resource: BoundResource::Sampler(TextureRef::PrefilteredEnvironment) },
        Binding { binding: 4, resource: BoundResource::View(TextureRef::BrdfLut) },
        Binding { binding: 5, resource: BoundResource::Sampler(TextureRef::BrdfLut) },
    ]
}

/// The fixed image-based-lighting entries that open every texture
/// bind-group layout: cube texture and sampler for the irradiance map,
/// cube texture and sampler for the prefiltered environment map, and a
/// two-dimensional texture and sampler for the BRDF lookup table.
fn ibl_entries() -> (entries: Vec<LayoutEntry>)
    ensures
        entries@ == ibl_entries_rep(),
{
    let mut entries: Vec<LayoutEntry> = Vec::new();
    entries.push(
        LayoutEntry { binding: 0, kind: BindingKind::SampledTexture { shape: TextureShape::Cube } },
    );
    entries.push(LayoutEntry { binding: 1, kind: BindingKind::Sampler });
    entries.push(
        LayoutEntry { binding: 2, kind: BindingKind::SampledTexture { shape: TextureShape::Cube } },
    );
    entries.push(LayoutEntry { binding: 3, kind: BindingKind::Sampler });
    entries.push(
        LayoutEntry { binding: 4, kind: BindingKind::SampledTexture { shape: TextureShape::D2 } },
    );
    entries.push(LayoutEntry { binding: 5, kind: BindingKind::Sampler });
    proof {
        assert(entries@ =~= ibl_entries_rep());
    }
    entries
}

/// The resources bound at the six fixed image-based-lighting bindings.
fn ibl_bindings() -> (bindings: Vec<Binding>)
    ensures
        bindings@ == ibl_bindings_rep(),
{
    let mut bindings: Vec<Binding> = Vec::new();
    bindings.push(Binding { binding: 0, resource: BoundResource::View(TextureRef::Irradiance) });
    bindings.push(Binding { binding: 1, resource: BoundResource::Sampler(TextureRef::Irradiance) });
    bindings.push(
        Binding { binding: 2, resource: BoundResource::View(TextureRef::PrefilteredEnvironment) },
    );
    bindings.push(
        Binding { binding: 3, resource: BoundResource::Sampler(TextureRef::PrefilteredEnvironment) },
    );
    bindings.push(Binding { binding: 4, resource: BoundResource::View(TextureRef::BrdfLut) });
    bindings.push(Binding { binding: 5, resource: BoundResource::Sampler(TextureRef::BrdfLut) });
    proof {
        assert(bindings@ =~= ibl_bindings_rep());
    }
    bindings
}

/// Resolves the property slots of one material into its packed factors,
/// its texture bind-group layout and bindings, and its shader defines.
///
/// Factors keep slot order.  Each texture-backed slot appends a
/// two-dimensional texture entry and a sampler entry after the fixed
/// image-based-lighting pairs, and its define names the texture's
/// binding index.  When no slot is constant-backed, a single zero factor
/// keeps the uniform buffer non-empty.
pub fn assemble_pbr_layout(slots: &Vec<PbrSlot>) -> (layout: PbrLayout)
    requires
        forall|i: int| 0 <= i < slots@.len() ==> (#[trigger] slots@[i]).property.wf(),
        ibl_binding_count() + 2 * slots@.len() <= u32::MAX,
    ensures
        layout.factors@ == if packed_factors(slots@).len() == 0 {
            seq![FactorBits { r: 0, g: 0, b: 0, a: 0 }]
        } else {
            packed_factors(slots@)
        },
        layout.entries@.len() == ibl_binding_count() + 2 * texture_backed(slots@).len(),
        layout.bindings@.len() == layout.entries@.len(),
        layout.entries@.subrange(0, 6) == ibl_entries_rep(),
        layout.bindings@.subrange(0, 6) == ibl_bindings_rep(),
        forall|j: int|
            0 <= j < texture_backed(slots@).len() ==> {
                let (kind, id) = #[trigger] texture_backed(slots@)[j];
                &&& layout.entries@[6 + 2 * j] == (LayoutEntry {
                    binding: (6 + 2 * j) as u32,
                    kind: BindingKind::SampledTexture { shape: TextureShape::D2 },
                })
                &&& layout.entries@[6 + 2 * j + 1] == (LayoutEntry {
                    binding: (6 + 2 * j + 1) as u32,
                    kind: BindingKind::Sampler,
                })
                &&& layout.bindings@[6 + 2 * j] == (Binding {
                    binding: (6 + 2 * j) as u32,
                    resource: BoundResource::View(TextureRef::Material(id)),
                })
                &&& layout.bindings@[6 + 2 * j + 1] == (Binding {
                    binding: (6 + 2 * j + 1) as u32,
                    resource: BoundResource::Sampler(TextureRef::Material(id)),
                })
                &&& layout.defines@[j] == (SlotDefine { kind, binding: (6 + 2 * j) as u32 })
            },
        layout.defines@.len() == texture_backed(slots@).len(),
        layout.defines_text@ == defines_rep(layout.defines@),
        layout.consistent(),
{
    let ghost slots_seq = slots@;
    let mut factors: Vec<FactorBits> = Vec::new();
    let mut entries: Vec<LayoutEntry> = ibl_entries();
    let mut bindings: Vec<Binding> = ibl_bindings();
    let mut defines: Vec<SlotDefine> = Vec::new();
    let mut defines_text: String = String::new();

    let mut idx: usize = 0;
    while idx < slots.len()
        invariant
            slots@ == slots_seq,
            idx <= slots_seq.len(),
            forall|i: int| 0 <= i < slots_seq.len() ==> (#[trigger] slots_seq[i]).property.wf(),
            ibl_binding_count() + 2 * slots_seq.len() <= u32::MAX,
            factors@ == packed_factors(slots_seq.take(idx as int)),
            defines@.len() == texture_backed(slots_seq.take(idx as int)).len(),
            entries@.len() == 6 + 2 * defines@.len(),
            bindings@.len() == entries@.len(),
            entries@.subrange(0, 6) == ibl_entries_rep(),
            bindings@.subrange(0, 6) == ibl_bindings_rep(),
            forall|i: int| 0 <= i < entries@.len() ==> (#[trigger] entries@[i]).binding == i,
            forall|i: int| 0 <= i < bindings@.len() ==> (#[trigger] bindings@[i]).binding == i,
            forall|j: int|
                0 <= j < texture_backed(slots_seq.take(idx as int)).len() ==> {
                    let (kind, id) = #[trigger] texture_backed(slots_seq.take(idx as int))[j];
                    &&& entries@[6 + 2 * j] == (LayoutEntry {
                        binding: (6 + 2 * j) as u32,
                        kind: BindingKind::SampledTexture { shape: TextureShape::D2 },
                    })
                    &&& entries@[6 + 2 * j + 1] == (LayoutEntry {
                        binding: (6 + 2 * j + 1) as u32,
                        kind: BindingKind::Sampler,
                    })
                    &&& bindings@[6 + 2 * j] == (Binding {
                        binding: (6 + 2 * j) as u32,
                        resource: BoundResource::View(TextureRef::Material(id)),
                    })
                    &&& bindings@[6 + 2 * j + 1] == (Binding {
                        binding: (6 + 2 * j + 1) as u32,
                        resource: BoundResource::Sampler(TextureRef::Material(id)),
                    })
                    &&& defines@[j] == (SlotDefine { kind, binding: (6 + 2 * j) as u32 })
                },
            defines_text@ == defines_rep(defines@),
        decreases slots_seq.len() - idx,
    {
        proof {
            assert(slots_seq.take(idx + 1).drop_last() =~= slots_seq.take(idx as int));
            assert(slots_seq.take(idx + 1).last() == slots_seq[idx as int]);
            lemma_slot_partition(slots_seq.take(idx as int));
            lemma_slot_partition(slots_seq.take(idx + 1));
        }
        let slot = slots[idx];
        match slot.property.texture_id {
            None => {
                factors.push(slot.property.factor.unwrap());
            },
            Some(texture_id) => {
                let view_binding: u32 = entries.len() as u32;
                entries.push(
                    LayoutEntry {
                        binding: view_binding,
                        kind: BindingKind::SampledTexture { shape: TextureShape::D2 },
                    },
                );
                entries.push(LayoutEntry { binding: view_binding + 1, kind: BindingKind::Sampler });
                bindings.push(
                    Binding {
                        binding: view_binding,
                        resource: BoundResource::View(TextureRef::Material(texture_id)),
                    },
                );
                bindings.push(
                    Binding {
                        binding: view_binding + 1,
                        resource: BoundResource::Sampler(TextureRef::Material(texture_id)),
                    },
                );
                let ghost old_defines = defines@;
                defines.push(SlotDefine { kind: slot.kind, binding: view_binding });
                let line = render_define_line(slot.kind.name(), view_binding);
                defines_text.append(line.as_str());
                proof {
                    assert(defines@.drop_last() =~= old_defines);
                    assert(entries@.subrange(0, 6) =~= ibl_entries_rep());
                    assert(bindings@.subrange(0, 6) =~= ibl_bindings_rep());
                }
            },
        }
        idx = idx + 1;
    }
    proof {
        assert(slots_seq.take(slots_seq.len() as int) =~= slots_seq);
        lemma_slot_partition(slots_seq);
    }

    if factors.len() == 0 {
        factors.push(FactorBits::zero());
    }

    let layout = PbrLayout { factors, entries, bindings, defines, defines_text };
    proof {
        assert forall|j: int| 0 <= j < layout.defines@.len() implies {
            let b = (#[trigger] layout.defines@[j]).binding as int;
            &&& b + 1 < layout.entries@.len()
            &&& layout.entries@[b].kind is SampledTexture
            &&& layout.entries@[b + 1].kind is Sampler
            &&& layout.bindings@[b].resource is View
            &&& layout.bindings@[b + 1].resource is Sampler
        } by {
            let pair = texture_backed(slots_seq)[j];
        }
        assert(layout.consistent());
    }
    layout
}

/// What a decoded asset offers for one slot: either a texture image
/// that still has to be uploaded, or nothing but the slot's constant
/// fallback factor.
#[derive(Clone, Copy, PartialEq, Eq, Structural, Debug)]
pub struct SlotOffer {
    pub kind: SlotKind,
    /// Whether the asset carries a texture for this slot.
    pub has_texture: bool,
    /// The constant used when no texture is offered.
    pub fallback: FactorBits,
}

/// How many of the first `i` offers carry a texture.
pub open spec fn textured_before(offers: Seq<SlotOffer>, i: int) -> int
    decreases i,
{
    if i <= 0 {
        0
    } else {
        textured_before(offers, i - 1) + if offers[i - 1].has_texture {
            1int
        } else {
            0int
        }
    }
}

/// Resolves the slots a decoded material offers into properties.
///
/// Textures are uploaded in slot order, so a slot with a texture is
/// given the next free index of the texture list — the number of
/// textures already uploaded plus the number of textured slots before
/// it.  A slot without a texture falls back to its constant factor.
/// Also returns the texture count after all uploads.
pub fn resolve_slot_offers(offers: &Vec<SlotOffer>, existing_textures: usize) -> (r: (
    Vec<PbrSlot>,
    usize,
))
    requires
        existing_textures + offers@.len() <= usize::MAX,
    ensures
        r.0@.len() == offers@.len(),
        forall|i: int|
            0 <= i < offers@.len() ==> {
                let offer = #[trigger] offers@[i];
                &&& r.0@[i].kind == offer.kind
                &&& r.0@[i].property.wf()
                &&& (offer.has_texture ==> r.0@[i].property.texture_id == Some(
                    (existing_textures + textured_before(offers@, i)) as usize,
                ))
                &&& (!offer.has_texture ==> r.0@[i].property.texture_id is None
                    && r.0@[i].property.factor == Some(offer.fallback))
            },
        r.1 == existing_textures + textured_before(offers@, offers@.len() as int),
{
    let mut slots: Vec<PbrSlot> = Vec::new();
    let mut next_id: usize = existing_textures;
    let mut i: usize = 0;
    while i < offers.len()
        invariant
            i <= offers@.len(),
            existing_textures + offers@.len() <= usize::MAX,
            next_id == existing_textures + textured_before(offers@, i as int),
            next_id <= existing_textures + i,
            slots@.len() == i,
            forall|j: int|
                0 <= j < i ==> {
                    let offer = #[trigger] offers@[j];
                    &&& slots@[j].kind == offer.kind
                    &&& slots@[j].property.wf()
                    &&& (offer.has_texture ==> slots@[j].property.texture_id == Some(
                        (existing_textures + textured_before(offers@, j)) as usize,
                    ))
                    &&& (!offer.has_texture ==> slots@[j].property.texture_id is None
                        && slots@[j].property.factor == Some(offer.fallback))
                },
        decreases offers@.len() - i,
    {
        proof {
            lemma_textured_before_bound(offers@, i as int);
        }
        let offer = offers[i];
        if offer.has_texture {
            slots.push(PbrSlot { kind: offer.kind, property: MaterialProperty::from_texture(next_id) });
            next_id = next_id + 1;
        } else {
            slots.push(
                PbrSlot { kind: offer.kind, property: MaterialProperty::from_factor(offer.fallback) },
            );
        }
        i = i + 1;
    }
    (slots, next_id)
}

/// At most `i` of the first `i` offers carry a texture.
pub proof fn lemma_textured_before_bound(offers: Seq<SlotOffer>, i: int)
    requires
        0 <= i,
    ensures
        0 <= textured_before(offers, i) <= i,
    decreases i,
{
    if i > 0 {
        lemma_textured_before_bound(offers, i - 1);
    }
}

/// The five standard property slots in iteration order.
pub fn standard_slots(
    ao: MaterialProperty,
    albedo: MaterialProperty,
    emissive: MaterialProperty,
    metal_roughness: MaterialProperty,
    normal: MaterialProperty,
) -> (slots: Vec<PbrSlot>)
    ensures
        slots@ == seq![
            PbrSlot { kind: SlotKind::AmbientOcclusion, property: ao },
            PbrSlot { kind: SlotKind::Albedo, property: albedo },
            PbrSlot { kind: SlotKind::Emissive, property: emissive },
            PbrSlot { kind: SlotKind::MetalRoughness, property: metal_roughness },
            PbrSlot { kind: SlotKind::Normal, property: normal },
        ],
{
    let mut slots: Vec<PbrSlot> = Vec::new();
    slots.push(PbrSlot { kind: SlotKind::AmbientOcclusion, property: ao });
    slots.push(PbrSlot { kind: SlotKind::Albedo, property: albedo });
    slots.push(PbrSlot { kind: SlotKind::Emissive, property: emissive });
    slots.push(PbrSlot { kind: SlotKind::MetalRoughness, property: metal_roughness });
    slots.push(PbrSlot { kind: SlotKind::Normal, property: normal });
    proof {
        assert(slots@ =~= seq![
            PbrSlot { kind: SlotKind::AmbientOcclusion, property: ao },
            PbrSlot { kind: SlotKind::Albedo, property: albedo },
            PbrSlot { kind: SlotKind::Emissive, property: emissive },
            PbrSlot { kind: SlotKind::MetalRoughness, property: metal_roughness },
            PbrSlot { kind: SlotKind::Normal, property: normal },
        ]);
    }
    slots
}

} // verus!
