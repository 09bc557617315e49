use pbr_pipeline::material::assemble_pbr_layout;
use pbr_pipeline::material::standard_slots;
use pbr_pipeline::material::resolve_slot_offers;
use pbr_pipeline::material::BindingKind;
use pbr_pipeline::material::BoundResource;
use pbr_pipeline::material::FactorBits;
use pbr_pipeline::material::MaterialProperty;
use pbr_pipeline::material::SlotKind;
use pbr_pipeline::material::SlotOffer;
use pbr_pipeline::material::TextureRef;
use pbr_pipeline::material::TextureShape;

fn factor(r: f32, g: f32, b: f32, a: f32) -> FactorBits {
    FactorBits { r: r.to_bits(), g: g.to_bits(), b: b.to_bits(), a: a.to_bits() }
}

#[test]
fn all_constant_slots_pack_factors_in_order() {
    let ao = factor(1.0, 1.0, 1.0, 1.0);
    let albedo = factor(0.5, 0.25, 0.125, 1.0);
    let emissive = factor(0.0, 0.0, 0.0, 1.0);
    let metal_roughness = factor(0.0, 0.3, 0.7, 0.0);
    let normal = factor(0.0, 0.0, 0.0, 0.0);
    let slots = standard_slots(
        MaterialProperty::from_factor(ao),
        MaterialProperty::from_factor(albedo),
        MaterialProperty::from_factor(emissive),
        MaterialProperty::from_factor(metal_roughness),
        MaterialProperty::from_factor(normal),
    );
    let layout = assemble_pbr_layout(&slots);

    assert_eq!(layout.factors, vec![ao, albedo, emissive, metal_roughness, normal]);
    // Only the six fixed image-based-lighting bindings remain.
    assert_eq!(layout.entries.len(), 6);
    assert_eq!(layout.bindings.len(), 6);
    assert!(layout.defines.is_empty());
    assert_eq!(layout.defines_text, "");
}

#[test]
fn all_texture_slots_bind_in_iteration_order() {
    let slots = standard_slots(
        MaterialProperty::from_texture(0),
        MaterialProperty::from_texture(1),
        MaterialProperty::from_texture(2),
        MaterialProperty::from_texture(3),
        MaterialProperty::from_texture(4),
    );
    let layout = assemble_pbr_layout(&slots);

    // No constant-backed slot: a single zero factor pads the buffer.
    assert_eq!(layout.factors, vec![FactorBits { r: 0, g: 0, b: 0, a: 0 }]);
    assert_eq!(layout.entries.len(), 16);
    assert_eq!(layout.bindings.len(), 16);
    for (i, entry) in layout.entries.iter().enumerate() {
        assert_eq!(entry.binding as usize, i);
    }
    for (i, binding) in layout.bindings.iter().enumerate() {
        assert_eq!(binding.binding as usize, i);
    }
    // Slot textures occupy bindings 6.. in pairs, in slot order.
    for j in 0..5usize {
        let id = j;
        let view = &layout.bindings[6 + 2 * j];
        let sampler = &layout.bindings[6 + 2 * j + 1];
        assert_eq!(view.resource, BoundResource::View(TextureRef::Material(id)));
        assert_eq!(sampler.resource, BoundResource::Sampler(TextureRef::Material(id)));
        assert_eq!(
            layout.entries[6 + 2 * j].kind,
            BindingKind::SampledTexture { shape: TextureShape::D2 }
        );
        assert_eq!(layout.entries[6 + 2 * j + 1].kind, BindingKind::Sampler);
    }
    assert_eq!(layout.defines.len(), 5);
    assert_eq!(layout.defines[0].kind, SlotKind::AmbientOcclusion);
    assert_eq!(layout.defines[0].binding, 6);
    assert_eq!(layout.defines[4].kind, SlotKind::Normal);
    assert_eq!(layout.defines[4].binding, 14);
    assert_eq!(
        layout.defines_text,
        "#define AO_TEXTURE_BINDING 6\n\
         #define ALBEDO_TEXTURE_BINDING 8\n\
         #define EMISSIVE_TEXTURE_BINDING 10\n\
         #define METAL_ROUGHNESS_TEXTURE_BINDING 12\n\
         #define NORMAL_TEXTURE_BINDING 14\n"
    );
}

#[test]
fn mixed_slots_split_between_factors_and_textures() {
    let ao = factor(1.0, 1.0, 1.0, 1.0);
    let emissive = factor(0.2, 0.1, 0.0, 1.0);
    let normal = factor(0.0, 0.0, 0.0, 0.0);
    let slots = standard_slots(
        MaterialProperty::from_factor(ao),
        MaterialProperty::from_texture(0),
        MaterialProperty::from_factor(emissive),
        MaterialProperty::from_texture(1),
        MaterialProperty::from_factor(normal),
    );
    let layout = assemble_pbr_layout(&slots);

    assert_eq!(layout.factors, vec![ao, emissive, normal]);
    assert_eq!(layout.entries.len(), 10);
    assert_eq!(layout.defines.len(), 2);
    assert_eq!(layout.defines[0].kind, SlotKind::Albedo);
    assert_eq!(layout.defines[0].binding, 6);
    assert_eq!(layout.defines[1].kind, SlotKind::MetalRoughness);
    assert_eq!(layout.defines[1].binding, 8);
    assert_eq!(
        layout.bindings[6].resource,
        BoundResource::View(TextureRef::Material(0))
    );
    assert_eq!(
        layout.bindings[8].resource,
        BoundResource::View(TextureRef::Material(1))
    );
    assert_eq!(
        layout.defines_text,
        "#define ALBEDO_TEXTURE_BINDING 6\n#define METAL_ROUGHNESS_TEXTURE_BINDING 8\n"
    );
}

#[test]
fn ibl_bindings_open_every_layout() {
    let slots = standard_slots(
        MaterialProperty::from_texture(0),
        MaterialProperty::from_factor(factor(1.0, 1.0, 1.0, 1.0)),
        MaterialProperty::from_factor(factor(0.0, 0.0, 0.0, 1.0)),
        MaterialProperty::from_factor(factor(0.0, 0.5, 0.5, 0.0)),
        MaterialProperty::from_factor(factor(0.0, 0.0, 0.0, 0.0)),
    );
    let layout = assemble_pbr_layout(&slots);

    assert_eq!(
        layout.entries[0].kind,
        BindingKind::SampledTexture { shape: TextureShape::Cube }
    );
    assert_eq!(layout.entries[1].kind, BindingKind::Sampler);
    assert_eq!(
        layout.entries[2].kind,
        BindingKind::SampledTexture { shape: TextureShape::Cube }
    );
    assert_eq!(layout.entries[3].kind, BindingKind::Sampler);
    assert_eq!(
        layout.entries[4].kind,
        BindingKind::SampledTexture { shape: TextureShape::D2 }
    );
    assert_eq!(layout.entries[5].kind, BindingKind::Sampler);
    assert_eq!(layout.bindings[0].resource, BoundResource::View(TextureRef::Irradiance));
    assert_eq!(layout.bindings[1].resource, BoundResource::Sampler(TextureRef::Irradiance));
    assert_eq!(
        layout.bindings[2].resource,
        BoundResource::View(TextureRef::PrefilteredEnvironment)
    );
    assert_eq!(
        layout.bindings[3].resource,
        BoundResource::Sampler(TextureRef::PrefilteredEnvironment)
    );
    assert_eq!(layout.bindings[4].resource, BoundResource::View(TextureRef::BrdfLut));
    assert_eq!(layout.bindings[5].resource, BoundResource::Sampler(TextureRef::BrdfLut));
    // The ambient-occlusion texture follows directly after.
    assert_eq!(
        layout.bindings[6].resource,
        BoundResource::View(TextureRef::Material(0))
    );
    assert_eq!(layout.defines_text, "#define AO_TEXTURE_BINDING 6\n");
}

#[test]
fn slot_offers_assign_texture_ids_in_slot_order() {
    let fallback = factor(1.0, 1.0, 1.0, 1.0);
    let offers = vec![
        SlotOffer { kind: SlotKind::AmbientOcclusion, has_texture: false, fallback },
        SlotOffer { kind: SlotKind::Albedo, has_texture: true, fallback },
        SlotOffer { kind: SlotKind::Emissive, has_texture: false, fallback },
        SlotOffer { kind: SlotKind::MetalRoughness, has_texture: true, fallback },
        SlotOffer { kind: SlotKind::Normal, has_texture: true, fallback },
    ];
    let (slots, texture_count) = resolve_slot_offers(&offers, 0);

    assert_eq!(slots.len(), 5);
    assert_eq!(texture_count, 3);
    assert_eq!(slots[0].property.texture_id, None);
    assert_eq!(slots[0].property.factor, Some(fallback));
    assert_eq!(slots[1].property.texture_id, Some(0));
    assert_eq!(slots[3].property.texture_id, Some(1));
    assert_eq!(slots[4].property.texture_id, Some(2));
}

#[test]
fn slot_offers_continue_numbering_after_existing_textures() {
    let fallback = factor(0.0, 0.0, 0.0, 0.0);
    let offers = vec![
        SlotOffer { kind: SlotKind::Albedo, has_texture: true, fallback },
        SlotOffer { kind: SlotKind::Normal, has_texture: true, fallback },
    ];
    let (slots, texture_count) = resolve_slot_offers(&offers, 7);

    assert_eq!(slots[0].property.texture_id, Some(7));
    assert_eq!(slots[1].property.texture_id, Some(8));
    assert_eq!(texture_count, 9);
}
