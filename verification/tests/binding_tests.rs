use pbr_pipeline::binding::texture_pair_entries;
use pbr_pipeline::binding::uniform_buffer_entries;
use pbr_pipeline::material::BindingKind;
use pbr_pipeline::material::TextureShape;

#[test]
fn textures_interleave_with_their_samplers() {
    let shapes = vec![TextureShape::Cube, TextureShape::D2];
    let entries = texture_pair_entries(&shapes);
    assert_eq!(entries.len(), 4);
    assert_eq!(entries[0].binding, 0);
    assert_eq!(entries[0].kind, BindingKind::SampledTexture { shape: TextureShape::Cube });
    assert_eq!(entries[1].binding, 1);
    assert_eq!(entries[1].kind, BindingKind::Sampler);
    assert_eq!(entries[2].binding, 2);
    assert_eq!(entries[2].kind, BindingKind::SampledTexture { shape: TextureShape::D2 });
    assert_eq!(entries[3].binding, 3);
    assert_eq!(entries[3].kind, BindingKind::Sampler);
}

#[test]
fn no_textures_mean_no_entries() {
    let entries = texture_pair_entries(&Vec::new());
    assert!(entries.is_empty());
}

#[test]
fn uniform_data_sits_at_binding_zero() {
    let entries = uniform_buffer_entries();
    assert_eq!(entries.len(), 1);
    assert_eq!(entries[0].binding, 0);
    assert_eq!(entries[0].kind, BindingKind::UniformBuffer);
}
