use pbr_pipeline::vertex::mesh_counts;
use pbr_pipeline::vertex::standard_vertex_formats;
use pbr_pipeline::vertex::vertex_attributes;
use pbr_pipeline::vertex::vertex_stride;
use pbr_pipeline::vertex::AttributeFormat;
use pbr_pipeline::vertex::DrawCommand;

#[test]
fn standard_layout_tiles_the_vertex() {
    let formats = standard_vertex_formats();
    let attrs = vertex_attributes(&formats);
    assert_eq!(attrs.len(), 4);

    // Position, normal, tangent, texture coordinates.
    assert_eq!(attrs[0].shader_location, 0);
    assert_eq!(attrs[0].offset, 0);
    assert_eq!(attrs[0].format, AttributeFormat::Float3);

    assert_eq!(attrs[1].shader_location, 1);
    assert_eq!(attrs[1].offset, 12);

    assert_eq!(attrs[2].shader_location, 2);
    assert_eq!(attrs[2].offset, 24);
    assert_eq!(attrs[2].format, AttributeFormat::Float4);

    assert_eq!(attrs[3].shader_location, 3);
    assert_eq!(attrs[3].offset, 40);
    assert_eq!(attrs[3].format, AttributeFormat::Float2);

    assert_eq!(vertex_stride(&formats), 48);
}

#[test]
fn offsets_are_running_totals() {
    let formats = vec![AttributeFormat::Float2, AttributeFormat::Float4, AttributeFormat::Float2];
    let attrs = vertex_attributes(&formats);
    assert_eq!(attrs[0].offset, 0);
    assert_eq!(attrs[1].offset, 8);
    assert_eq!(attrs[2].offset, 24);
    assert_eq!(vertex_stride(&formats), 32);
}

#[test]
fn indexed_mesh_draws_its_indices() {
    let counts = mesh_counts(8, Some(36));
    assert_eq!(counts.num_vertices, 8);
    assert_eq!(counts.num_indices, 36);
    assert!(counts.indexed);
    assert_eq!(counts.draw_command(), DrawCommand::Indexed { count: 36 });
}

#[test]
fn plain_mesh_draws_its_vertices() {
    let counts = mesh_counts(100, None);
    assert_eq!(counts.num_indices, 0);
    assert!(!counts.indexed);
    assert_eq!(counts.draw_command(), DrawCommand::Direct { count: 100 });
}
