//! Vertex-buffer layout and mesh accounting.
//!
//! The renderer interleaves all vertex data in one buffer; every
//! pipeline describes that buffer with the same attribute list, whose
//! offsets must be the running byte total of the preceding attributes.
//! Mesh uploads record how many vertices and indices were sent so the
//! draw call can submit the right range.

use vstd::prelude::*;

verus! {

/// The format of one vertex attribute.
#[derive(Clone, Copy, PartialEq, Eq, Structural, Debug)]
pub enum AttributeFormat {
    /// Two 32-bit float components.
    Float2,
    /// Three 32-bit float components.
    Float3,
    /// Four 32-bit float components.
    Float4,
}

impl AttributeFormat {
    /// Byte size of one attribute of this format.
    pub open spec fn spec_size(self) -> int {
        match self {
            AttributeFormat::Float2 => 8,
            AttributeFormat::Float3 => 12,
            AttributeFormat::Float4 => 16,
        }
    }

    /// Byte size of one attribute of this format.
    pub fn size(self) -> (s: u32)
        ensures
            s == self.spec_size(),
    {
        match self {
            AttributeFormat::Float2 => 8,
            AttributeFormat::Float3 => 12,
            AttributeFormat::Float4 => 16,
        }
    }
}

/// One attribute of the vertex-buffer layout.
#[derive(Clone, Copy, PartialEq, Eq, Structural, Debug)]
pub struct VertexAttribute {
    pub shader_location: u32,
    /// Byte offset of the attribute within one vertex.
    pub offset: u32,
    pub format: AttributeFormat,
}

/// The byte size of one vertex made of the given attribute formats.
pub open spec fn layout_size(formats: Seq<AttributeFormat>) -> int
    decreases formats.len(),
{
    if formats.len() == 0 {
        0
    } else {
        layout_size(formats.drop_last()) + formats.last().spec_size()
    }
}

/// The size of a layout never shrinks as attributes are appended, and a
/// prefix never exceeds the whole.
pub proof fn lemma_layout_size_bounds(formats: Seq<AttributeFormat>, i: int)
    requires
        0 <= i <= formats.len(),
    ensures
        0 <= layout_size(formats.take(i)) <= layout_size(formats),
    decreases formats.len() - i,
{
    if i == formats.len() {
        assert(formats.take(i) =~= formats);
        lemma_layout_size_nonneg(formats);
    } else {
        lemma_layout_size_bounds(formats, i + 1);
        lemma_layout_size_nonneg(formats.take(i));
        assert(formats.take(i + 1).drop_last() =~= formats.take(i));
        assert(formats.take(i + 1).last() == formats[i]);
    }
}

/// A layout never has negative size.
pub proof fn lemma_layout_size_nonneg(formats: Seq<AttributeFormat>)
    ensures
        layout_size(formats) >= 0,
    decreases formats.len(),
{
    if formats.len() > 0 {
        lemma_layout_size_nonneg(formats.drop_last());
    }
}

/// Lays the given attribute formats out in order: attribute `i` gets
/// shader location `i` and the byte offset of everything before it, so
/// the attributes tile one vertex of `layout_size` bytes exactly.
pub fn vertex_attributes(formats: &Vec<AttributeFormat>) -> (attrs: Vec<VertexAttribute>)
    requires
        formats@.len() <= u32::MAX,
        layout_size(formats@) <= u32::MAX,
    ensures
        attrs@.len() == formats@.len(),
        forall|i: int|
            0 <= i < formats@.len() ==> #[trigger] attrs@[i] == (VertexAttribute {
                shader_location: i as u32,
                offset: layout_size(formats@.take(i)) as u32,
                format: formats@[i],
            }),
{
    let mut attrs: Vec<VertexAttribute> = Vec::new();
    let mut offset: u32 = 0;
    let mut i: usize = 0;
    while i < formats.len()
        invariant
            i <= formats@.len(),
            formats@.len() <= u32::MAX,
            layout_size(formats@) <= u32::MAX,
            offset == layout_size(formats@.take(i as int)),
            attrs@.len() == i,
            forall|j: int|
                0 <= j < i ==> #[trigger] attrs@[j] == (VertexAttribute {
                    shader_location: j as u32,
                    offset: layout_size(formats@.take(j)) as u32,
                    format: formats@[j],
                }),
        decreases formats@.len() - i,
    {
        proof {
            assert(formats@.take(i + 1).drop_last() =~= formats@.take(i as int));
            assert(formats@.take(i + 1).last() == formats@[i as int]);
            lemma_layout_size_bounds(formats@, i + 1);
        }
        let format = formats[i];
        attrs.push(VertexAttribute { shader_location: i as u32, offset, format });
        offset = offset + format.size();
        i = i + 1;
    }
    attrs
}

/// The byte stride of one vertex of the given formats.
pub fn vertex_stride(formats: &Vec<AttributeFormat>) -> (stride: u32)
    requires
        layout_size(formats@) <= u32::MAX,
    ensures
        stride == layout_size(formats@),
{
    let mut stride: u32 = 0;
    let mut i: usize = 0;
    while i < formats.len()
        invariant
            i <= formats@.len(),
            layout_size(formats@) <= u32::MAX,
            stride == layout_size(formats@.take(i as int)),
        decreases formats@.len() - i,
    {
        proof {
            assert(formats@.take(i + 1).drop_last() =~= formats@.take(i as int));
            assert(formats@.take(i + 1).last() == formats@[i as int]);
            lemma_layout_size_bounds(formats@, i + 1);
        }
        stride = stride + formats[i].size();
        i = i + 1;
    }
    proof {
        assert(formats@.take(formats@.len() as int) =~= formats@);
    }
    stride
}

/// The attribute formats of the renderer's mesh vertex: position,
/// normal, tangent (with its handedness component), texture
/// coordinates.
pub fn standard_vertex_formats() -> (formats: Vec<AttributeFormat>)
    ensures
        formats@ == seq![
            AttributeFormat::Float3,
            AttributeFormat::Float3,
            AttributeFormat::Float4,
            AttributeFormat::Float2,
        ],
{
    let mut formats: Vec<AttributeFormat> = Vec::new();
    formats.push(AttributeFormat::Float3);
    formats.push(AttributeFormat::Float3);
    formats.push(AttributeFormat::Float4);
    formats.push(AttributeFormat::Float2);
    proof {
        assert(formats@ =~= seq![
            AttributeFormat::Float3,
            AttributeFormat::Float3,
            AttributeFormat::Float4,
            AttributeFormat::Float2,
        ]);
    }
    formats
}

/// What one mesh upload recorded: how many vertices went into the
/// vertex buffer and whether (and how long) an index buffer was sent.
#[derive(Clone, Copy, PartialEq, Eq, Structural, Debug)]
pub struct MeshCounts {
    pub num_vertices: u32,
    pub num_indices: u32,
    pub indexed: bool,
}

/// Records the counts of one mesh upload: a mesh without index data has
/// zero indices.
pub fn mesh_counts(vertex_count: u32, index_count: Option<u32>) -> (m: MeshCounts)
    ensures
        m.num_vertices == vertex_count,
        m.indexed == index_count is Some,
        m.num_indices == (match index_count {
            Some(n) => n,
            None => 0u32,
        }),
{
    match index_count {
        Some(n) => MeshCounts { num_vertices: vertex_count, num_indices: n, indexed: true },
        None => MeshCounts { num_vertices: vertex_count, num_indices: 0, indexed: false },
    }
}

/// What a draw call submits for one mesh.
#[derive(Clone, Copy, PartialEq, Eq, Structural, Debug)]
pub enum DrawCommand {
    /// Draw `count` indices through the index buffer.
    Indexed { count: u32 },
    /// Draw `count` vertices directly.
    Direct { count: u32 },
}

impl MeshCounts {
    /// The draw call for this mesh: indexed over the whole index buffer
    /// when one was uploaded, otherwise direct over all vertices.
    pub fn draw_command(&self) -> (cmd: DrawCommand)
        ensures
            cmd == if self.indexed {
                DrawCommand::Indexed { count: self.num_indices }
            } else {
                DrawCommand::Direct { count: self.num_vertices }
            },
    {
        if self.indexed {
            DrawCommand::Indexed { count: self.num_indices }
        } else {
            DrawCommand::Direct { count: self.num_vertices }
        }
    }
}

} // verus!
