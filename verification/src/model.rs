//! The memory layout of vertices, and the order in which drawing a mesh
//! binds its resources.
//!
//! GPU resources are held by handles whose types the caller chooses; a render
//! pass is the list of commands recorded into it.

use core::ops::Range;
use vstd::prelude::*;

verus! {

/// The value format of one vertex attribute.
#[derive(Clone, Copy, Debug, PartialEq, Eq, Structural)]
pub enum VertexFormat {
    /// One 32-bit float.
    Float32,
    /// Two 32-bit floats.
    Float32x2,
    /// Three 32-bit floats.
    Float32x3,
    /// Four 32-bit floats.
    Float32x4,
}

impl VertexFormat {
    /// Bytes that one value of the format takes in a vertex record.
    pub open spec fn spec_size(self) -> u64 {
        match self {
            VertexFormat::Float32 => 4,
            VertexFormat::Float32x2 => 8,
            VertexFormat::Float32x3 => 12,
            VertexFormat::Float32x4 => 16,
        }
    }

    #[verifier::when_used_as_spec(spec_size)]
    pub fn size(self) -> (bytes: u64)
        ensures
            bytes == self.spec_size(),
    {
        match self {
            VertexFormat::Float32 => 4,
            VertexFormat::Float32x2 => 8,
            VertexFormat::Float32x3 => 12,
            VertexFormat::Float32x4 => 16,
        }
    }
}

/// How often a vertex buffer steps forward to its next record.
#[derive(Clone, Copy, Debug, PartialEq, Eq, Structural)]
pub enum VertexStepMode {
    /// Once per vertex.
    Vertex,
    /// Once per instance.
    Instance,
}

/// One shader input read from a vertex record.
#[derive(Clone, Copy, Debug, PartialEq, Eq, Structural)]
pub struct VertexAttribute {
    /// The value format of the input.
    pub format: VertexFormat,
    /// Byte offset of the input within the record.
    pub offset: u64,
    /// The shader-input slot that receives it.
    pub shader_location: u32,
}

/// How the records of one vertex buffer are laid out.
#[derive(Debug, PartialEq, Eq)]
pub struct VertexBufferLayout {
    /// Bytes between the starts of consecutive records.
    pub array_stride: u64,
    pub step_mode: VertexStepMode,
    /// The attributes of one record, in order.
    pub attributes: Vec<VertexAttribute>,
}

/// A `VertexBufferLayout` as a mathematical value.
pub struct VertexBufferLayoutView {
    pub array_stride: u64,
    pub step_mode: VertexStepMode,
    pub attributes: Seq<VertexAttribute>,
}

impl View for VertexBufferLayout {
    type V = VertexBufferLayoutView;

    open spec fn view(&self) -> VertexBufferLayoutView {
        VertexBufferLayoutView {
            array_stride: self.array_stride,
            step_mode: self.step_mode,
            attributes: self.attributes@,
        }
    }
}

impl VertexAttribute {
    /// The byte offset within the record at which the attribute ends.
    pub open spec fn end(self) -> int {
        self.offset + self.format.spec_size()
    }
}

/// Bytes that the first `n` of `attributes` take when laid end to end.
pub open spec fn packed_bytes(attributes: Seq<VertexAttribute>, n: int) -> int
    decreases n,
{
    if n <= 0 {
        0
    } else {
        packed_bytes(attributes, n - 1) + attributes[n - 1].format.spec_size()
    }
}

impl VertexBufferLayoutView {
    /// The attributes fill the record in order with no padding: each begins
    /// after the bytes of those before it, the first at byte 0, and the
    /// stride is the bytes of them all. Attribute `i` feeds shader-input
    /// slot `i`.
    pub open spec fn is_packed(self) -> bool {
        &&& forall|i: int|
            0 <= i < self.attributes.len() ==> {
                &&& (#[trigger] self.attributes[i]).offset == packed_bytes(self.attributes, i)
                &&& self.attributes[i].shader_location == i
            }
        &&& self.array_stride == packed_bytes(self.attributes, self.attributes.len() as int)
    }
}

proof fn lemma_packed_bytes_grow(attributes: Seq<VertexAttribute>, m: int, n: int)
    requires
        0 <= m <= n,
    ensures
        packed_bytes(attributes, m) <= packed_bytes(attributes, n),
    decreases n - m,
{
    if m < n {
        lemma_packed_bytes_grow(attributes, m, n - 1);
    }
}

/// In a packed layout the attributes lie one after the other inside the
/// record: an earlier one ends before a later one begins, and each ends at or
/// before the stride.
pub proof fn lemma_packed_attributes_are_disjoint(layout: VertexBufferLayoutView, i: int, j: int)
    requires
        layout.is_packed(),
        0 <= i < j < layout.attributes.len(),
    ensures
        layout.attributes[i].end() <= layout.attributes[j].offset,
        layout.attributes[j].end() <= layout.array_stride,
{
    let attributes = layout.attributes;
    assert(attributes[i].end() == packed_bytes(attributes, i + 1));
    assert(attributes[j].end() == packed_bytes(attributes, j + 1));
    lemma_packed_bytes_grow(attributes, i + 1, j);
    lemma_packed_bytes_grow(attributes, j + 1, attributes.len() as int);
}

/// A vertex type that describes its own memory layout.
pub trait Vertex {
    /// The layout that `desc` reports.
    spec fn layout() -> VertexBufferLayoutView;

    /// Describes the records of a buffer of such vertices, stepped once per
    /// vertex.
    fn desc() -> (layout: VertexBufferLayout)
        ensures
            layout@ == Self::layout(),
            layout@.step_mode == VertexStepMode::Vertex,
    ;
}

/// One vertex of a model: position, texture coordinate and normal, each
/// component a binary32 value held by its bit pattern.
#[derive(Clone, Copy, Debug, PartialEq, Eq)]
pub struct ModelVertex {
    pub position: [u32; 3],
    pub tex_coords: [u32; 2],
    pub normal: [u32; 3],
}

impl Vertex for ModelVertex {
    open spec fn layout() -> VertexBufferLayoutView {
        VertexBufferLayoutView {
            array_stride: 32,
            step_mode: VertexStepMode::Vertex,
            attributes: seq![
                VertexAttribute { format: VertexFormat::Float32x3, offset: 0, shader_location: 0 },
                VertexAttribute { format: VertexFormat::Float32x2, offset: 12, shader_location: 1 },
                VertexAttribute { format: VertexFormat::Float32x3, offset: 20, shader_location: 2 },
            ],
        }
    }

    fn desc() -> (layout: VertexBufferLayout)
        ensures
            layout@.is_packed(),
    {
        let position = VertexFormat::Float32x3;
        let tex_coords = VertexFormat::Float32x2;
        let normal = VertexFormat::Float32x3;
        let tex_coords_offset: u64 = position.size();
        let normal_offset: u64 = tex_coords_offset + tex_coords.size();
        let array_stride: u64 = normal_offset + normal.size();
        let mut attributes: Vec<VertexAttribute> = Vec::new();
        attributes.push(VertexAttribute { format: position, offset: 0, shader_location: 0 });
        attributes.push(
            VertexAttribute { format: tex_coords, offset: tex_coords_offset, shader_location: 1 },
        );
        attributes.push(
            VertexAttribute { format: normal, offset: normal_offset, shader_location: 2 },
        );
        let layout = VertexBufferLayout {
            array_stride,
            step_mode: VertexStepMode::Vertex,
            attributes,
        };
        proof {
            assert(layout@.attributes =~= Self::layout().attributes);
            reveal_with_fuel(packed_bytes, 4);
        }
        layout
    }
}

/// The width of the indices in an index buffer.
#[derive(Clone, Copy, Debug, PartialEq, Eq, Structural)]
pub enum IndexFormat {
    /// 16-bit unsigned indices.
    Uint16,
    /// 32-bit unsigned indices.
    Uint32,
}

/// The geometry of one drawable: its buffers, held by handles of type `B`
/// that the owner of the GPU resources gives out.
pub struct Mesh<B> {
    pub name: String,
    pub vertex_buffer: B,
    /// Holds 32-bit indices.
    pub index_buffer: B,
    /// How many indices to draw.
    pub num_elements: u32,
    /// Position of the mesh's material among the materials of its model.
    pub material: usize,
}

/// What a mesh is shaded with: a texture, by a handle of type `T`, and the
/// group through which shaders reach it, by a handle of type `G`.
pub struct Material<T, G> {
    pub name: String,
    pub diffuse_texture: T,
    pub bind_group: G,
}

/// A model: its meshes, in drawing order, and the materials that they are
/// shaded with.
pub struct Model<B, T, G> {
    pub meshes: Vec<Mesh<B>>,
    pub materials: Vec<Material<T, G>>,
}

impl<B, T, G> Model<B, T, G> {
    /// Every mesh names a material that the model holds.
    pub open spec fn well_formed(&self) -> bool {
        forall|i: int|
            0 <= i < self.meshes@.len() ==> (#[trigger] self.meshes@[i]).material
                < self.materials@.len()
    }
}

/// One command recorded into a render pass.
#[derive(Debug, PartialEq, Eq)]
pub enum RenderCommand<'a, B, G> {
    /// Bind the whole of `buffer` at vertex-input slot `slot`.
    SetVertexBuffer { slot: u32, buffer: &'a B },
    /// Bind the whole of `buffer` as the index buffer.
    SetIndexBuffer { buffer: &'a B, format: IndexFormat },
    /// Bind `bind_group` at binding-group slot `index`, with no dynamic offsets.
    SetBindGroup { index: u32, bind_group: &'a G },
    /// Draw the indices `indices`, each offset by `base_vertex`, once for
    /// every instance of `instances`.
    DrawIndexed { indices: Range<u32>, base_vertex: i32, instances: Range<u32> },
}

/// The commands that draw `mesh` with `material` for the instances
/// `instances`, in the order in which they are recorded: the vertex buffer at
/// slot 0, the index buffer as 32-bit indices, the material's group at slot 0,
/// the camera's group at slot 1, then the indexed draw of all the mesh's
/// indices from base vertex 0.
pub open spec fn draw_commands<'a, B, T, G>(
    mesh: &'a Mesh<B>,
    material: &'a Material<T, G>,
    instances: Range<u32>,
    camera_bind_group: &'a G,
) -> Seq<RenderCommand<'a, B, G>> {
    seq![
        RenderCommand::SetVertexBuffer { slot: 0, buffer: &mesh.vertex_buffer },
        RenderCommand::SetIndexBuffer { buffer: &mesh.index_buffer, format: IndexFormat::Uint32 },
        RenderCommand::SetBindGroup { index: 0, bind_group: &material.bind_group },
        RenderCommand::SetBindGroup { index: 1, bind_group: camera_bind_group },
        RenderCommand::DrawIndexed {
            indices: Range { start: 0, end: mesh.num_elements },
            base_vertex: 0,
            instances,
        },
    ]
}

/// A recording target that can draw meshes.
pub trait DrawModel<'a, B, G> {
    /// The commands recorded so far, oldest first.
    spec fn recorded(&self) -> Seq<RenderCommand<'a, B, G>>;

    /// Records the drawing of one instance of `mesh`, instance 0.
    fn draw_mesh<T>(
        &mut self,
        mesh: &'a Mesh<B>,
        material: &'a Material<T, G>,
        camera_bind_group: &'a G,
    )
        ensures
            final(self).recorded() == old(self).recorded() + draw_commands(
                mesh,
                material,
                Range { start: 0, end: 1 },
                camera_bind_group,
            ),
    ;

    /// Records the drawing of the instances `instances` of `mesh`.
    fn draw_mesh_instanced<T>(
        &mut self,
        mesh: &'a Mesh<B>,
        material: &'a Material<T, G>,
        instances: Range<u32>,
        camera_bind_group: &'a G,
    )
        ensures
            final(self).recorded() == old(self).recorded() + draw_commands(
                mesh,
                material,
                instances,
                camera_bind_group,
            ),
    ;
}

/// A render pass as the list of commands recorded into it.
pub struct RecordedPass<'a, B, G> {
    commands: Vec<RenderCommand<'a, B, G>>,
}

impl<'a, B, G> View for RecordedPass<'a, B, G> {
    type V = Seq<RenderCommand<'a, B, G>>;

    closed spec fn view(&self) -> Seq<RenderCommand<'a, B, G>> {
        self.commands@
    }
}

impl<'a, B, G> RecordedPass<'a, B, G> {
    /// A pass into which nothing is recorded yet.
    pub fn new() -> (pass: Self)
        ensures
            pass@ == Seq::<RenderCommand<'a, B, G>>::empty(),
    {
        RecordedPass { commands: Vec::new() }
    }

    /// The recorded commands, oldest first.
    pub fn commands(&self) -> (commands: &Vec<RenderCommand<'a, B, G>>)
        ensures
            commands@ == self@,
    {
        &self.commands
    }
}

impl<'a, B, G> DrawModel<'a, B, G> for RecordedPass<'a, B, G> {
    open spec fn recorded(&self) -> Seq<RenderCommand<'a, B, G>> {
        self@
    }

    fn draw_mesh<T>(
        &mut self,
        mesh: &'a Mesh<B>,
        material: &'a Material<T, G>,
        camera_bind_group: &'a G,
    ) {
        self.draw_mesh_instanced(mesh, material, 0..1, camera_bind_group);
    }

    fn draw_mesh_instanced<T>(
        &mut self,
        mesh: &'a Mesh<B>,
        material: &'a Material<T, G>,
        instances: Range<u32>,
        camera_bind_group: &'a G,
    ) {
        self.commands.push(RenderCommand::SetVertexBuffer { slot: 0, buffer: &mesh.vertex_buffer });
        self.commands.push(
            RenderCommand::SetIndexBuffer { buffer: &mesh.index_buffer, format: IndexFormat::Uint32 },
        );
        self.commands.push(RenderCommand::SetBindGroup { index: 0, bind_group: &material.bind_group });
        self.commands.push(RenderCommand::SetBindGroup { index: 1, bind_group: camera_bind_group });
        self.commands.push(
            RenderCommand::DrawIndexed { indices: 0..mesh.num_elements, base_vertex: 0, instances },
        );
        proof {
            assert(self@ =~= old(self)@ + draw_commands(
                mesh,
                material,
                instances,
                camera_bind_group,
            ));
        }
    }
}

} // verus!
