use render_core::model::{
    DrawModel, IndexFormat, Material, Mesh, Model, ModelVertex, RecordedPass, RenderCommand,
    Vertex, VertexAttribute, VertexBufferLayout, VertexFormat, VertexStepMode,
};

fn cube() -> Mesh<&'static str> {
    Mesh {
        name: String::from("cube"),
        vertex_buffer: "cube vertices",
        index_buffer: "cube indices",
        num_elements: 36,
        material: 0,
    }
}

fn brick() -> Material<&'static str, &'static str> {
    Material {
        name: String::from("brick"),
        diffuse_texture: "brick texture",
        bind_group: "brick group",
    }
}

fn expected<'a>(
    mesh: &'a Mesh<&'static str>,
    material: &'a Material<&'static str, &'static str>,
    instances: core::ops::Range<u32>,
    camera: &'a &'static str,
) -> Vec<RenderCommand<'a, &'static str, &'static str>> {
    vec![
        RenderCommand::SetVertexBuffer { slot: 0, buffer: &mesh.vertex_buffer },
        RenderCommand::SetIndexBuffer { buffer: &mesh.index_buffer, format: IndexFormat::Uint32 },
        RenderCommand::SetBindGroup { index: 0, bind_group: &material.bind_group },
        RenderCommand::SetBindGroup { index: 1, bind_group: camera },
        RenderCommand::DrawIndexed { indices: 0..mesh.num_elements, base_vertex: 0, instances },
    ]
}

#[test]
fn vertex_format_sizes() {
    assert_eq!(VertexFormat::Float32.size(), 4);
    assert_eq!(VertexFormat::Float32x2.size(), 8);
    assert_eq!(VertexFormat::Float32x3.size(), 12);
    assert_eq!(VertexFormat::Float32x4.size(), 16);
}

#[test]
fn model_vertex_layout() {
    let layout = ModelVertex::desc();
    assert_eq!(
        layout,
        VertexBufferLayout {
            array_stride: 32,
            step_mode: VertexStepMode::Vertex,
            attributes: vec![
                VertexAttribute { format: VertexFormat::Float32x3, offset: 0, shader_location: 0 },
                VertexAttribute { format: VertexFormat::Float32x2, offset: 12, shader_location: 1 },
                VertexAttribute { format: VertexFormat::Float32x3, offset: 20, shader_location: 2 },
            ],
        }
    );
}

#[test]
fn model_vertex_layout_has_no_padding() {
    let layout = ModelVertex::desc();
    let mut end = 0;
    for (slot, attribute) in layout.attributes.iter().enumerate() {
        assert_eq!(attribute.offset, end);
        assert_eq!(attribute.shader_location as usize, slot);
        end += attribute.format.size();
    }
    assert_eq!(layout.array_stride, end);
    assert_eq!(layout.array_stride, 8 * 4);
}

#[test]
fn model_vertex_holds_eight_components() {
    let vertex = ModelVertex {
        position: [1.0f32.to_bits(), 2.0f32.to_bits(), 3.0f32.to_bits()],
        tex_coords: [0.25f32.to_bits(), 0.75f32.to_bits()],
        normal: [0.0f32.to_bits(), 1.0f32.to_bits(), 0.0f32.to_bits()],
    };
    let components = vertex.position.len() + vertex.tex_coords.len() + vertex.normal.len();
    assert_eq!(components as u64 * 4, ModelVertex::desc().array_stride);
    assert_eq!(f32::from_bits(vertex.tex_coords[1]), 0.75);
}

#[test]
fn new_pass_is_empty() {
    let pass: RecordedPass<&'static str, &'static str> = RecordedPass::new();
    assert!(pass.commands().is_empty());
}

#[test]
fn draw_mesh_records_the_five_commands_in_order() {
    let mesh = cube();
    let material = brick();
    let camera = "camera group";
    let mut pass = RecordedPass::new();
    pass.draw_mesh(&mesh, &material, &camera);
    let commands = pass.commands();
    assert_eq!(commands.len(), 5);
    assert_eq!(
        commands[0],
        RenderCommand::SetVertexBuffer { slot: 0, buffer: &"cube vertices" }
    );
    assert_eq!(
        commands[1],
        RenderCommand::SetIndexBuffer { buffer: &"cube indices", format: IndexFormat::Uint32 }
    );
    assert_eq!(commands[2], RenderCommand::SetBindGroup { index: 0, bind_group: &"brick group" });
    assert_eq!(commands[3], RenderCommand::SetBindGroup { index: 1, bind_group: &"camera group" });
    assert_eq!(
        commands[4],
        RenderCommand::DrawIndexed { indices: 0..36, base_vertex: 0, instances: 0..1 }
    );
    match &commands[4] {
        RenderCommand::DrawIndexed { indices, instances, .. } => {
            assert_eq!(indices.len(), 36);
            assert_eq!(instances.len(), 1);
        }
        other => panic!("the last command is {:?}", other),
    }
}

#[test]
fn draw_mesh_is_draw_mesh_instanced_for_instance_zero() {
    let mesh = cube();
    let material = brick();
    let camera = "camera group";
    let mut single = RecordedPass::new();
    single.draw_mesh(&mesh, &material, &camera);
    let mut instanced = RecordedPass::new();
    instanced.draw_mesh_instanced(&mesh, &material, 0..1, &camera);
    assert_eq!(single.commands(), instanced.commands());
}

#[test]
fn draw_mesh_instanced_keeps_the_instance_range() {
    let mesh = cube();
    let material = brick();
    let camera = "camera group";
    let mut pass = RecordedPass::new();
    pass.draw_mesh_instanced(&mesh, &material, 3..9, &camera);
    assert_eq!(pass.commands(), &expected(&mesh, &material, 3..9, &camera));
}

#[test]
fn each_draw_appends_to_the_pass() {
    let mesh = cube();
    let material = brick();
    let camera = "camera group";
    let mut pass = RecordedPass::new();
    pass.draw_mesh(&mesh, &material, &camera);
    pass.draw_mesh(&mesh, &material, &camera);
    let mut twice = expected(&mesh, &material, 0..1, &camera);
    twice.extend(expected(&mesh, &material, 0..1, &camera));
    assert_eq!(pass.commands(), &twice);
}

#[test]
fn an_empty_mesh_draws_no_index() {
    let mut mesh = cube();
    mesh.num_elements = 0;
    let material = brick();
    let camera = "camera group";
    let mut pass = RecordedPass::new();
    pass.draw_mesh_instanced(&mesh, &material, 5..5, &camera);
    assert_eq!(
        pass.commands()[4],
        RenderCommand::DrawIndexed { indices: 0..0, base_vertex: 0, instances: 5..5 }
    );
}

#[test]
fn a_model_draws_each_mesh_with_its_material() {
    let mut floor = cube();
    floor.name = String::from("floor");
    floor.vertex_buffer = "floor vertices";
    floor.index_buffer = "floor indices";
    floor.num_elements = 6;
    floor.material = 1;
    let mut stone = brick();
    stone.name = String::from("stone");
    stone.bind_group = "stone group";
    let model = Model { meshes: vec![cube(), floor], materials: vec![brick(), stone] };
    let camera = "camera group";
    let mut pass = RecordedPass::new();
    for mesh in &model.meshes {
        assert!(mesh.material < model.materials.len());
        pass.draw_mesh(mesh, &model.materials[mesh.material], &camera);
    }
    let mut all = expected(&model.meshes[0], &model.materials[0], 0..1, &camera);
    all.extend(expected(&model.meshes[1], &model.materials[1], 0..1, &camera));
    assert_eq!(pass.commands(), &all);
    assert_eq!(pass.commands()[7], RenderCommand::SetBindGroup { index: 0, bind_group: &"stone group" });
    assert_eq!(
        pass.commands()[9],
        RenderCommand::DrawIndexed { indices: 0..6, base_vertex: 0, instances: 0..1 }
    );
}
