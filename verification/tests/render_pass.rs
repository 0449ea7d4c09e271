use egui_wgpu_backend::command::{Command, LoadOp};
use egui_wgpu_backend::descriptor::{
    AddressMode, BindGroupEntry, BindGroupKind, BindGroupLayoutEntry, BindingResource,
    BindingType, BlendFactor, BlendOperation, BufferUsage, CullMode, FilterMode, FrontFace,
    IndexFormat, InputStepMode, PrimitiveTopology, ShaderStage, TextureComponentType,
    TextureViewDimension, VertexFormat,
};
use egui_wgpu_backend::paint::{FontAtlas, PaintBatch, ScreenSize};
use egui_wgpu_backend::upload::{
    AtlasFormat, Extent3d, Origin3d, TextureDataLayout, TextureDimension, TextureUsage,
};
use egui_wgpu_backend::vertex::PaintVertex;
use egui_wgpu_backend::RenderPass;

fn vertex(x: f32, y: f32, color: [u8; 4]) -> PaintVertex {
    PaintVertex { pos: [x.to_bits(), y.to_bits()], uv: [0, 0], color }
}

fn batch(vertex_count: usize, index_count: usize) -> PaintBatch {
    let mut vertices = Vec::new();
    for i in 0..vertex_count {
        vertices.push(vertex(i as f32, 2.0 * i as f32, [i as u8, 0, 255, 128]));
    }
    let mut indices = Vec::new();
    for i in 0..index_count {
        indices.push((i % vertex_count.max(1)) as u32);
    }
    PaintBatch { vertices, indices }
}

fn screen(width: f32, height: f32) -> ScreenSize {
    ScreenSize { width: width.to_bits(), height: height.to_bits() }
}

fn atlas(width: usize, height: usize) -> FontAtlas {
    let mut pixels = Vec::new();
    for i in 0..width * height {
        pixels.push((i % 251) as u8);
    }
    FontAtlas { width, height, pixels }
}

fn new_pass() -> RenderPass {
    RenderPass::new(wgpu::TextureFormat::Bgra8UnormSrgb)
}

fn draw(count: u32) -> Command {
    Command::DrawIndexed {
        first_index: 0,
        end_index: count,
        base_vertex: 0,
        first_instance: 0,
        end_instance: 1,
    }
}

#[test]
fn new_pass_holds_nothing() {
    let pass = new_pass();
    assert_eq!(pass.format(), wgpu::TextureFormat::Bgra8UnormSrgb);
    assert!(pass.index_buffers().is_empty());
    assert!(pass.vertex_buffers().is_empty());
    assert!(pass.texture_bind_group().is_none());
}

#[test]
fn new_pass_describes_the_bind_group_layouts() {
    let pass = new_pass();
    assert_eq!(
        pass.common_bind_group_layout(),
        [
            BindGroupLayoutEntry {
                binding: 0,
                visibility: ShaderStage::Vertex,
                ty: BindingType::UniformBuffer { dynamic: false, min_binding_size: None },
                count: None,
            },
            BindGroupLayoutEntry {
                binding: 1,
                visibility: ShaderStage::Fragment,
                ty: BindingType::Sampler { comparison: false },
                count: None,
            },
        ]
    );
    assert_eq!(
        pass.texture_bind_group_layout(),
        [BindGroupLayoutEntry {
            binding: 0,
            visibility: ShaderStage::Fragment,
            ty: BindingType::SampledTexture {
                dimension: TextureViewDimension::D2,
                component_type: TextureComponentType::Float,
                multisampled: false,
            },
            count: None,
        }]
    );
    assert_eq!(
        pass.common_bind_group(),
        [
            BindGroupEntry { binding: 0, resource: BindingResource::UniformBuffer },
            BindGroupEntry { binding: 1, resource: BindingResource::Sampler },
        ]
    );
    assert_eq!(pass.pipeline_layout(), [BindGroupKind::Common, BindGroupKind::Texture]);
}

#[test]
fn new_pass_describes_the_sampler_and_the_uniform_buffer() {
    let pass = new_pass();
    let sampler = pass.sampler();
    assert_eq!(sampler.address_mode_u, AddressMode::ClampToEdge);
    assert_eq!(sampler.address_mode_v, AddressMode::ClampToEdge);
    assert_eq!(sampler.address_mode_w, AddressMode::ClampToEdge);
    assert_eq!(sampler.mag_filter, FilterMode::Nearest);
    assert_eq!(sampler.min_filter, FilterMode::Nearest);
    assert_eq!(sampler.mipmap_filter, FilterMode::Nearest);
    let uniform = pass.uniform_buffer();
    assert_eq!(uniform.size, 8);
    assert_eq!(
        uniform.usage,
        BufferUsage { copy_dst: true, index: false, vertex: false, uniform: true }
    );
    assert!(!uniform.mapped_at_creation);
}

#[test]
fn new_pass_describes_the_pipeline() {
    let pass = RenderPass::new(wgpu::TextureFormat::Rgba8Unorm);
    let pipeline = pass.render_pipeline();
    assert_eq!(pipeline.primitive_topology, PrimitiveTopology::TriangleList);
    assert_eq!(pipeline.front_face, FrontFace::Ccw);
    assert_eq!(pipeline.cull_mode, CullMode::Off);
    assert!(!pipeline.depth_stencil);
    assert_eq!(pipeline.color_state.format, wgpu::TextureFormat::Rgba8Unorm);
    assert_eq!(pipeline.color_state.color_blend.src_factor, BlendFactor::SrcAlpha);
    assert_eq!(pipeline.color_state.color_blend.dst_factor, BlendFactor::OneMinusSrcAlpha);
    assert_eq!(pipeline.color_state.color_blend.operation, BlendOperation::Add);
    assert_eq!(pipeline.color_state.alpha_blend.src_factor, BlendFactor::One);
    assert_eq!(pipeline.color_state.alpha_blend.dst_factor, BlendFactor::OneMinusSrcAlpha);
    assert_eq!(pipeline.color_state.alpha_blend.operation, BlendOperation::Add);
    let mask = pipeline.color_state.write_mask;
    assert!(mask.red && mask.green && mask.blue && mask.alpha);
    assert_eq!(pipeline.index_format, IndexFormat::Uint32);
    assert_eq!(pipeline.sample_count, 1);
    assert_eq!(pipeline.sample_mask, 0xFFFF_FFFF);
    assert!(!pipeline.alpha_to_coverage_enabled);
}

#[test]
fn vertex_layout_is_tightly_packed() {
    let layout = new_pass().render_pipeline().vertex_buffer;
    assert_eq!(layout.stride, 32);
    assert_eq!(layout.step_mode, InputStepMode::Vertex);
    let expected = [(0u64, VertexFormat::Float2, 0u32), (8, VertexFormat::Float2, 1), (16, VertexFormat::Float4, 2)];
    let mut offset = 0;
    for (attribute, (at, format, location)) in layout.attributes.iter().zip(expected) {
        assert_eq!(attribute.offset, at);
        assert_eq!(attribute.offset, offset);
        assert_eq!(attribute.format, format);
        assert_eq!(attribute.shader_location, location);
        offset += attribute.format.size();
    }
    assert_eq!(offset, layout.stride);
    assert_eq!(VertexFormat::Float.size(), 4);
    assert_eq!(VertexFormat::Float3.size(), 12);
}

#[test]
fn upload_gives_one_buffer_pair_per_batch() {
    for count in [0usize, 1, 2, 5, 17] {
        let mut pass = new_pass();
        let mut jobs = Vec::new();
        for i in 0..count {
            jobs.push(batch(i + 1, 3 * i));
        }
        let upload = pass.upload_buffers(screen(800.0, 600.0), &jobs);
        assert_eq!(pass.index_buffers().len(), count);
        assert_eq!(pass.vertex_buffers().len(), count);
        assert_eq!(upload.index_buffers.len(), count);
        assert_eq!(upload.vertex_buffers.len(), count);
        for i in 0..count {
            assert_eq!(pass.index_buffers()[i].size % 4, 0);
            assert_eq!(pass.index_buffers()[i].size, 4 * jobs[i].indices.len());
            assert_eq!(pass.vertex_buffers()[i].size, 32 * jobs[i].vertices.len());
            assert_eq!(upload.index_buffers[i].contents.len(), pass.index_buffers()[i].size);
            assert_eq!(upload.vertex_buffers[i].contents.len(), pass.vertex_buffers()[i].size);
        }
    }
}

#[test]
fn upload_keeps_batch_order_and_contents() {
    let mut pass = new_pass();
    let jobs = vec![
        PaintBatch { vertices: vec![vertex(1.0, 2.0, [255, 0, 0, 255])], indices: vec![0, 0, 0] },
        PaintBatch { vertices: Vec::new(), indices: Vec::new() },
        PaintBatch {
            vertices: vec![vertex(3.0, 4.0, [0, 0, 0, 0]), vertex(5.0, 6.0, [1, 2, 3, 4])],
            indices: vec![1, 0, 1, 0, 1, 0],
        },
    ];
    let upload = pass.upload_buffers(screen(1.0, 1.0), &jobs);
    for i in 0..3 {
        let indices: &[u8] = bytemuck::cast_slice(&jobs[i].indices);
        assert_eq!(upload.index_buffers[i].contents, indices.to_vec());
        assert_eq!(
            upload.index_buffers[i].usage,
            BufferUsage { copy_dst: false, index: true, vertex: false, uniform: false }
        );
        assert_eq!(
            upload.vertex_buffers[i].usage,
            BufferUsage { copy_dst: false, index: false, vertex: true, uniform: false }
        );
    }
    let first: &[u8] = bytemuck::cast_slice(&[1.0f32, 2.0, 0.0, 0.0, 1.0, 0.0, 0.0, 1.0]);
    assert_eq!(upload.vertex_buffers[0].contents, first.to_vec());
    assert!(upload.vertex_buffers[1].contents.is_empty());
    let third: &[u8] = bytemuck::cast_slice(&[
        3.0f32, 4.0, 0.0, 0.0, 0.0, 0.0, 0.0, 0.0,
        5.0, 6.0, 0.0, 0.0, 1.0 / 255.0, 2.0 / 255.0, 3.0 / 255.0, 4.0 / 255.0,
    ]);
    assert_eq!(upload.vertex_buffers[2].contents, third.to_vec());
}

#[test]
fn second_upload_replaces_the_first() {
    let mut pass = new_pass();
    let first = vec![batch(3, 3), batch(4, 6), batch(1, 9), batch(2, 12)];
    let second = vec![batch(5, 15), batch(6, 18)];
    pass.upload_buffers(screen(10.0, 10.0), &first);
    assert_eq!(pass.index_buffers().len(), 4);
    pass.upload_buffers(screen(10.0, 10.0), &second);
    assert_eq!(pass.index_buffers().len(), 2);
    assert_eq!(pass.vertex_buffers().len(), 2);
    assert_eq!(pass.index_buffers()[0].size, 60);
    assert_eq!(pass.index_buffers()[1].size, 72);
    assert_eq!(pass.vertex_buffers()[0].size, 160);
    assert_eq!(pass.vertex_buffers()[1].size, 192);
    pass.upload_buffers(screen(10.0, 10.0), &Vec::new());
    assert!(pass.index_buffers().is_empty());
    assert!(pass.vertex_buffers().is_empty());
}

#[test]
fn uniform_write_is_two_little_endian_floats() {
    let mut pass = new_pass();
    let upload = pass.upload_buffers(screen(1920.0, 1080.5), &Vec::new());
    assert_eq!(upload.uniform_write.offset, 0);
    let mut expected = 1920.0f32.to_le_bytes().to_vec();
    expected.extend_from_slice(&1080.5f32.to_le_bytes());
    assert_eq!(upload.uniform_write.data, expected);
    assert_eq!(upload.uniform_write.data, vec![0x00, 0x00, 0xF0, 0x44, 0x00, 0x10, 0x87, 0x44]);
    assert_eq!(upload.uniform_write.data.len() as u64, pass.uniform_buffer().size);
}

#[test]
fn texture_upload_has_the_atlas_dimensions() {
    let mut pass = new_pass();
    let font = atlas(7, 3);
    assert!(font.check_valid());
    let upload = pass.upload_texture(&font);
    let size = Extent3d { width: 7, height: 3, depth: 1 };
    assert_eq!(upload.texture.size, size);
    assert_eq!(upload.texture.mip_level_count, 1);
    assert_eq!(upload.texture.sample_count, 1);
    assert_eq!(upload.texture.dimension, TextureDimension::D2);
    assert_eq!(upload.texture.format, AtlasFormat::R8Unorm);
    assert_eq!(upload.texture.usage, TextureUsage { copy_dst: true, sampled: true });
    assert_eq!(upload.mip_level, 0);
    assert_eq!(upload.origin, Origin3d { x: 0, y: 0, z: 0 });
    assert_eq!(upload.layout, TextureDataLayout { offset: 0, bytes_per_row: 7, rows_per_image: 3 });
    assert_eq!(upload.copy_size, size);
    assert_eq!(upload.data, font.pixels.as_slice());
    assert_eq!(
        upload.bind_group,
        [BindGroupEntry { binding: 0, resource: BindingResource::AtlasView }]
    );
    assert_eq!(pass.texture_bind_group().unwrap().size, size);
}

#[test]
fn second_texture_upload_replaces_the_first() {
    let mut pass = new_pass();
    pass.upload_texture(&atlas(16, 8));
    assert_eq!(
        pass.texture_bind_group().unwrap().size,
        Extent3d { width: 16, height: 8, depth: 1 }
    );
    pass.upload_texture(&atlas(32, 64));
    assert_eq!(
        pass.texture_bind_group().unwrap().size,
        Extent3d { width: 32, height: 64, depth: 1 }
    );
}

#[test]
fn uploads_do_not_touch_each_other() {
    let mut pass = new_pass();
    pass.upload_buffers(screen(4.0, 4.0), &vec![batch(1, 3)]);
    pass.upload_texture(&atlas(2, 2));
    assert_eq!(pass.index_buffers().len(), 1);
    pass.upload_buffers(screen(4.0, 4.0), &vec![batch(1, 3), batch(2, 6)]);
    assert_eq!(
        pass.texture_bind_group().unwrap().size,
        Extent3d { width: 2, height: 2, depth: 1 }
    );
}

#[test]
fn encode_without_batches_draws_nothing() {
    let mut pass = new_pass();
    pass.upload_texture(&atlas(1, 1));
    pass.upload_buffers(screen(100.0, 100.0), &Vec::new());
    let clear = wgpu::Color { r: 0.1, g: 0.2, b: 0.3, a: 1.0 };
    let encoded = pass.encode(Some(clear));
    assert_eq!(encoded.ops.load, LoadOp::Clear(clear));
    assert!(encoded.ops.store);
    assert_eq!(encoded.commands, vec![Command::SetPipeline]);
    let kept = pass.encode(None);
    assert_eq!(kept.ops.load, LoadOp::Load);
    assert!(kept.ops.store);
    assert_eq!(kept.commands, vec![Command::SetPipeline]);
}

#[test]
fn encode_draws_three_batches_in_order() {
    let mut pass = new_pass();
    let jobs = vec![batch(4, 6), batch(3, 3), batch(8, 36)];
    pass.upload_buffers(screen(640.0, 480.0), &jobs);
    pass.upload_texture(&atlas(4, 4));
    let encoded = pass.encode(None);
    let common = Command::SetBindGroup { index: 0, group: BindGroupKind::Common };
    let texture = Command::SetBindGroup { index: 1, group: BindGroupKind::Texture };
    assert_eq!(
        encoded.commands,
        vec![
            Command::SetPipeline,
            Command::SetIndexBuffer { buffer: 0 },
            Command::SetVertexBuffer { slot: 0, buffer: 0 },
            common,
            texture,
            draw(6),
            Command::SetIndexBuffer { buffer: 1 },
            Command::SetVertexBuffer { slot: 0, buffer: 1 },
            common,
            texture,
            draw(3),
            Command::SetIndexBuffer { buffer: 2 },
            Command::SetVertexBuffer { slot: 0, buffer: 2 },
            common,
            texture,
            draw(36),
        ]
    );
    let draws = encoded.commands.iter().filter(|c| matches!(c, Command::DrawIndexed { .. })).count();
    assert_eq!(draws, 3);
}

#[test]
fn encode_follows_the_latest_upload() {
    let mut pass = new_pass();
    pass.upload_texture(&atlas(4, 4));
    pass.upload_buffers(screen(1.0, 1.0), &vec![batch(1, 3), batch(1, 6), batch(1, 9)]);
    assert_eq!(pass.encode(None).commands.len(), 16);
    pass.upload_buffers(screen(1.0, 1.0), &vec![batch(1, 12)]);
    let encoded = pass.encode(None);
    assert_eq!(encoded.commands.len(), 6);
    assert_eq!(encoded.commands[5], draw(12));
}

#[test]
fn encode_draws_an_empty_batch_with_no_indices() {
    let mut pass = new_pass();
    pass.upload_texture(&atlas(1, 1));
    pass.upload_buffers(screen(1.0, 1.0), &vec![PaintBatch { vertices: Vec::new(), indices: Vec::new() }]);
    let encoded = pass.encode(None);
    assert_eq!(encoded.commands.len(), 6);
    assert_eq!(encoded.commands[5], draw(0));
}

#[test]
fn atlas_validity_is_checked() {
    assert!(atlas(0, 0).check_valid());
    assert!(atlas(3, 5).check_valid());
    assert!(!FontAtlas { width: 3, height: 5, pixels: vec![0; 14] }.check_valid());
    assert!(!FontAtlas { width: 3, height: 5, pixels: vec![0; 16] }.check_valid());
    if usize::BITS > 32 {
        assert!(!FontAtlas { width: usize::MAX, height: 0, pixels: Vec::new() }.check_valid());
    }
}

#[test]
fn batches_are_drawable() {
    assert!(batch(3, 300).check_drawable());
    assert!(PaintBatch { vertices: Vec::new(), indices: Vec::new() }.check_drawable());
}
