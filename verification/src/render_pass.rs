//! The render pass: which GPU resources exist, and what a frame does to them.

use vstd::prelude::*;
use crate::command::{Command, EncodedPass, LoadOp, Operations};
use crate::descriptor::{
    AddressMode, BindGroupEntry, BindGroupKind, BindGroupLayoutEntry, BindingResource,
    BindingType, BlendDescriptor, BlendFactor, BlendOperation, BufferDescriptor, BufferUsage,
    ColorStateDescriptor, ColorWrite, CullMode, FilterMode, FrontFace, IndexFormat,
    InputStepMode, PrimitiveTopology, RenderPipelineDescriptor, SamplerDescriptor, ShaderStage,
    TextureComponentType, TextureViewDimension, VertexAttributeDescriptor,
    VertexBufferDescriptor, VertexFormat,
};
use crate::bytes::record_bytes;
use crate::paint::{all_drawable, FontAtlas, PaintBatch, ScreenSize};
use crate::state::PassState;
use crate::upload::{
    AtlasFormat, BufferInit, BufferUpload, BufferWrite, Extent3d, Origin3d, TextureDataLayout,
    TextureDescriptor, TextureDimension, TextureUpload, TextureUsage,
};
use crate::vertex::{index_data, vertex_data};

verus! {

/// Number of bytes of the screen-size record in the uniform buffer.
pub const UNIFORM_SIZE: u64 = 8;

/// The layout of the common bind group: the screen size for the vertex
/// stage at binding 0, a non-comparison sampler for the fragment stage at
/// binding 1.
pub open spec fn common_layout() -> Seq<BindGroupLayoutEntry> {
    seq![
        BindGroupLayoutEntry {
            binding: 0,
            visibility: ShaderStage::Vertex,
            ty: BindingType::UniformBuffer { dynamic: false, min_binding_size: None },
            count: None,
        },
        BindGroupLayoutEntry {
            binding: 1,
            visibility: ShaderStage::Fragment,
            ty: BindingType::Sampler { comparison: false },
            count: None,
        },
    ]
}

/// The layout of the texture bind group: one two-dimensional texture that
/// samples as floats, for the fragment stage at binding 0.
pub open spec fn texture_layout() -> Seq<BindGroupLayoutEntry> {
    seq![
        BindGroupLayoutEntry {
            binding: 0,
            visibility: ShaderStage::Fragment,
            ty: BindingType::SampledTexture {
                dimension: TextureViewDimension::D2,
                component_type: TextureComponentType::Float,
                multisampled: false,
            },
            count: None,
        },
    ]
}

/// The sampler of the atlas: the nearest texel in every filter, coordinates
/// clamped to the edge on every axis.
pub open spec fn atlas_sampler() -> SamplerDescriptor {
    SamplerDescriptor {
        address_mode_u: AddressMode::ClampToEdge,
        address_mode_v: AddressMode::ClampToEdge,
        address_mode_w: AddressMode::ClampToEdge,
        mag_filter: FilterMode::Nearest,
        min_filter: FilterMode::Nearest,
        mipmap_filter: FilterMode::Nearest,
    }
}

/// The uniform buffer: room for the screen size, written by copies.
pub open spec fn uniform_descriptor() -> BufferDescriptor {
    BufferDescriptor {
        size: 8,
        usage: BufferUsage { copy_dst: true, index: false, vertex: false, uniform: true },
        mapped_at_creation: false,
    }
}

/// The common bind group: the uniform buffer at binding 0, the sampler at
/// binding 1.
pub open spec fn common_entries() -> Seq<BindGroupEntry> {
    seq![
        BindGroupEntry { binding: 0, resource: BindingResource::UniformBuffer },
        BindGroupEntry { binding: 1, resource: BindingResource::Sampler },
    ]
}

/// The texture bind group: the atlas texture's view at binding 0.
pub open spec fn texture_entries() -> Seq<BindGroupEntry> {
    seq![BindGroupEntry { binding: 0, resource: BindingResource::AtlasView }]
}

/// The bind groups of the pipeline layout, by slot.
pub open spec fn pipeline_slots() -> Seq<BindGroupKind> {
    seq![BindGroupKind::Common, BindGroupKind::Texture]
}

/// The attributes of a vertex: position, texture coordinate and colour at
/// shader locations 0, 1 and 2, one behind the other.
pub open spec fn vertex_attributes() -> Seq<VertexAttributeDescriptor> {
    seq![
        VertexAttributeDescriptor { offset: 0, format: VertexFormat::Float2, shader_location: 0 },
        VertexAttributeDescriptor { offset: 8, format: VertexFormat::Float2, shader_location: 1 },
        VertexAttributeDescriptor { offset: 16, format: VertexFormat::Float4, shader_location: 2 },
    ]
}

/// Blending of a colour whose alpha is not yet multiplied in: the source
/// weighted by its alpha over the target weighted by the rest.
pub open spec fn alpha_color_blend() -> BlendDescriptor {
    BlendDescriptor {
        src_factor: BlendFactor::SrcAlpha,
        dst_factor: BlendFactor::OneMinusSrcAlpha,
        operation: BlendOperation::Add,
    }
}

/// Blending of the alpha channel: the source's alpha over the target's
/// weighted by the rest.
pub open spec fn alpha_alpha_blend() -> BlendDescriptor {
    BlendDescriptor {
        src_factor: BlendFactor::One,
        dst_factor: BlendFactor::OneMinusSrcAlpha,
        operation: BlendOperation::Add,
    }
}

/// The colour target: the given format, alpha blending, every channel
/// written.
pub open spec fn color_target(format: wgpu::TextureFormat) -> ColorStateDescriptor {
    ColorStateDescriptor {
        format,
        alpha_blend: alpha_alpha_blend(),
        color_blend: alpha_color_blend(),
        write_mask: ColorWrite { red: true, green: true, blue: true, alpha: true },
    }
}

/// Holds of the pipeline that draws the GUI into a target of the given
/// format: triangle lists, counter-clockwise front faces, nothing culled, no
/// depth or stencil test, 32-bit indices, the vertex layout of
/// `vertex_attributes` with a stride of 32 bytes, one sample per pixel.
pub open spec fn is_gui_pipeline(
    pipeline: RenderPipelineDescriptor,
    format: wgpu::TextureFormat,
) -> bool {
    &&& pipeline.primitive_topology == PrimitiveTopology::TriangleList
    &&& pipeline.front_face == FrontFace::Ccw
    &&& pipeline.cull_mode == CullMode::Off
    &&& pipeline.color_state == color_target(format)
    &&& !pipeline.depth_stencil
    &&& pipeline.index_format == IndexFormat::Uint32
    &&& pipeline.vertex_buffer.stride == 32
    &&& pipeline.vertex_buffer.step_mode == InputStepMode::Vertex
    &&& pipeline.vertex_buffer.attributes@ == vertex_attributes()
    &&& pipeline.sample_count == 1
    &&& pipeline.sample_mask == 0xFFFF_FFFF
    &&& !pipeline.alpha_to_coverage_enabled
}

/// Attributes that lie one behind the other from `offset` on, and the
/// offset behind the last of them.
pub open spec fn packed_end(attributes: Seq<VertexAttributeDescriptor>, offset: int) -> Option<int>
    decreases attributes.len(),
{
    if attributes.len() == 0 {
        Some(offset)
    } else if attributes[0].offset == offset {
        packed_end(attributes.drop_first(), offset + attributes[0].format.spec_size())
    } else {
        None
    }
}

/// The vertex attributes are tightly packed and fill the stride of a vertex,
/// which is the size of the eight words that a vertex buffer holds for a
/// vertex.
pub proof fn lemma_vertex_layout_packed()
    ensures
        packed_end(vertex_attributes(), 0) == Some(32int),
        32 == 4 * crate::vertex::VERTEX_WORDS,
{
    let a0 = vertex_attributes();
    let a1 = a0.drop_first();
    let a2 = a1.drop_first();
    let a3 = a2.drop_first();
    assert(a3.len() == 0);
    assert(packed_end(a3, 32) == Some(32int));
    assert(packed_end(a2, 16) == Some(32int));
    assert(packed_end(a1, 8) == Some(32int));
}

/// A buffer that the render pass holds on the GPU: its length in bytes. Its
/// place in the render pass's list stands for the handle.
#[derive(Clone, Copy, Debug, PartialEq, Eq)]
pub struct Buffer {
    pub size: usize,
}

/// The bind group of the atlas texture: the size of the texture that it
/// refers to.
#[derive(Clone, Copy, Debug, PartialEq, Eq)]
pub struct TextureBindGroup {
    pub size: Extent3d,
}

/// The render pass. It holds the descriptions of the resources that are made
/// once, the size of the atlas texture behind the texture bind group, and
/// the sizes of the buffers of the latest frame.
pub struct RenderPass {
    render_pipeline: RenderPipelineDescriptor,
    pipeline_layout: [BindGroupKind; 2],
    common_bind_group: [BindGroupEntry; 2],
    common_bind_group_layout: [BindGroupLayoutEntry; 2],
    texture_bind_group_layout: [BindGroupLayoutEntry; 1],
    texture_bind_group: Option<TextureBindGroup>,
    uniform_buffer: BufferDescriptor,
    index_buffer: Vec<Buffer>,
    vertex_buffer: Vec<Buffer>,
    sampler: SamplerDescriptor,
}

impl View for RenderPass {
    type V = PassState;

    closed spec fn view(&self) -> PassState {
        PassState {
            format: self.render_pipeline.color_state.format,
            texture: match self.texture_bind_group {
                Some(group) => Some(group.size),
                None => None,
            },
            index_sizes: Seq::new(
                self.index_buffer@.len(),
                |i: int| self.index_buffer@[i].size as nat,
            ),
            vertex_sizes: Seq::new(
                self.vertex_buffer@.len(),
                |i: int| self.vertex_buffer@[i].size as nat,
            ),
        }
    }
}

impl RenderPass {
    /// The resources that are made once are the ones that `new` describes,
    /// and the buffers are those of a whole frame.
    pub closed spec fn wf(&self) -> bool {
        &&& self@.wf()
        &&& is_gui_pipeline(self.render_pipeline, self@.format)
        &&& self.pipeline_layout@ == pipeline_slots()
        &&& self.common_bind_group@ == common_entries()
        &&& self.common_bind_group_layout@ == common_layout()
        &&& self.texture_bind_group_layout@ == texture_layout()
        &&& self.uniform_buffer == uniform_descriptor()
        &&& self.sampler == atlas_sampler()
    }

    /// Describes the resources of a render pass that draws into a target of
    /// the given format. The pass holds no buffers and no atlas texture yet.
    pub fn new(format: wgpu::TextureFormat) -> (pass: RenderPass)
        ensures
            pass.wf(),
            pass@ == PassState::initial(format),
    {
        let common_bind_group_layout = [
            BindGroupLayoutEntry {
                binding: 0,
                visibility: ShaderStage::Vertex,
                ty: BindingType::UniformBuffer { dynamic: false, min_binding_size: None },
                count: None,
            },
            BindGroupLayoutEntry {
                binding: 1,
                visibility: ShaderStage::Fragment,
                ty: BindingType::Sampler { comparison: false },
                count: None,
            },
        ];
        let texture_bind_group_layout = [
            BindGroupLayoutEntry {
                binding: 0,
                visibility: ShaderStage::Fragment,
                ty: BindingType::SampledTexture {
                    dimension: TextureViewDimension::D2,
                    component_type: TextureComponentType::Float,
                    multisampled: false,
                },
                count: None,
            },
        ];
        let sampler = SamplerDescriptor {
            address_mode_u: AddressMode::ClampToEdge,
            address_mode_v: AddressMode::ClampToEdge,
            address_mode_w: AddressMode::ClampToEdge,
            mag_filter: FilterMode::Nearest,
            min_filter: FilterMode::Nearest,
            mipmap_filter: FilterMode::Nearest,
        };
        let uniform_buffer = BufferDescriptor {
            size: UNIFORM_SIZE,
            usage: BufferUsage { copy_dst: true, index: false, vertex: false, uniform: true },
            mapped_at_creation: false,
        };
        let common_bind_group = [
            BindGroupEntry { binding: 0, resource: BindingResource::UniformBuffer },
            BindGroupEntry { binding: 1, resource: BindingResource::Sampler },
        ];
        let pipeline_layout = [BindGroupKind::Common, BindGroupKind::Texture];
        let position = VertexAttributeDescriptor {
            offset: 0,
            format: VertexFormat::Float2,
            shader_location: 0,
        };
        let uv = VertexAttributeDescriptor {
            offset: position.offset + position.format.size(),
            format: VertexFormat::Float2,
            shader_location: 1,
        };
        let color = VertexAttributeDescriptor {
            offset: uv.offset + uv.format.size(),
            format: VertexFormat::Float4,
            shader_location: 2,
        };
        let render_pipeline = RenderPipelineDescriptor {
            primitive_topology: PrimitiveTopology::TriangleList,
            front_face: FrontFace::Ccw,
            cull_mode: CullMode::Off,
            color_state: ColorStateDescriptor {
                format,
                alpha_blend: BlendDescriptor {
                    src_factor: BlendFactor::One,
                    dst_factor: BlendFactor::OneMinusSrcAlpha,
                    operation: BlendOperation::Add,
                },
                color_blend: BlendDescriptor {
                    src_factor: BlendFactor::SrcAlpha,
                    dst_factor: BlendFactor::OneMinusSrcAlpha,
                    operation: BlendOperation::Add,
                },
                write_mask: ColorWrite { red: true, green: true, blue: true, alpha: true },
            },
            depth_stencil: false,
            index_format: IndexFormat::Uint32,
            vertex_buffer: VertexBufferDescriptor {
                stride: color.offset + color.format.size(),
                step_mode: InputStepMode::Vertex,
                attributes: [position, uv, color],
            },
            sample_count: 1,
            sample_mask: u32::MAX,
            alpha_to_coverage_enabled: false,
        };
        let pass = RenderPass {
            render_pipeline,
            pipeline_layout,
            common_bind_group,
            common_bind_group_layout,
            texture_bind_group_layout,
            texture_bind_group: None,
            uniform_buffer,
            index_buffer: Vec::new(),
            vertex_buffer: Vec::new(),
            sampler,
        };
        proof {
            assert(pass@.index_sizes =~= Seq::<nat>::empty());
            assert(pass@.vertex_sizes =~= Seq::<nat>::empty());
            assert(pass.render_pipeline.vertex_buffer.attributes@ =~= vertex_attributes());
            assert(pass.pipeline_layout@ =~= pipeline_slots());
            assert(pass.common_bind_group@ =~= common_entries());
            assert(pass.common_bind_group_layout@ =~= common_layout());
            assert(pass.texture_bind_group_layout@ =~= texture_layout());
        }
        pass
    }

    /// Replaces the atlas texture by one of the atlas's dimensions and says
    /// how to make it: a single-channel two-dimensional texture that is
    /// sampled and copied into, filled by one write of the atlas's bytes
    /// whose rows are `width` bytes apart, and bound at binding 0 of the
    /// texture bind group. A texture that the pass held before is dropped.
    pub fn upload_texture<'a>(&mut self, atlas: &'a FontAtlas) -> (upload: TextureUpload<'a>)
        requires
            old(self).wf(),
            atlas.is_valid(),
        ensures
            final(self).wf(),
            final(self)@ == old(self)@.with_texture(atlas.width as nat, atlas.height as nat),
            upload.is_for(*atlas),
    {
        let texture_size = Extent3d {
            width: atlas.width as u32,
            height: atlas.height as u32,
            depth: 1,
        };
        let upload = TextureUpload {
            texture: TextureDescriptor {
                size: texture_size,
                mip_level_count: 1,
                sample_count: 1,
                dimension: TextureDimension::D2,
                format: AtlasFormat::R8Unorm,
                usage: TextureUsage { copy_dst: true, sampled: true },
            },
            mip_level: 0,
            origin: Origin3d { x: 0, y: 0, z: 0 },
            data: atlas.pixels.as_slice(),
            layout: TextureDataLayout {
                offset: 0,
                bytes_per_row: texture_size.width,
                rows_per_image: texture_size.height,
            },
            copy_size: texture_size,
            bind_group: [BindGroupEntry { binding: 0, resource: BindingResource::AtlasView }],
        };
        self.texture_bind_group = Some(TextureBindGroup { size: texture_size });
        proof {
            assert(upload.bind_group@ =~= texture_entries());
            assert(self@.index_sizes =~= old(self)@.index_sizes);
            assert(self@.vertex_sizes =~= old(self)@.vertex_sizes);
        }
        upload
    }

    /// Replaces the buffers of the pass by those of a frame and says how to
    /// make them: for every batch, in the batches' order, an index buffer
    /// that holds its indices and a vertex buffer that holds its vertices in
    /// the layout of the vertex stage; and the screen size, written to the
    /// start of the uniform buffer as two little-endian singles. No buffer
    /// of an earlier frame stays.
    pub fn upload_buffers(&mut self, screen_size: ScreenSize, paint_jobs: &Vec<PaintBatch>) -> (upload:
        BufferUpload)
        requires
            old(self).wf(),
            all_drawable(paint_jobs@),
        ensures
            final(self).wf(),
            final(self)@ == old(self)@.with_buffers(paint_jobs@),
            upload.is_for(screen_size, paint_jobs@),
    {
        self.index_buffer.clear();
        self.vertex_buffer.clear();
        let mut index_buffers: Vec<BufferInit> = Vec::new();
        let mut vertex_buffers: Vec<BufferInit> = Vec::new();

        for i in 0..paint_jobs.len()
            invariant
                all_drawable(paint_jobs@),
                self.index_buffer@.len() == i,
                self.vertex_buffer@.len() == i,
                index_buffers@.len() == i,
                vertex_buffers@.len() == i,
                forall|k: int|
                    0 <= k < i ==> (#[trigger] self.index_buffer@[k]).size == 4
                        * paint_jobs@[k].indices@.len(),
                forall|k: int|
                    0 <= k < i ==> (#[trigger] self.vertex_buffer@[k]).size == 32
                        * paint_jobs@[k].vertices@.len(),
                forall|k: int|
                    0 <= k < i ==> (#[trigger] index_buffers@[k]).holds_indices(paint_jobs@[k]),
                forall|k: int|
                    0 <= k < i ==> (#[trigger] vertex_buffers@[k]).holds_vertices(paint_jobs@[k]),
                self.render_pipeline == old(self).render_pipeline,
                self.pipeline_layout == old(self).pipeline_layout,
                self.common_bind_group == old(self).common_bind_group,
                self.common_bind_group_layout == old(self).common_bind_group_layout,
                self.texture_bind_group_layout == old(self).texture_bind_group_layout,
                self.texture_bind_group == old(self).texture_bind_group,
                self.uniform_buffer == old(self).uniform_buffer,
                self.sampler == old(self).sampler,
        {
            let triangles = &paint_jobs[i];
            let index_data = index_data(&triangles.indices);
            let vertex_data = vertex_data(&triangles.vertices);
            self.index_buffer.push(Buffer { size: index_data.len() });
            self.vertex_buffer.push(Buffer { size: vertex_data.len() });
            index_buffers.push(
                BufferInit {
                    contents: index_data,
                    usage: BufferUsage { copy_dst: false, index: true, vertex: false, uniform: false },
                },
            );
            vertex_buffers.push(
                BufferInit {
                    contents: vertex_data,
                    usage: BufferUsage { copy_dst: false, index: false, vertex: true, uniform: false },
                },
            );
        }

        let uniform_write = BufferWrite {
            offset: 0,
            data: record_bytes(screen_size.width, screen_size.height),
        };
        proof {
            let after = old(self)@.with_buffers(paint_jobs@);
            assert(self@.index_sizes =~= after.index_sizes);
            assert(self@.vertex_sizes =~= after.vertex_sizes);
            assert(self@.wf()) by {
                assert forall|k: int| 0 <= k < self@.index_sizes.len() implies {
                    &&& (#[trigger] self@.index_sizes[k]) % 4 == 0
                    &&& self@.index_sizes[k] / 4 <= u32::MAX
                } by {
                    assert(paint_jobs@[k].is_drawable());
                }
            }
        }
        BufferUpload { index_buffers, vertex_buffers, uniform_write }
    }

    /// Records the pass that draws the latest frame: the target is cleared
    /// to the colour, or keeps its contents where none is given, and is
    /// stored; the pipeline is bound; then every batch is drawn, in the order
    /// of the upload, from its own index and vertex buffer.
    pub fn encode(&self, clear_color: Option<wgpu::Color>) -> (pass: EncodedPass)
        requires
            self.wf(),
            self@.texture is Some,
        ensures
            pass.ops.load == match clear_color {
                Some(color) => LoadOp::Clear(color),
                None => LoadOp::Load,
            },
            pass.ops.store,
            pass.commands@ == self@.commands(),
    {
        let ops = Operations {
            load: match clear_color {
                Some(color) => LoadOp::Clear(color),
                None => LoadOp::Load,
            },
            store: true,
        };
        let mut commands: Vec<Command> = Vec::new();
        commands.push(Command::SetPipeline);
        for i in 0..self.index_buffer.len()
            invariant
                self.wf(),
                commands@.len() == 1 + 5 * i,
                forall|j: int| 0 <= j < 1 + 5 * i ==> commands@[j] == self@.commands()[j],
        {
            let index_count = self.index_buffer[i].size / 4;
            proof {
                assert(self@.index_sizes[i as int] == self.index_buffer@[i as int].size);
            }
            commands.push(Command::SetIndexBuffer { buffer: i });
            commands.push(Command::SetVertexBuffer { slot: 0, buffer: i });
            commands.push(Command::SetBindGroup { index: 0, group: BindGroupKind::Common });
            commands.push(Command::SetBindGroup { index: 1, group: BindGroupKind::Texture });
            commands.push(
                Command::DrawIndexed {
                    first_index: 0,
                    end_index: index_count as u32,
                    base_vertex: 0,
                    first_instance: 0,
                    end_instance: 1,
                },
            );
        }
        assert(commands@ =~= self@.commands());
        EncodedPass { ops, commands }
    }

    /// The format of the target.
    pub fn format(&self) -> (format: wgpu::TextureFormat)
        ensures
            format == self@.format,
    {
        self.render_pipeline.color_state.format
    }

    /// The render pipeline.
    pub fn render_pipeline(&self) -> (pipeline: RenderPipelineDescriptor)
        requires
            self.wf(),
        ensures
            is_gui_pipeline(pipeline, self@.format),
    {
        self.render_pipeline
    }

    /// The pipeline layout: the bind group of every slot, and no push
    /// constants.
    pub fn pipeline_layout(&self) -> (slots: [BindGroupKind; 2])
        requires
            self.wf(),
        ensures
            slots@ == pipeline_slots(),
    {
        self.pipeline_layout
    }

    /// The entries of the common bind group.
    pub fn common_bind_group(&self) -> (entries: [BindGroupEntry; 2])
        requires
            self.wf(),
        ensures
            entries@ == common_entries(),
    {
        self.common_bind_group
    }

    /// The layout of the common bind group.
    pub fn common_bind_group_layout(&self) -> (entries: [BindGroupLayoutEntry; 2])
        requires
            self.wf(),
        ensures
            entries@ == common_layout(),
    {
        self.common_bind_group_layout
    }

    /// The layout of the texture bind group.
    pub fn texture_bind_group_layout(&self) -> (entries: [BindGroupLayoutEntry; 1])
        requires
            self.wf(),
        ensures
            entries@ == texture_layout(),
    {
        self.texture_bind_group_layout
    }

    /// The texture bind group, once an atlas was uploaded.
    pub fn texture_bind_group(&self) -> (group: Option<TextureBindGroup>)
        ensures
            group is Some == self@.texture is Some,
            group is Some ==> group->Some_0.size == self@.texture->Some_0,
    {
        self.texture_bind_group
    }

    /// The uniform buffer.
    pub fn uniform_buffer(&self) -> (buffer: BufferDescriptor)
        requires
            self.wf(),
        ensures
            buffer == uniform_descriptor(),
    {
        self.uniform_buffer
    }

    /// The sampler.
    pub fn sampler(&self) -> (sampler: SamplerDescriptor)
        requires
            self.wf(),
        ensures
            sampler == atlas_sampler(),
    {
        self.sampler
    }

    /// The index buffers of the latest frame, in batch order.
    pub fn index_buffers(&self) -> (buffers: &Vec<Buffer>)
        ensures
            buffers@.len() == self@.index_sizes.len(),
            forall|i: int|
                0 <= i < buffers@.len() ==> (#[trigger] buffers@[i]).size == self@.index_sizes[i],
    {
        &self.index_buffer
    }

    /// The vertex buffers of the latest frame, in batch order.
    pub fn vertex_buffers(&self) -> (buffers: &Vec<Buffer>)
        ensures
            buffers@.len() == self@.vertex_sizes.len(),
            forall|i: int|
                0 <= i < buffers@.len() ==> (#[trigger] buffers@[i]).size == self@.vertex_sizes[i],
    {
        &self.vertex_buffer
    }
}

} // verus!
