//! What a frame asks the device and the queue to do: buffers and textures to
//! create, and the bytes to write into them.

use vstd::prelude::*;
use crate::bytes::{is_native_layout, little_endian};
use crate::descriptor::{BindGroupEntry, BindingResource, BufferUsage};
use crate::paint::{FontAtlas, PaintBatch, ScreenSize};
use crate::vertex::vertex_words;

verus! {

/// A buffer that is created with its contents.
#[derive(Clone, Debug, PartialEq, Eq)]
pub struct BufferInit {
    pub contents: Vec<u8>,
    pub usage: BufferUsage,
}

/// Bytes that the queue writes into the uniform buffer, from an offset on.
#[derive(Clone, Debug, PartialEq, Eq)]
pub struct BufferWrite {
    pub offset: u64,
    pub data: Vec<u8>,
}

/// The buffer work of one frame: an index buffer and a vertex buffer for
/// every batch, in the batches' order, and the screen size for the uniform
/// buffer.
#[derive(Clone, Debug, PartialEq, Eq)]
pub struct BufferUpload {
    pub index_buffers: Vec<BufferInit>,
    pub vertex_buffers: Vec<BufferInit>,
    pub uniform_write: BufferWrite,
}

/// The extent of a texture or of a copy, in texels.
#[derive(Clone, Copy, Debug, PartialEq, Eq)]
pub struct Extent3d {
    pub width: u32,
    pub height: u32,
    pub depth: u32,
}

/// A corner of a copy, in texels.
#[derive(Clone, Copy, Debug, PartialEq, Eq)]
pub struct Origin3d {
    pub x: u32,
    pub y: u32,
    pub z: u32,
}

/// The number of dimensions of a texture.
#[derive(Clone, Copy, Debug, PartialEq, Eq)]
pub enum TextureDimension {
    D1,
    D2,
    D3,
}

/// The texel format of the atlas texture.
#[derive(Clone, Copy, Debug, PartialEq, Eq)]
pub enum AtlasFormat {
    /// One channel of eight bits, read as a number from 0 to 1.
    R8Unorm,
}

/// The ways in which a texture may be used.
#[derive(Clone, Copy, Debug, PartialEq, Eq)]
pub struct TextureUsage {
    pub copy_dst: bool,
    pub sampled: bool,
}

/// A texture.
#[derive(Clone, Copy, Debug, PartialEq, Eq)]
pub struct TextureDescriptor {
    pub size: Extent3d,
    pub mip_level_count: u32,
    pub sample_count: u32,
    pub dimension: TextureDimension,
    pub format: AtlasFormat,
    pub usage: TextureUsage,
}

/// How the bytes of a texture write are laid out.
#[derive(Clone, Copy, Debug, PartialEq, Eq)]
pub struct TextureDataLayout {
    pub offset: u64,
    pub bytes_per_row: u32,
    pub rows_per_image: u32,
}

/// The texture work of an atlas upload: the texture to create, the write that
/// fills it, and the bind group that refers to its default view.
#[derive(Clone, Copy, Debug, PartialEq, Eq)]
pub struct TextureUpload<'a> {
    pub texture: TextureDescriptor,
    pub mip_level: u32,
    pub origin: Origin3d,
    pub data: &'a [u8],
    pub layout: TextureDataLayout,
    pub copy_size: Extent3d,
    pub bind_group: [BindGroupEntry; 1],
}

impl BufferInit {
    /// Holds of the index buffer of a batch: its contents are the batch's
    /// indices as the machine lays them out.
    pub open spec fn holds_indices(&self, batch: PaintBatch) -> bool {
        &&& is_native_layout(self.contents@, batch.indices@)
        &&& self.usage == BufferUsage { copy_dst: false, index: true, vertex: false, uniform: false }
    }

    /// Holds of the vertex buffer of a batch: its contents are the words of
    /// the batch's vertices as the machine lays them out.
    pub open spec fn holds_vertices(&self, batch: PaintBatch) -> bool {
        &&& is_native_layout(self.contents@, vertex_words(batch.vertices@))
        &&& self.usage == BufferUsage { copy_dst: false, index: false, vertex: true, uniform: false }
    }
}

impl BufferUpload {
    /// Holds of the buffer work for a frame: buffer `i` of either list is
    /// that of batch `i`, and the uniform buffer receives, from its start on,
    /// the width and then the height, each with its least significant byte
    /// first.
    pub open spec fn is_for(&self, screen_size: ScreenSize, batches: Seq<PaintBatch>) -> bool {
        &&& self.index_buffers@.len() == batches.len()
        &&& self.vertex_buffers@.len() == batches.len()
        &&& forall|i: int|
            0 <= i < batches.len() ==> (#[trigger] self.index_buffers@[i]).holds_indices(batches[i])
        &&& forall|i: int|
            0 <= i < batches.len() ==> (#[trigger] self.vertex_buffers@[i]).holds_vertices(
                batches[i],
            )
        &&& self.uniform_write.offset == 0
        &&& self.uniform_write.data@ == little_endian(seq![screen_size.width, screen_size.height])
    }
}

impl<'a> TextureUpload<'a> {
    /// Holds of the texture work for an atlas: a texture of the atlas's
    /// width and height and a depth of 1, with one mip level and one sample,
    /// filled from its origin by the atlas's bytes, row after row.
    pub open spec fn is_for(&self, atlas: FontAtlas) -> bool {
        let size = Extent3d { width: atlas.width as u32, height: atlas.height as u32, depth: 1 };
        &&& self.texture == TextureDescriptor {
            size,
            mip_level_count: 1,
            sample_count: 1,
            dimension: TextureDimension::D2,
            format: AtlasFormat::R8Unorm,
            usage: TextureUsage { copy_dst: true, sampled: true },
        }
        &&& self.mip_level == 0
        &&& self.origin == Origin3d { x: 0, y: 0, z: 0 }
        &&& self.data@ == atlas.pixels@
        &&& self.layout == TextureDataLayout {
            offset: 0,
            bytes_per_row: atlas.width as u32,
            rows_per_image: atlas.height as u32,
        }
        &&& self.copy_size == size
        &&& self.bind_group@ == seq![
            BindGroupEntry { binding: 0, resource: BindingResource::AtlasView },
        ]
    }
}

} // verus!
