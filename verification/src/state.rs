//! What a render pass holds, as a mathematical value, and how the frame
//! operations change it.

use vstd::prelude::*;
use crate::command::Command;
use crate::descriptor::BindGroupKind;
use crate::paint::{all_drawable, PaintBatch};
use crate::upload::Extent3d;

verus! {

/// The state of a render pass.
pub struct PassState {
    /// The format of the target.
    pub format: wgpu::TextureFormat,
    /// The size of the atlas texture, once an atlas was uploaded.
    pub texture: Option<Extent3d>,
    /// The byte length of every index buffer, in batch order.
    pub index_sizes: Seq<nat>,
    /// The byte length of every vertex buffer, in batch order.
    pub vertex_sizes: Seq<nat>,
}

impl PassState {
    /// A pass that was just made: no atlas texture, no buffers.
    pub open spec fn initial(format: wgpu::TextureFormat) -> PassState {
        PassState { format, texture: None, index_sizes: Seq::empty(), vertex_sizes: Seq::empty() }
    }

    /// The pass after an atlas of the given dimensions was uploaded: the one
    /// atlas texture has these dimensions and a depth of 1.
    pub open spec fn with_texture(self, width: nat, height: nat) -> PassState {
        PassState {
            texture: Some(Extent3d { width: width as u32, height: height as u32, depth: 1 }),
            ..self
        }
    }

    /// The pass after the buffers of a frame were uploaded: for every batch
    /// an index buffer of four bytes an index and a vertex buffer of 32 bytes
    /// a vertex, and none of the buffers that were there before.
    pub open spec fn with_buffers(self, batches: Seq<PaintBatch>) -> PassState {
        PassState {
            index_sizes: Seq::new(batches.len(), |i: int| 4 * batches[i].indices@.len()),
            vertex_sizes: Seq::new(batches.len(), |i: int| 32 * batches[i].vertices@.len()),
            ..self
        }
    }

    /// The number of batches that the pass holds buffers for.
    pub open spec fn batch_count(self) -> nat {
        self.index_sizes.len()
    }

    /// There is a vertex buffer for every index buffer, every buffer holds
    /// whole indices or whole vertices, and a draw can count the indices of
    /// every index buffer.
    pub open spec fn wf(self) -> bool {
        &&& self.index_sizes.len() == self.vertex_sizes.len()
        &&& forall|i: int|
            0 <= i < self.index_sizes.len() ==> {
                &&& (#[trigger] self.index_sizes[i]) % 4 == 0
                &&& self.index_sizes[i] / 4 <= u32::MAX
            }
        &&& forall|i: int|
            0 <= i < self.vertex_sizes.len() ==> (#[trigger] self.vertex_sizes[i]) % 32 == 0
    }

    /// Command `step` of the five that draw batch `batch`: bind its index
    /// buffer, bind its vertex buffer to slot 0, bind the common bind group
    /// to slot 0 and the texture bind group to slot 1, and draw every index
    /// of the index buffer once, with no offset.
    pub open spec fn batch_command(self, batch: int, step: int) -> Command {
        if step == 0 {
            Command::SetIndexBuffer { buffer: batch as usize }
        } else if step == 1 {
            Command::SetVertexBuffer { slot: 0, buffer: batch as usize }
        } else if step == 2 {
            Command::SetBindGroup { index: 0, group: BindGroupKind::Common }
        } else if step == 3 {
            Command::SetBindGroup { index: 1, group: BindGroupKind::Texture }
        } else {
            Command::DrawIndexed {
                first_index: 0,
                end_index: (self.index_sizes[batch] / 4) as u32,
                base_vertex: 0,
                first_instance: 0,
                end_instance: 1,
            }
        }
    }

    /// The commands of a pass: the pipeline is bound first, then the batches
    /// are drawn in their order, each with its five commands.
    pub open spec fn commands(self) -> Seq<Command> {
        Seq::new(
            1 + 5 * self.index_sizes.len(),
            |j: int|
                if j == 0 {
                    Command::SetPipeline
                } else {
                    self.batch_command((j - 1) / 5, (j - 1) % 5)
                },
        )
    }
}

/// After an upload of buffers the pass holds one index buffer and one vertex
/// buffer for every batch of the frame, the index buffer of a batch is four
/// bytes long for each of its indices, and its vertex buffer 32 bytes for
/// each of its vertices. Where a draw can cover every batch, the pass is
/// well-formed, whatever it held before.
pub proof fn lemma_buffers_per_batch(state: PassState, batches: Seq<PaintBatch>)
    ensures
        state.with_buffers(batches).index_sizes.len() == batches.len(),
        state.with_buffers(batches).vertex_sizes.len() == batches.len(),
        forall|i: int|
            0 <= i < batches.len() ==> {
                &&& (#[trigger] state.with_buffers(batches).index_sizes[i]) % 4 == 0
                &&& state.with_buffers(batches).index_sizes[i] / 4 == batches[i].indices@.len()
            },
        forall|i: int|
            0 <= i < batches.len() ==> {
                &&& (#[trigger] state.with_buffers(batches).vertex_sizes[i]) % 32 == 0
                &&& state.with_buffers(batches).vertex_sizes[i] / 32 == batches[i].vertices@.len()
            },
        all_drawable(batches) ==> state.with_buffers(batches).wf(),
{
    let after = state.with_buffers(batches);
    if all_drawable(batches) {
        assert forall|i: int| 0 <= i < after.index_sizes.len() implies {
            &&& (#[trigger] after.index_sizes[i]) % 4 == 0
            &&& after.index_sizes[i] / 4 <= u32::MAX
        } by {
            assert(batches[i].is_drawable());
        }
    }
}

/// A second upload of buffers leaves exactly the buffers of the second
/// frame: none of the first frame's stays.
pub proof fn lemma_upload_replaces(state: PassState, first: Seq<PaintBatch>, second: Seq<PaintBatch>)
    ensures
        state.with_buffers(first).with_buffers(second) == state.with_buffers(second),
        state.with_buffers(first).with_buffers(second).batch_count() == second.len(),
        state.with_buffers(first).with_buffers(second).vertex_sizes.len() == second.len(),
{
}

/// An atlas upload leaves the pass with one texture of the atlas's width and
/// height and a depth of 1, and a second upload replaces the texture of the
/// first.
pub proof fn lemma_texture_replaces(
    state: PassState,
    first_width: nat,
    first_height: nat,
    width: nat,
    height: nat,
)
    requires
        width <= u32::MAX,
        height <= u32::MAX,
    ensures
        state.with_texture(width, height).texture == Some(
            Extent3d { width: width as u32, height: height as u32, depth: 1 },
        ),
        state.with_texture(width, height).texture->Some_0.width == width,
        state.with_texture(width, height).texture->Some_0.height == height,
        state.with_texture(first_width, first_height).with_texture(width, height)
            == state.with_texture(width, height),
{
}

/// The two uploads do not touch each other's resources: the buffers stay
/// through an atlas upload, and the atlas texture through an upload of
/// buffers.
pub proof fn lemma_uploads_independent(
    state: PassState,
    batches: Seq<PaintBatch>,
    width: nat,
    height: nat,
)
    ensures
        state.with_texture(width, height).index_sizes == state.index_sizes,
        state.with_texture(width, height).vertex_sizes == state.vertex_sizes,
        state.with_buffers(batches).texture == state.texture,
        state.with_texture(width, height).with_buffers(batches) == state.with_buffers(
            batches,
        ).with_texture(width, height),
{
}

} // verus!
