//! What a list of commands means: which resources are bound when a draw is
//! issued.

use vstd::prelude::*;
use crate::command::Command;
use crate::descriptor::BindGroupKind;
use crate::paint::{all_drawable, PaintBatch};
use crate::state::PassState;

verus! {

/// What is bound at a point of a pass: the pipeline, the index buffer, the
/// vertex buffer of slot 0, and the bind groups of the slots 0 and 1.
pub struct Bound {
    pub pipeline: bool,
    pub index_buffer: Option<usize>,
    pub vertex_buffer: Option<usize>,
    pub group0: Option<BindGroupKind>,
    pub group1: Option<BindGroupKind>,
}

/// A draw, with what was bound when it was issued.
pub struct Draw {
    pub bound: Bound,
    pub first_index: u32,
    pub end_index: u32,
    pub base_vertex: i32,
    pub first_instance: u32,
    pub end_instance: u32,
}

impl Bound {
    /// Nothing is bound when a pass begins.
    pub open spec fn nothing() -> Bound {
        Bound { pipeline: false, index_buffer: None, vertex_buffer: None, group0: None, group1: None }
    }

    /// What is bound after one more command. A command that binds replaces
    /// what its slot held; a draw binds nothing.
    pub open spec fn after(self, command: Command) -> Bound {
        match command {
            Command::SetPipeline => Bound { pipeline: true, ..self },
            Command::SetIndexBuffer { buffer } => Bound { index_buffer: Some(buffer), ..self },
            Command::SetVertexBuffer { slot, buffer } => if slot == 0 {
                Bound { vertex_buffer: Some(buffer), ..self }
            } else {
                self
            },
            Command::SetBindGroup { index, group } => if index == 0 {
                Bound { group0: Some(group), ..self }
            } else if index == 1 {
                Bound { group1: Some(group), ..self }
            } else {
                self
            },
            Command::DrawIndexed { .. } => self,
        }
    }

    /// Everything that a draw of the GUI pipeline reads is bound: the
    /// pipeline, buffer `batch` of either list, the common bind group in slot
    /// 0 and the texture bind group in slot 1.
    pub open spec fn complete(batch: int) -> Bound {
        Bound {
            pipeline: true,
            index_buffer: Some(batch as usize),
            vertex_buffer: Some(batch as usize),
            group0: Some(BindGroupKind::Common),
            group1: Some(BindGroupKind::Texture),
        }
    }
}

/// What is bound after a list of commands.
pub open spec fn bound_after(commands: Seq<Command>) -> Bound
    decreases commands.len(),
{
    if commands.len() == 0 {
        Bound::nothing()
    } else {
        bound_after(commands.drop_last()).after(commands.last())
    }
}

/// The draws of a list of commands, in their order, each with what the
/// commands before it had bound.
pub open spec fn draws(commands: Seq<Command>) -> Seq<Draw>
    decreases commands.len(),
{
    if commands.len() == 0 {
        Seq::empty()
    } else {
        let before = draws(commands.drop_last());
        match commands.last() {
            Command::DrawIndexed {
                first_index,
                end_index,
                base_vertex,
                first_instance,
                end_instance,
            } => before.push(
                Draw {
                    bound: bound_after(commands.drop_last()),
                    first_index,
                    end_index,
                    base_vertex,
                    first_instance,
                    end_instance,
                },
            ),
            _ => before,
        }
    }
}

/// The draw of batch `batch` of a pass: every index of its index buffer,
/// once, with the batch's own buffers bound.
pub open spec fn batch_draw(state: PassState, batch: int) -> Draw {
    Draw {
        bound: Bound::complete(batch),
        first_index: 0,
        end_index: (state.index_sizes[batch] / 4) as u32,
        base_vertex: 0,
        first_instance: 0,
        end_instance: 1,
    }
}

/// The draws of the first `count` batches of a pass.
pub open spec fn batch_draws(state: PassState, count: nat) -> Seq<Draw> {
    Seq::new(count, |i: int| batch_draw(state, i))
}

/// One more command adds its effect to what the commands before it did.
proof fn lemma_step(commands: Seq<Command>, k: int)
    requires
        0 <= k < commands.len(),
    ensures
        bound_after(commands.take(k + 1)) == bound_after(commands.take(k)).after(commands[k]),
        draws(commands.take(k + 1)) == match commands[k] {
            Command::DrawIndexed {
                first_index,
                end_index,
                base_vertex,
                first_instance,
                end_instance,
            } => draws(commands.take(k)).push(
                Draw {
                    bound: bound_after(commands.take(k)),
                    first_index,
                    end_index,
                    base_vertex,
                    first_instance,
                    end_instance,
                },
            ),
            _ => draws(commands.take(k)),
        },
{
    assert(commands.take(k + 1).drop_last() =~= commands.take(k));
    assert(commands.take(k + 1).last() == commands[k]);
}

/// After the commands of the first `count` batches, these batches have been
/// drawn and the last of them is still bound.
proof fn lemma_prefix(state: PassState, count: nat)
    requires
        count <= state.batch_count(),
    ensures
        draws(state.commands().take(1 + 5 * count as int)) == batch_draws(state, count),
        bound_after(state.commands().take(1 + 5 * count as int)) == if count == 0 {
            Bound { pipeline: true, ..Bound::nothing() }
        } else {
            Bound::complete(count - 1)
        },
    decreases count,
{
    let commands = state.commands();
    if count == 0 {
        lemma_step(commands, 0);
        assert(commands.take(0) =~= Seq::<Command>::empty());
        assert(draws(commands.take(1)) =~= batch_draws(state, 0));
    } else {
        let done = (count - 1) as nat;
        let base: int = 1 + 5 * (done as int);
        lemma_prefix(state, done);
        assert(commands[base] == state.batch_command(done as int, 0));
        assert(commands[base + 1] == state.batch_command(done as int, 1));
        assert(commands[base + 2] == state.batch_command(done as int, 2));
        assert(commands[base + 3] == state.batch_command(done as int, 3));
        assert(commands[base + 4] == state.batch_command(done as int, 4));
        lemma_step(commands, base);
        lemma_step(commands, base + 1);
        lemma_step(commands, base + 2);
        lemma_step(commands, base + 3);
        lemma_step(commands, base + 4);
        assert(draws(commands.take(base + 5)) =~= batch_draws(state, count));
    }
}

/// The commands of a pass draw every batch exactly once and in batch order;
/// when batch `i` is drawn, the pipeline, index buffer `i`, vertex buffer
/// `i`, the common bind group and the texture bind group are bound, and the
/// draw covers every index of index buffer `i`.
pub proof fn lemma_draws_in_batch_order(state: PassState)
    ensures
        draws(state.commands()) == batch_draws(state, state.batch_count()),
        draws(state.commands()).len() == state.batch_count(),
{
    lemma_prefix(state, state.batch_count());
    assert(state.commands().take(1 + 5 * state.batch_count() as int) =~= state.commands());
}

/// A pass without batches binds the pipeline and draws nothing.
pub proof fn lemma_no_batches_no_draws(state: PassState)
    requires
        state.batch_count() == 0,
    ensures
        state.commands() == seq![Command::SetPipeline],
        draws(state.commands()).len() == 0,
{
    lemma_draws_in_batch_order(state);
    assert(state.commands() =~= seq![Command::SetPipeline]);
}

/// Encoding after an upload of buffers draws the batches of that frame: as
/// many draws as batches, draw `i` with the buffers of batch `i` bound and
/// over as many indices as batch `i` has.
pub proof fn lemma_draws_cover_batches(state: PassState, batches: Seq<PaintBatch>)
    requires
        all_drawable(batches),
    ensures
        draws(state.with_buffers(batches).commands()).len() == batches.len(),
        forall|i: int|
            0 <= i < batches.len() ==> {
                let draw = #[trigger] draws(state.with_buffers(batches).commands())[i];
                &&& draw.bound == Bound::complete(i)
                &&& draw.first_index == 0
                &&& draw.end_index == batches[i].indices@.len()
                &&& draw.base_vertex == 0
                &&& draw.first_instance == 0
                &&& draw.end_instance == 1
            },
{
    let after = state.with_buffers(batches);
    lemma_draws_in_batch_order(after);
    assert forall|i: int| 0 <= i < batches.len() implies {
        let draw = #[trigger] draws(after.commands())[i];
        &&& draw.bound == Bound::complete(i)
        &&& draw.first_index == 0
        &&& draw.end_index == batches[i].indices@.len()
        &&& draw.base_vertex == 0
        &&& draw.first_instance == 0
        &&& draw.end_instance == 1
    } by {
        assert(batches[i].is_drawable());
        assert(draws(after.commands())[i] == batch_draw(after, i));
        assert(after.index_sizes[i] == 4 * batches[i].indices@.len());
    }
}

} // verus!
