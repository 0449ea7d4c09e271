//! The commands of a render pass, in the order in which they are recorded.

use vstd::prelude::*;
use crate::descriptor::BindGroupKind;

verus! {

/// What happens to the target's contents when the pass begins.
#[derive(Clone, Copy, Debug, PartialEq)]
pub enum LoadOp {
    /// The target is cleared to a colour.
    Clear(wgpu::Color),
    /// The target keeps what it holds.
    Load,
}

/// What happens to the target at the beginning and at the end of the pass.
#[derive(Clone, Copy, Debug, PartialEq)]
pub struct Operations {
    pub load: LoadOp,
    pub store: bool,
}

/// One command of the pass. A buffer is named by its position in the render
/// pass's list of index buffers or of vertex buffers.
#[derive(Clone, Copy, Debug, PartialEq, Eq)]
pub enum Command {
    SetPipeline,
    SetIndexBuffer { buffer: usize },
    SetVertexBuffer { slot: u32, buffer: usize },
    SetBindGroup { index: u32, group: BindGroupKind },
    DrawIndexed {
        first_index: u32,
        end_index: u32,
        base_vertex: i32,
        first_instance: u32,
        end_instance: u32,
    },
}

/// A recorded pass: one colour attachment with its operations, no depth or
/// stencil attachment, and the commands.
#[derive(Clone, Debug, PartialEq)]
pub struct EncodedPass {
    pub ops: Operations,
    pub commands: Vec<Command>,
}

} // verus!
