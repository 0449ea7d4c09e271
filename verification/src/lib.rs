//! Frame planning for drawing a GUI toolkit's triangulated output with a GPU.
//!
//! The crate decides, for every frame, which GPU resources exist, what bytes
//! they hold and which commands draw them. It touches no device: the caller
//! creates the resources and records the commands that the plan names.

pub mod bytes;
pub mod color;
pub mod command;
pub mod descriptor;
pub mod paint;
pub mod render_pass;
pub mod replay;
pub mod state;
pub mod upload;
pub mod vertex;

pub use render_pass::RenderPass;
