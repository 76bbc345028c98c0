use vstd::prelude::*;

use crate::render_pass::Pipeline;

verus! {

/// A two-dimensional size in pixels.
#[derive(Clone, Copy, Debug, PartialEq, Eq, Structural)]
pub struct Extent {
    pub width: u32,
    pub height: u32,
}

/// A color as four normalized 8-bit channels.
#[derive(Clone, Copy, Debug, PartialEq, Eq, Structural)]
pub struct Rgba8 {
    pub r: u8,
    pub g: u8,
    pub b: u8,
    pub a: u8,
}

/// Values written to the attachments when a render pass begins.
///
/// The depth is a normalized 16-bit value, so `u16::MAX` stands for 1.0.
#[derive(Clone, Copy, Debug, PartialEq, Eq, Structural)]
pub struct ClearValues {
    pub color: Rgba8,
    pub depth: u16,
}

/// How the commands of a render pass are given.
#[derive(Clone, Copy, Debug, PartialEq, Eq, Structural)]
pub enum SubpassContents {
    /// Recorded directly in the primary sequence.
    Inline,
    /// Executed from secondary-level sequences.
    SecondaryCommandBuffers,
}

/// One entry of a secondary-level command sequence, recorded for a subpass.
#[derive(Clone, Copy, Debug, PartialEq, Eq, Structural)]
pub enum Command {
    /// Bind the graphics pipeline with the given state.
    BindPipeline { pipeline: Pipeline },
    /// Set the dynamic viewport to cover the given extent.
    SetViewport { extent: Extent },
    /// Bind the vertex buffer with the given handle.
    BindVertexBuffer { buffer: u64 },
    /// Issue one non-indexed draw.
    Draw { vertex_count: usize, instance_count: u32 },
}

/// A secondary-level command sequence, to be executed inside subpass
/// `subpass` of a render pass.
#[derive(Clone, Debug, PartialEq, Eq)]
pub struct SecondaryCommands {
    pub subpass: u32,
    pub commands: Vec<Command>,
}

/// One entry of a primary-level command sequence.
#[derive(Clone, Debug, PartialEq, Eq)]
pub enum PrimaryCommand {
    /// Begin the render pass on the framebuffer of the given swapchain image.
    BeginRenderPass { framebuffer: usize, clear: ClearValues, contents: SubpassContents },
    /// Execute a secondary-level sequence inside the current render pass.
    ExecuteCommands { secondary: SecondaryCommands },
    /// End the current render pass.
    EndRenderPass,
}

/// A primary command as seen by contracts.
pub enum PrimaryModel {
    BeginRenderPass { framebuffer: usize, clear: ClearValues, contents: SubpassContents },
    ExecuteCommands { subpass: u32, commands: Seq<Command> },
    EndRenderPass,
}

impl PrimaryCommand {
    pub open spec fn model(&self) -> PrimaryModel {
        match self {
            PrimaryCommand::BeginRenderPass { framebuffer, clear, contents } => {
                PrimaryModel::BeginRenderPass {
                    framebuffer: *framebuffer,
                    clear: *clear,
                    contents: *contents,
                }
            },
            PrimaryCommand::ExecuteCommands { secondary } => PrimaryModel::ExecuteCommands {
                subpass: secondary.subpass,
                commands: secondary.commands@,
            },
            PrimaryCommand::EndRenderPass => PrimaryModel::EndRenderPass,
        }
    }
}

/// The models of a primary sequence, in order.
pub open spec fn primary_models(cmds: Seq<PrimaryCommand>) -> Seq<PrimaryModel> {
    cmds.map_values(|c: PrimaryCommand| c.model())
}

/// Clear values used by every frame: opaque white and the far depth plane.
pub open spec fn frame_clear_spec() -> ClearValues {
    ClearValues { color: Rgba8 { r: 255u8, g: 255u8, b: 255u8, a: 255u8 }, depth: 0xffffu16 }
}

impl ClearValues {
    /// Opaque white color and depth 1.0.
    pub fn frame_clear() -> (r: ClearValues)
        ensures
            r == frame_clear_spec(),
    {
        ClearValues { color: Rgba8 { r: 255u8, g: 255u8, b: 255u8, a: 255u8 }, depth: 0xffffu16 }
    }
}

} // verus!
