use vstd::prelude::*;

verus! {

/// Numeric code of the 16-bit normalized depth format.
pub const DEPTH_FORMAT: u32 = 124;

/// What happens to an attachment's contents when the render pass begins.
#[derive(Clone, Copy, Debug, PartialEq, Eq, Structural)]
pub enum LoadOp {
    Clear,
    Load,
    DontCare,
}

/// What happens to an attachment's contents when the render pass ends.
#[derive(Clone, Copy, Debug, PartialEq, Eq, Structural)]
pub enum StoreOp {
    Store,
    DontCare,
}

/// One attachment of a render pass, with a single sample per pixel.
#[derive(Clone, Copy, Debug, PartialEq, Eq, Structural)]
pub struct Attachment {
    pub format: u32,
    pub load: LoadOp,
    pub store: StoreOp,
}

/// A render pass with one color attachment, one depth attachment, and the
/// given number of subpasses that all write both.
#[derive(Clone, Copy, Debug, PartialEq, Eq, Structural)]
pub struct RenderPass {
    pub color: Attachment,
    pub depth: Attachment,
    pub subpass_count: u32,
}

/// The render pass used for a swapchain of the given color format: both
/// attachments cleared on load and stored, one subpass.
pub open spec fn render_pass_spec(color_format: u32) -> RenderPass {
    RenderPass {
        color: Attachment { format: color_format, load: LoadOp::Clear, store: StoreOp::Store },
        depth: Attachment { format: DEPTH_FORMAT, load: LoadOp::Clear, store: StoreOp::Store },
        subpass_count: 1,
    }
}

/// Builds the render pass for a swapchain of the given color format.
pub fn create_renderpass(color_format: u32) -> (r: RenderPass)
    ensures
        r == render_pass_spec(color_format),
{
    RenderPass {
        color: Attachment { format: color_format, load: LoadOp::Clear, store: StoreOp::Store },
        depth: Attachment { format: DEPTH_FORMAT, load: LoadOp::Clear, store: StoreOp::Store },
        subpass_count: 1,
    }
}

#[derive(Clone, Copy, Debug, PartialEq, Eq, Structural)]
pub enum Topology {
    TriangleList,
    TriangleStrip,
    LineList,
    PointList,
}

#[derive(Clone, Copy, Debug, PartialEq, Eq, Structural)]
pub enum CullMode {
    Disabled,
    Front,
    Back,
}

#[derive(Clone, Copy, Debug, PartialEq, Eq, Structural)]
pub enum FrontFace {
    Clockwise,
    CounterClockwise,
}

#[derive(Clone, Copy, Debug, PartialEq, Eq, Structural)]
pub enum PolygonMode {
    Fill,
    Line,
    Point,
}

/// How fragment colors are combined with the attachment.
#[derive(Clone, Copy, Debug, PartialEq, Eq, Structural)]
pub enum BlendMode {
    /// The fragment color replaces the stored color.
    PassThrough,
    AlphaBlending,
}

/// The fixed state of a graphics pipeline.
///
/// Vertices are read from one buffer; each holds `position_components`
/// 32-bit floats, `vertex_stride` bytes apart. With `dynamic_viewport` the
/// viewport is set by each draw rather than fixed in the pipeline. Lines
/// are `line_width` pixels wide.
#[derive(Clone, Copy, Debug, PartialEq, Eq, Structural)]
pub struct Pipeline {
    pub subpass: u32,
    pub position_components: u32,
    pub vertex_stride: u32,
    pub topology: Topology,
    pub primitive_restart: bool,
    pub polygon_mode: PolygonMode,
    pub depth_clamp: bool,
    pub line_width: u32,
    pub cull_mode: CullMode,
    pub front_face: FrontFace,
    pub blend: BlendMode,
    pub dynamic_viewport: bool,
    pub depth_test: bool,
}

/// A pipeline can be used inside a render pass when its subpass exists there.
pub open spec fn compatible(p: Pipeline, rp: RenderPass) -> bool {
    p.subpass < rp.subpass_count
}

/// The pipeline every drawable uses: position-only vertices of three floats,
/// triangle lists without primitive restart, filled polygons without depth
/// clamping, lines one pixel wide, back faces culled, clockwise front faces,
/// colors passed through, a dynamic viewport and a depth test, in the first
/// subpass.
pub open spec fn pipeline_spec() -> Pipeline {
    Pipeline {
        subpass: 0,
        position_components: 3,
        vertex_stride: 12,
        topology: Topology::TriangleList,
        primitive_restart: false,
        polygon_mode: PolygonMode::Fill,
        depth_clamp: false,
        line_width: 1,
        cull_mode: CullMode::Back,
        front_face: FrontFace::Clockwise,
        blend: BlendMode::PassThrough,
        dynamic_viewport: true,
        depth_test: true,
    }
}

/// Builds the graphics pipeline for the first subpass of `render_pass`.
pub fn create_graphics_pipeline(render_pass: &RenderPass) -> (r: Pipeline)
    requires
        render_pass.subpass_count > 0,
    ensures
        r == pipeline_spec(),
        compatible(r, *render_pass),
{
    Pipeline {
        subpass: 0,
        position_components: 3,
        vertex_stride: 12,
        topology: Topology::TriangleList,
        primitive_restart: false,
        polygon_mode: PolygonMode::Fill,
        depth_clamp: false,
        line_width: 1,
        cull_mode: CullMode::Back,
        front_face: FrontFace::Clockwise,
        blend: BlendMode::PassThrough,
        dynamic_viewport: true,
        depth_test: true,
    }
}

} // verus!
