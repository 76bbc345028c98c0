use vstd::prelude::*;

use crate::command::Extent;
use crate::render_pass::RenderPass;
use crate::swapchain::Swapchain;

verus! {

/// The attachments of one swapchain image: the image itself as color
/// attachment and the depth buffer shared by all framebuffers.
#[derive(Clone, Copy, Debug, PartialEq, Eq, Structural)]
pub struct Framebuffer {
    pub image_index: usize,
    pub extent: Extent,
    pub color_format: u32,
    pub depth_format: u32,
}

/// The framebuffer of image `i` of `swapchain` for `render_pass`.
pub open spec fn framebuffer_spec(i: int, swapchain: Swapchain, render_pass: RenderPass) -> Framebuffer {
    Framebuffer {
        image_index: i as usize,
        extent: swapchain.config.extent,
        color_format: render_pass.color.format,
        depth_format: render_pass.depth.format,
    }
}

/// `fbs` holds one framebuffer per swapchain image, in image order.
pub open spec fn framebuffers_match(
    fbs: Seq<Framebuffer>,
    swapchain: Swapchain,
    render_pass: RenderPass,
) -> bool {
    &&& fbs.len() == swapchain.image_count
    &&& forall|i: int| 0 <= i < fbs.len() ==> #[trigger] fbs[i] == framebuffer_spec(i, swapchain, render_pass)
}

/// Builds one framebuffer per image of `swapchain`, all sharing one depth
/// buffer of the swapchain's extent.
pub fn create_framebuffers(swapchain: &Swapchain, render_pass: &RenderPass) -> (r: Vec<Framebuffer>)
    ensures
        framebuffers_match(r@, *swapchain, *render_pass),
{
    let mut fbs: Vec<Framebuffer> = Vec::new();
    let mut i: usize = 0;
    while i < swapchain.image_count
        invariant
            i <= swapchain.image_count,
            fbs@.len() == i,
            forall|k: int| 0 <= k < i ==> #[trigger] fbs@[k] == framebuffer_spec(k, *swapchain, *render_pass),
        decreases swapchain.image_count - i,
    {
        fbs.push(
            Framebuffer {
                image_index: i,
                extent: swapchain.config.extent,
                color_format: render_pass.color.format,
                depth_format: render_pass.depth.format,
            },
        );
        i = i + 1;
    }
    fbs
}

} // verus!
