use vstd::prelude::*;

use crate::command::Extent;

verus! {

/// How presented images are queued for display.
#[derive(Clone, Copy, Debug, PartialEq, Eq, Structural)]
pub enum PresentMode {
    Immediate,
    Mailbox,
    /// Images are shown in the order they were presented, one per vertical
    /// blank; never tears.
    Fifo,
    FifoRelaxed,
}

/// A failure while building the device-side objects of the renderer.
#[derive(Clone, Copy, Debug, PartialEq, Eq, Structural)]
pub enum SetupError {
    /// The surface reports no color format.
    NoSurfaceFormat,
    /// The surface reports no alpha compositing mode.
    NoAlphaMode,
    /// The swapchain was created without any image.
    NoSwapchainImages,
    /// The swapchain cannot be replaced while a frame is being drawn.
    FrameInProgress,
}

/// What the surface reports about the swapchains it accepts.
///
/// Formats and alpha modes are the numeric codes of the graphics API, in the
/// order the device reports them.
#[derive(Clone, Debug)]
pub struct SurfaceCapabilities {
    pub extent: Extent,
    pub formats: Vec<u32>,
    pub alpha_modes: Vec<u32>,
    pub min_image_count: u32,
}

/// The parameters a swapchain is created with.
#[derive(Clone, Copy, Debug, PartialEq, Eq, Structural)]
pub struct SwapchainConfig {
    pub format: u32,
    pub extent: Extent,
    pub image_count: u32,
    pub alpha_mode: u32,
    pub present_mode: PresentMode,
}

/// The configuration chosen for a surface with the given capabilities: the
/// first reported format and alpha mode, the surface's extent and minimum
/// image count, and first-in first-out presentation.
pub open spec fn config_of(
    extent: Extent,
    formats: Seq<u32>,
    alpha_modes: Seq<u32>,
    min_image_count: u32,
) -> SwapchainConfig {
    SwapchainConfig {
        format: formats[0],
        extent,
        image_count: min_image_count,
        alpha_mode: alpha_modes[0],
        present_mode: PresentMode::Fifo,
    }
}

impl SurfaceCapabilities {
    /// The configuration chosen for these capabilities, when one exists.
    pub open spec fn config_spec(&self) -> Result<SwapchainConfig, SetupError> {
        if self.formats@.len() == 0 {
            Err(SetupError::NoSurfaceFormat)
        } else if self.alpha_modes@.len() == 0 {
            Err(SetupError::NoAlphaMode)
        } else {
            Ok(config_of(self.extent, self.formats@, self.alpha_modes@, self.min_image_count))
        }
    }
}

impl SwapchainConfig {
    /// Chooses the swapchain configuration for a surface: its first format,
    /// its first alpha mode, its extent and minimum image count, and FIFO
    /// presentation, which keeps presentation order equal to submission order.
    pub fn from_capabilities(caps: &SurfaceCapabilities) -> (r: Result<SwapchainConfig, SetupError>)
        ensures
            r == caps.config_spec(),
    {
        if caps.formats.len() == 0 {
            return Err(SetupError::NoSurfaceFormat);
        }
        if caps.alpha_modes.len() == 0 {
            return Err(SetupError::NoAlphaMode);
        }
        Ok(
            SwapchainConfig {
                format: caps.formats[0],
                extent: caps.extent,
                image_count: caps.min_image_count,
                alpha_mode: caps.alpha_modes[0],
                present_mode: PresentMode::Fifo,
            },
        )
    }
}

/// A created swapchain: its configuration and the number of presentable
/// images the device gave it. Image `i` is addressed by its index.
#[derive(Clone, Copy, Debug, PartialEq, Eq, Structural)]
pub struct Swapchain {
    pub config: SwapchainConfig,
    pub image_count: usize,
}

impl Swapchain {
    /// A swapchain holds at least one image.
    pub open spec fn wf(&self) -> bool {
        self.image_count > 0
    }

    /// Records a swapchain created with `config` that holds `image_count`
    /// images; a swapchain without images is refused.
    pub fn new(config: SwapchainConfig, image_count: usize) -> (r: Result<Swapchain, SetupError>)
        ensures
            image_count == 0 ==> r == Err::<Swapchain, SetupError>(SetupError::NoSwapchainImages),
            image_count > 0 ==> r == Ok::<Swapchain, SetupError>(Swapchain { config, image_count }),
            r matches Ok(s) ==> s.wf(),
    {
        if image_count == 0 {
            return Err(SetupError::NoSwapchainImages);
        }
        Ok(Swapchain { config, image_count })
    }

    /// The format of the swapchain images.
    pub fn format(&self) -> (r: u32)
        ensures
            r == self.config.format,
    {
        self.config.format
    }

    /// The extent of the swapchain images.
    pub fn dimensions(&self) -> (r: Extent)
        ensures
            r == self.config.extent,
    {
        self.config.extent
    }
}

} // verus!
