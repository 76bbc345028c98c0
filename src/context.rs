use vstd::prelude::*;

use crate::command::{primary_models, Extent, PrimaryCommand};
use crate::draw_buffer::{DrawBuffer, DrawBufferModel};
use crate::frame::{check_scene, frame_commands, record_frame, scene_compatible, scene_models};
use crate::framebuffer::{create_framebuffers, framebuffers_match, Framebuffer};
use crate::render_pass::{
    compatible,
    create_graphics_pipeline,
    create_renderpass,
    pipeline_spec,
    render_pass_spec,
    Pipeline,
    RenderPass,
};
use crate::swapchain::{SetupError, SurfaceCapabilities, Swapchain, SwapchainConfig};

verus! {

/// Where the frame cycle stands.
///
/// A frame goes `Idle -> Acquiring -> Submitted -> Presenting -> Idle`; its
/// commands are recorded on the way from `Acquiring` to `Submitted`.
/// `Stopped` is entered on a fatal failure and never left.
#[derive(Clone, Copy, Debug, PartialEq, Eq, Structural)]
pub enum Phase {
    Idle,
    Acquiring,
    Submitted { image_index: usize },
    Presenting { image_index: usize },
    Stopped,
}

/// What the device reported after the caller performed the last action.
#[derive(Clone, Copy, Debug, PartialEq, Eq, Structural)]
pub enum FrameEvent {
    /// The caller wants to draw a frame.
    FrameRequested,
    /// The swapchain handed out the image with this index.
    ImageAcquired { image_index: usize },
    /// The swapchain no longer matches the surface.
    AcquireOutOfDate,
    /// The command stream was accepted by the graphics queue.
    SubmitSucceeded,
    /// Submission failed; this is fatal.
    SubmitFailed,
    /// The image was presented and the completion fence has signaled.
    PresentSucceeded,
    /// Presentation found the swapchain out of date or suboptimal.
    PresentOutOfDate,
}

/// What the caller must do next.
#[derive(Clone, Debug, PartialEq, Eq)]
pub enum FrameAction {
    /// Acquire the next swapchain image.
    AcquireImage,
    /// Rebuild the swapchain and call `recreate_swapchain`; the frame is dropped.
    RecreateSwapchain,
    /// Submit these commands, waiting on the acquisition of the image.
    Submit { image_index: usize, commands: Vec<PrimaryCommand> },
    /// Present the image on the same queue, signal the completion fence and
    /// wait for it.
    Present { image_index: usize },
    /// The frame is complete.
    FrameDone,
    /// Stop the frame loop.
    Halt,
}

/// An event that the frame cycle could not take.
#[derive(Clone, Copy, Debug, PartialEq, Eq, Structural)]
pub enum FrameError {
    /// The event does not belong to the current phase; nothing changed.
    UnexpectedEvent,
    /// The swapchain handed out an image it does not have; the cycle stops.
    ImageIndexOutOfRange,
    /// A drawable's pipeline does not fit the render pass; the cycle stops.
    IncompatiblePipeline,
}

/// The state of a render context, as seen by contracts.
///
/// `acquired` lists the image indices acquired so far and `presented` those
/// handed to presentation, both in order.
pub struct ContextModel {
    pub swapchain: Swapchain,
    pub render_pass: RenderPass,
    pub pipeline: Pipeline,
    pub framebuffers: Seq<Framebuffer>,
    pub phase: Phase,
    pub stale: bool,
    pub acquired: Seq<usize>,
    pub presented: Seq<usize>,
}

/// The render state of one surface: its swapchain, render pass, pipeline
/// and framebuffers, and the frame cycle driven over them.
pub struct VulkanoContext {
    swapchain: Swapchain,
    render_pass: RenderPass,
    pipeline: Pipeline,
    framebuffers: Vec<Framebuffer>,
    phase: Phase,
    stale: bool,
    acquired: Ghost<Seq<usize>>,
    presented: Ghost<Seq<usize>>,
}

impl View for VulkanoContext {
    type V = ContextModel;

    closed spec fn view(&self) -> ContextModel {
        ContextModel {
            swapchain: self.swapchain,
            render_pass: self.render_pass,
            pipeline: self.pipeline,
            framebuffers: self.framebuffers@,
            phase: self.phase,
            stale: self.stale,
            acquired: self.acquired@,
            presented: self.presented@,
        }
    }
}

/// The device objects are those built for `swapchain`.
pub open spec fn objects_match(m: ContextModel) -> bool {
    &&& m.swapchain.wf()
    &&& m.render_pass == render_pass_spec(m.swapchain.config.format)
    &&& m.pipeline == pipeline_spec()
    &&& compatible(m.pipeline, m.render_pass)
    &&& framebuffers_match(m.framebuffers, m.swapchain, m.render_pass)
}

/// Every acquired image is presented once, in the order of acquisition; only
/// the image of the frame in flight may still wait for presentation.
pub open spec fn logs_match(m: ContextModel) -> bool {
    match m.phase {
        Phase::Idle | Phase::Acquiring => m.presented == m.acquired,
        Phase::Submitted { image_index } => m.acquired == m.presented.push(image_index),
        Phase::Presenting { image_index } => m.presented == m.acquired && m.acquired.len() > 0
            && m.acquired.last() == image_index,
        Phase::Stopped => m.presented.len() <= m.acquired.len() && m.presented == m.acquired.take(
            m.presented.len() as int,
        ),
    }
}

/// The image of the frame in flight has a framebuffer.
pub open spec fn phase_in_range(m: ContextModel) -> bool {
    match m.phase {
        Phase::Submitted { image_index } => image_index < m.framebuffers.len(),
        Phase::Presenting { image_index } => image_index < m.framebuffers.len(),
        _ => true,
    }
}

/// `n` is `m` with the frame cycle moved to the given values.
pub open spec fn moved(
    m: ContextModel,
    n: ContextModel,
    phase: Phase,
    stale: bool,
    acquired: Seq<usize>,
    presented: Seq<usize>,
) -> bool {
    &&& n.swapchain == m.swapchain
    &&& n.render_pass == m.render_pass
    &&& n.pipeline == m.pipeline
    &&& n.framebuffers == m.framebuffers
    &&& n.phase == phase
    &&& n.stale == stale
    &&& n.acquired == acquired
    &&& n.presented == presented
}

/// One step of the frame cycle: from state `m`, `event` leads to state `n`
/// and result `r`, the scene being `scene`.
pub open spec fn transition(
    m: ContextModel,
    event: FrameEvent,
    scene: Seq<DrawBufferModel>,
    n: ContextModel,
    r: Result<FrameAction, FrameError>,
) -> bool {
    let (acq, pres) = (m.acquired, m.presented);
    match (m.phase, event) {
        (Phase::Idle, FrameEvent::FrameRequested) => if m.stale {
            moved(m, n, Phase::Idle, true, acq, pres) && r == Ok::<FrameAction, FrameError>(
                FrameAction::RecreateSwapchain,
            )
        } else {
            moved(m, n, Phase::Acquiring, false, acq, pres) && r == Ok::<FrameAction, FrameError>(
                FrameAction::AcquireImage,
            )
        },
        (Phase::Acquiring, FrameEvent::ImageAcquired { image_index }) => if image_index
            < m.framebuffers.len() {
            if scene_compatible(scene, m.render_pass) {
                &&& moved(m, n, Phase::Submitted { image_index }, m.stale, acq.push(image_index), pres)
                &&& r matches Ok(FrameAction::Submit { image_index: i, commands })
                &&& i == image_index
                &&& primary_models(commands@) == frame_commands(
                    image_index,
                    scene,
                    m.swapchain.config.extent,
                )
            } else {
                moved(m, n, Phase::Stopped, m.stale, acq, pres) && r == Err::<FrameAction, FrameError>(
                    FrameError::IncompatiblePipeline,
                )
            }
        } else {
            moved(m, n, Phase::Stopped, m.stale, acq, pres) && r == Err::<FrameAction, FrameError>(
                FrameError::ImageIndexOutOfRange,
            )
        },
        (Phase::Acquiring, FrameEvent::AcquireOutOfDate) => moved(m, n, Phase::Idle, true, acq, pres)
            && r == Ok::<FrameAction, FrameError>(FrameAction::RecreateSwapchain),
        (Phase::Submitted { image_index }, FrameEvent::SubmitSucceeded) => moved(
            m,
            n,
            Phase::Presenting { image_index },
            m.stale,
            acq,
            pres.push(image_index),
        ) && r == Ok::<FrameAction, FrameError>(FrameAction::Present { image_index }),
        (Phase::Submitted { .. }, FrameEvent::SubmitFailed) => moved(
            m,
            n,
            Phase::Stopped,
            m.stale,
            acq,
            pres,
        ) && r == Ok::<FrameAction, FrameError>(FrameAction::Halt),
        (Phase::Presenting { .. }, FrameEvent::PresentSucceeded) => moved(
            m,
            n,
            Phase::Idle,
            m.stale,
            acq,
            pres,
        ) && r == Ok::<FrameAction, FrameError>(FrameAction::FrameDone),
        (Phase::Presenting { .. }, FrameEvent::PresentOutOfDate) => moved(
            m,
            n,
            Phase::Idle,
            true,
            acq,
            pres,
        ) && r == Ok::<FrameAction, FrameError>(FrameAction::RecreateSwapchain),
        (Phase::Presenting { .. }, FrameEvent::SubmitFailed) => moved(
            m,
            n,
            Phase::Stopped,
            m.stale,
            acq,
            pres,
        ) && r == Ok::<FrameAction, FrameError>(FrameAction::Halt),
        _ => n == m && r == Err::<FrameAction, FrameError>(FrameError::UnexpectedEvent),
    }
}

impl VulkanoContext {
    /// Well-formedness: the device objects match the swapchain, and the frame
    /// cycle is consistent with what was acquired and presented.
    pub open spec fn wf(&self) -> bool {
        &&& objects_match(self@)
        &&& logs_match(self@)
        &&& phase_in_range(self@)
    }

    /// The objects were built for a surface with capabilities `caps`.
    pub open spec fn built_for(&self, caps: SurfaceCapabilities) -> bool {
        caps.config_spec() == Ok::<SwapchainConfig, SetupError>(self@.swapchain.config)
    }

    /// Builds the render state for a surface with capabilities `caps`, whose
    /// swapchain was created with `image_count` images.
    pub fn initialize(caps: &SurfaceCapabilities, image_count: usize) -> (r: Result<
        VulkanoContext,
        SetupError,
    >)
        ensures
            caps.config_spec() matches Err(e) ==> r == Err::<VulkanoContext, SetupError>(e),
            caps.config_spec() is Ok && image_count == 0 ==> r == Err::<VulkanoContext, SetupError>(
                SetupError::NoSwapchainImages,
            ),
            r is Ok <==> caps.config_spec() is Ok && image_count > 0,
            r matches Ok(c) ==> {
                &&& c.wf()
                &&& c.built_for(*caps)
                &&& c@.swapchain.image_count == image_count
                &&& c@.phase == Phase::Idle
                &&& !c@.stale
                &&& c@.acquired.len() == 0
                &&& c@.presented.len() == 0
            },
    {
        let config = match SwapchainConfig::from_capabilities(caps) {
            Ok(config) => config,
            Err(e) => {
                return Err(e);
            },
        };
        let swapchain = match Swapchain::new(config, image_count) {
            Ok(s) => s,
            Err(e) => {
                return Err(e);
            },
        };
        let render_pass = create_renderpass(config.format);
        let pipeline = create_graphics_pipeline(&render_pass);
        let framebuffers = create_framebuffers(&swapchain, &render_pass);
        Ok(
            VulkanoContext {
                swapchain,
                render_pass,
                pipeline,
                framebuffers,
                phase: Phase::Idle,
                stale: false,
                acquired: Ghost(Seq::empty()),
                presented: Ghost(Seq::empty()),
            },
        )
    }

    /// Rebuilds the swapchain state and the framebuffers for a surface with
    /// capabilities `caps`, whose new swapchain has `image_count` images.
    /// Only allowed between frames; on any error nothing changes.
    pub fn recreate_swapchain(&mut self, caps: &SurfaceCapabilities, image_count: usize) -> (r:
        Result<(), SetupError>)
        requires
            old(self).wf(),
        ensures
            final(self).wf(),
            old(self)@.phase != Phase::Idle ==> r == Err::<(), SetupError>(
                SetupError::FrameInProgress,
            ),
            old(self)@.phase == Phase::Idle ==> (caps.config_spec() matches Err(e) ==> r == Err::<
                (),
                SetupError,
            >(e)),
            old(self)@.phase == Phase::Idle && caps.config_spec() is Ok && image_count == 0 ==> r
                == Err::<(), SetupError>(SetupError::NoSwapchainImages),
            r is Ok <==> old(self)@.phase == Phase::Idle && caps.config_spec() is Ok && image_count
                > 0,
            r is Err ==> final(self)@ == old(self)@,
            r is Ok ==> {
                &&& final(self).built_for(*caps)
                &&& final(self)@.swapchain.image_count == image_count
                &&& final(self)@.phase == Phase::Idle
                &&& !final(self)@.stale
                &&& final(self)@.acquired == old(self)@.acquired
                &&& final(self)@.presented == old(self)@.presented
            },
    {
        if self.phase != Phase::Idle {
            return Err(SetupError::FrameInProgress);
        }
        let config = match SwapchainConfig::from_capabilities(caps) {
            Ok(config) => config,
            Err(e) => {
                return Err(e);
            },
        };
        let swapchain = match Swapchain::new(config, image_count) {
            Ok(s) => s,
            Err(e) => {
                return Err(e);
            },
        };
        let render_pass = create_renderpass(config.format);
        let framebuffers = create_framebuffers(&swapchain, &render_pass);
        self.swapchain = swapchain;
        self.render_pass = render_pass;
        self.framebuffers = framebuffers;
        self.stale = false;
        Ok(())
    }

    /// Takes one step of the frame cycle: given what the device reported,
    /// decides what the caller does next. On an acquired image the frame's
    /// commands are recorded from `scene`, in insertion order, once every
    /// drawable's pipeline is found compatible with the render pass.
    pub fn draw_frame(&mut self, event: FrameEvent, scene: &Vec<DrawBuffer>) -> (r: Result<
        FrameAction,
        FrameError,
    >)
        requires
            old(self).wf(),
        ensures
            final(self).wf(),
            transition(old(self)@, event, scene_models(scene@), final(self)@, r),
    {
        match (self.phase, event) {
            (Phase::Idle, FrameEvent::FrameRequested) => {
                if self.stale {
                    Ok(FrameAction::RecreateSwapchain)
                } else {
                    self.phase = Phase::Acquiring;
                    Ok(FrameAction::AcquireImage)
                }
            },
            (Phase::Acquiring, FrameEvent::ImageAcquired { image_index }) => {
                if image_index < self.framebuffers.len() {
                    if !check_scene(scene, &self.render_pass) {
                        self.phase = Phase::Stopped;
                        proof {
                            assert(self.presented@ =~= self.acquired@.take(self.presented@.len() as int));
                        }
                        return Err(FrameError::IncompatiblePipeline);
                    }
                    let commands = record_frame(image_index, scene, self.swapchain.config.extent);
                    self.phase = Phase::Submitted { image_index };
                    self.acquired = Ghost(self.acquired@.push(image_index));
                    Ok(FrameAction::Submit { image_index, commands })
                } else {
                    self.phase = Phase::Stopped;
                    proof {
                        assert(self.presented@ =~= self.acquired@.take(self.presented@.len() as int));
                    }
                    Err(FrameError::ImageIndexOutOfRange)
                }
            },
            (Phase::Acquiring, FrameEvent::AcquireOutOfDate) => {
                self.phase = Phase::Idle;
                self.stale = true;
                Ok(FrameAction::RecreateSwapchain)
            },
            (Phase::Submitted { image_index }, FrameEvent::SubmitSucceeded) => {
                self.phase = Phase::Presenting { image_index };
                self.presented = Ghost(self.presented@.push(image_index));
                Ok(FrameAction::Present { image_index })
            },
            (Phase::Submitted { .. }, FrameEvent::SubmitFailed) => {
                self.phase = Phase::Stopped;
                proof {
                    assert(self.presented@ =~= self.acquired@.take(self.presented@.len() as int));
                }
                Ok(FrameAction::Halt)
            },
            (Phase::Presenting { .. }, FrameEvent::PresentSucceeded) => {
                self.phase = Phase::Idle;
                Ok(FrameAction::FrameDone)
            },
            (Phase::Presenting { .. }, FrameEvent::PresentOutOfDate) => {
                self.phase = Phase::Idle;
                self.stale = true;
                Ok(FrameAction::RecreateSwapchain)
            },
            (Phase::Presenting { .. }, FrameEvent::SubmitFailed) => {
                self.phase = Phase::Stopped;
                proof {
                    assert(self.presented@ =~= self.acquired@.take(self.presented@.len() as int));
                }
                Ok(FrameAction::Halt)
            },
            _ => Err(FrameError::UnexpectedEvent),
        }
    }
}


impl VulkanoContext {
    /// Where the frame cycle stands.
    pub fn phase(&self) -> (r: Phase)
        ensures
            r == self@.phase,
    {
        self.phase
    }

    /// Whether the swapchain must be rebuilt before the next frame.
    pub fn needs_recreate(&self) -> (r: bool)
        ensures
            r == self@.stale,
    {
        self.stale
    }

    /// The swapchain the frames are drawn into.
    pub fn swapchain(&self) -> (r: Swapchain)
        ensures
            r == self@.swapchain,
    {
        self.swapchain
    }

    /// The color format of the swapchain images.
    pub fn format(&self) -> (r: u32)
        ensures
            r == self@.swapchain.config.format,
    {
        self.swapchain.format()
    }

    /// The extent of the swapchain images, which every draw uses as viewport.
    pub fn dimensions(&self) -> (r: Extent)
        ensures
            r == self@.swapchain.config.extent,
    {
        self.swapchain.dimensions()
    }

    /// The render pass the frames are recorded in.
    pub fn render_pass(&self) -> (r: RenderPass)
        ensures
            r == self@.render_pass,
    {
        self.render_pass
    }

    /// The graphics pipeline shared by the drawables.
    pub fn pipeline(&self) -> (r: Pipeline)
        ensures
            r == self@.pipeline,
    {
        self.pipeline
    }

    /// The subpass of the render pass that the pipeline draws in.
    pub fn subpass(&self) -> (r: u32)
        requires
            self.wf(),
        ensures
            r == self@.pipeline.subpass,
            r < self@.render_pass.subpass_count,
    {
        self.pipeline.subpass
    }

    /// The framebuffers, one per swapchain image, in image order.
    pub fn framebuffers(&self) -> (r: &Vec<Framebuffer>)
        ensures
            r@ == self@.framebuffers,
    {
        &self.framebuffers
    }
}

/// A well-formed context holds exactly one framebuffer per swapchain image,
/// the framebuffer of image `i` standing at position `i`.
pub proof fn lemma_framebuffer_count(c: VulkanoContext)
    requires
        c.wf(),
    ensures
        c@.framebuffers.len() == c@.swapchain.image_count,
        forall|i: int| 0 <= i < c@.framebuffers.len() ==> #[trigger] c@.framebuffers[i].image_index == i,
{
    assert forall|i: int| 0 <= i < c@.framebuffers.len() implies #[trigger] c@.framebuffers[i].image_index == i by {
        assert(c@.framebuffers[i] == crate::framebuffer::framebuffer_spec(i, c@.swapchain, c@.render_pass));
    }
}

/// Images are presented in the order they were acquired: the presented
/// indices are always a prefix of the acquired ones, and between frames the
/// two sequences are equal.
pub proof fn lemma_presentation_order(c: VulkanoContext)
    requires
        c.wf(),
    ensures
        c@.presented.len() <= c@.acquired.len(),
        c@.presented == c@.acquired.take(c@.presented.len() as int),
        c@.phase == Phase::Idle ==> c@.presented == c@.acquired,
{
    assert(c@.presented =~= c@.acquired.take(c@.presented.len() as int));
}

/// Two contexts built, or rebuilt, for the same surface capabilities have
/// framebuffers of one extent and one pair of formats: those the capabilities
/// select. When the device gave both swapchains the same number of images,
/// the framebuffers are identical.
pub proof fn lemma_recreate_stable(c1: VulkanoContext, c2: VulkanoContext, caps: SurfaceCapabilities)
    requires
        c1.wf(),
        c2.wf(),
        c1.built_for(caps),
        c2.built_for(caps),
    ensures
        forall|i: int, j: int|
            0 <= i < c1@.framebuffers.len() && 0 <= j < c2@.framebuffers.len() ==> {
                &&& #[trigger] c1@.framebuffers[i].extent == #[trigger] c2@.framebuffers[j].extent
                &&& c1@.framebuffers[i].color_format == c2@.framebuffers[j].color_format
                &&& c1@.framebuffers[i].depth_format == c2@.framebuffers[j].depth_format
                &&& c1@.framebuffers[i].extent == caps.extent
                &&& c1@.framebuffers[i].color_format == caps.formats@[0]
            },
        c1@.swapchain.image_count == c2@.swapchain.image_count ==> c1@.framebuffers
            == c2@.framebuffers,
{
    assert forall|i: int, j: int|
        0 <= i < c1@.framebuffers.len() && 0 <= j < c2@.framebuffers.len() implies {
            &&& #[trigger] c1@.framebuffers[i].extent == #[trigger] c2@.framebuffers[j].extent
            &&& c1@.framebuffers[i].color_format == c2@.framebuffers[j].color_format
            &&& c1@.framebuffers[i].depth_format == c2@.framebuffers[j].depth_format
            &&& c1@.framebuffers[i].extent == caps.extent
            &&& c1@.framebuffers[i].color_format == caps.formats@[0]
        } by {
        assert(c1@.framebuffers[i] == crate::framebuffer::framebuffer_spec(i, c1@.swapchain, c1@.render_pass));
        assert(c2@.framebuffers[j] == crate::framebuffer::framebuffer_spec(j, c2@.swapchain, c2@.render_pass));
    }
    if c1@.swapchain.image_count == c2@.swapchain.image_count {
        assert(c1@.swapchain == c2@.swapchain);
        assert(c1@.framebuffers =~= c2@.framebuffers);
    }
}

} // verus!
