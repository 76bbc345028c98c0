use rbre::command::{
    ClearValues, Command, Extent, PrimaryCommand, Rgba8, SecondaryCommands, SubpassContents,
};
use rbre::context::{FrameAction, FrameError, FrameEvent, Phase, VulkanoContext};
use rbre::draw_buffer::{DrawBuffer, GeometryError};
use rbre::frame::{check_scene, record_frame};
use rbre::framebuffer::create_framebuffers;
use rbre::render_pass::{
    create_graphics_pipeline, create_renderpass, BlendMode, CullMode, FrontFace, LoadOp, Pipeline,
    PolygonMode, StoreOp, Topology, DEPTH_FORMAT,
};
use rbre::shader_object::ShaderObject;
use rbre::swapchain::{PresentMode, SetupError, SurfaceCapabilities, Swapchain, SwapchainConfig};

const EXTENT: Extent = Extent { width: 800, height: 600 };

fn caps() -> SurfaceCapabilities {
    SurfaceCapabilities {
        extent: EXTENT,
        formats: vec![44, 50],
        alpha_modes: vec![1, 2],
        min_image_count: 2,
    }
}

fn white() -> ClearValues {
    ClearValues { color: Rgba8 { r: 255, g: 255, b: 255, a: 255 }, depth: 0xffff }
}

fn pipeline() -> Pipeline {
    create_graphics_pipeline(&create_renderpass(44))
}

fn buffer(handle: u64, count: usize) -> DrawBuffer {
    DrawBuffer::new(&pipeline(), handle, count).unwrap()
}

fn draw_commands(buffer: u64, count: usize) -> Vec<Command> {
    vec![
        Command::BindPipeline { pipeline: pipeline() },
        Command::SetViewport { extent: EXTENT },
        Command::BindVertexBuffer { buffer },
        Command::Draw { vertex_count: count, instance_count: 1 },
    ]
}

fn draws(buffer: u64, count: usize) -> PrimaryCommand {
    PrimaryCommand::ExecuteCommands {
        secondary: SecondaryCommands { subpass: 0, commands: draw_commands(buffer, count) },
    }
}

fn begin(framebuffer: usize) -> PrimaryCommand {
    PrimaryCommand::BeginRenderPass {
        framebuffer,
        clear: white(),
        contents: SubpassContents::SecondaryCommandBuffers,
    }
}

fn submit(ctx: &mut VulkanoContext, image: usize, scene: &Vec<DrawBuffer>) -> Vec<PrimaryCommand> {
    assert_eq!(ctx.draw_frame(FrameEvent::FrameRequested, scene), Ok(FrameAction::AcquireImage));
    match ctx.draw_frame(FrameEvent::ImageAcquired { image_index: image }, scene) {
        Ok(FrameAction::Submit { image_index, commands }) => {
            assert_eq!(image_index, image);
            commands
        }
        other => panic!("expected a submission, got {:?}", other),
    }
}

#[test]
fn scenario_single_triangle_command_stream() {
    let mut ctx = VulkanoContext::initialize(&caps(), 3).unwrap();
    let scene = vec![buffer(100, 3)];
    let commands = submit(&mut ctx, 1, &scene);
    let mut expected = vec![begin(1)];
    expected.push(draws(100, 3));
    expected.push(PrimaryCommand::EndRenderPass);
    assert_eq!(commands, expected);
}

#[test]
fn scenario_two_drawables_in_insertion_order() {
    let mut ctx = VulkanoContext::initialize(&caps(), 2).unwrap();
    let scene = vec![buffer(100, 3), buffer(200, 6)];
    let commands = submit(&mut ctx, 0, &scene);
    let mut expected = vec![begin(0)];
    expected.push(draws(100, 3));
    expected.push(draws(200, 6));
    expected.push(PrimaryCommand::EndRenderPass);
    assert_eq!(commands, expected);
    let begins = commands.iter().filter(|c| matches!(c, PrimaryCommand::BeginRenderPass { .. })).count();
    assert_eq!(begins, 1);
}

#[test]
fn scenario_out_of_date_drops_frame() {
    let mut ctx = VulkanoContext::initialize(&caps(), 2).unwrap();
    let scene = vec![buffer(100, 3)];
    assert_eq!(ctx.draw_frame(FrameEvent::FrameRequested, &scene), Ok(FrameAction::AcquireImage));
    assert_eq!(ctx.phase(), Phase::Acquiring);
    assert_eq!(
        ctx.draw_frame(FrameEvent::AcquireOutOfDate, &scene),
        Ok(FrameAction::RecreateSwapchain)
    );
    assert_eq!(ctx.phase(), Phase::Idle);
    assert!(ctx.needs_recreate());
    // Until the swapchain is rebuilt, no frame is started.
    assert_eq!(
        ctx.draw_frame(FrameEvent::FrameRequested, &scene),
        Ok(FrameAction::RecreateSwapchain)
    );
    assert_eq!(ctx.phase(), Phase::Idle);
    assert_eq!(ctx.recreate_swapchain(&caps(), 3), Ok(()));
    assert!(!ctx.needs_recreate());
    assert_eq!(ctx.framebuffers().len(), 3);
    assert_eq!(ctx.draw_frame(FrameEvent::FrameRequested, &scene), Ok(FrameAction::AcquireImage));
}

#[test]
fn scenario_empty_drawable_is_skipped() {
    let mut ctx = VulkanoContext::initialize(&caps(), 2).unwrap();
    let mut first = buffer(100, 3);
    assert_eq!(first.set_position(101, 0), Ok(()));
    assert_eq!(first.vertex_count(), 0);
    let scene = vec![first, buffer(200, 3)];
    let commands = submit(&mut ctx, 0, &scene);
    let mut expected = vec![begin(0)];
    expected.push(draws(200, 3));
    expected.push(PrimaryCommand::EndRenderPass);
    assert_eq!(commands, expected);
}

#[test]
fn framebuffer_count_matches_images() {
    for n in 1..5usize {
        let ctx = VulkanoContext::initialize(&caps(), n).unwrap();
        assert_eq!(ctx.framebuffers().len(), n);
        for (i, fb) in ctx.framebuffers().iter().enumerate() {
            assert_eq!(fb.image_index, i);
            assert_eq!(fb.extent, EXTENT);
            assert_eq!(fb.color_format, 44);
            assert_eq!(fb.depth_format, DEPTH_FORMAT);
        }
    }
    let config = SwapchainConfig::from_capabilities(&caps()).unwrap();
    let swapchain = Swapchain::new(config, 4).unwrap();
    let fbs = create_framebuffers(&swapchain, &create_renderpass(44));
    assert_eq!(fbs.len(), 4);
}

#[test]
fn draw_buffer_records_one_draw_of_all_vertices() {
    let b = buffer(4, 9);
    let secondary = b.draw_buffer(EXTENT);
    assert_eq!(secondary.subpass, 0);
    let cmds = secondary.commands;
    assert_eq!(cmds, draw_commands(4, 9));
    let draw_count = cmds.iter().filter(|c| matches!(c, Command::Draw { .. })).count();
    assert_eq!(draw_count, 1);
}

#[test]
fn draw_buffer_rejects_partial_triangles() {
    assert_eq!(DrawBuffer::new(&pipeline(), 2, 4).err(), Some(GeometryError { vertex_count: 4 }));
    assert_eq!(DrawBuffer::new(&pipeline(), 2, 1).err(), Some(GeometryError { vertex_count: 1 }));
    assert!(DrawBuffer::new(&pipeline(), 2, 0).is_ok());
}

#[test]
fn set_position_keeps_previous_buffer_on_error() {
    let mut b = DrawBuffer::new(&pipeline(), 2, 3).unwrap();
    assert_eq!(b.set_position(5, 5), Err(GeometryError { vertex_count: 5 }));
    assert_eq!(b.vertex_buffer(), 2);
    assert_eq!(b.vertex_count(), 3);
    assert_eq!(b.set_position(6, 12), Ok(()));
    assert_eq!(b.vertex_buffer(), 6);
    assert_eq!(b.vertex_count(), 12);
    assert_eq!(b.pipeline(), pipeline());
}

#[test]
fn presented_order_equals_acquired_order() {
    let mut ctx = VulkanoContext::initialize(&caps(), 3).unwrap();
    let scene = vec![buffer(100, 3)];
    let acquired = [2usize, 0, 1, 1, 0];
    let mut presented = Vec::new();
    for &image in acquired.iter() {
        submit(&mut ctx, image, &scene);
        match ctx.draw_frame(FrameEvent::SubmitSucceeded, &scene) {
            Ok(FrameAction::Present { image_index }) => presented.push(image_index),
            other => panic!("expected a presentation, got {:?}", other),
        }
        assert_eq!(ctx.draw_frame(FrameEvent::PresentSucceeded, &scene), Ok(FrameAction::FrameDone));
        assert_eq!(ctx.phase(), Phase::Idle);
    }
    assert_eq!(presented, acquired.to_vec());
}

#[test]
fn recreating_twice_gives_same_extent_and_format() {
    let mut ctx = VulkanoContext::initialize(&caps(), 2).unwrap();
    assert_eq!(ctx.recreate_swapchain(&caps(), 3), Ok(()));
    let first = ctx.framebuffers().clone();
    assert_eq!(ctx.recreate_swapchain(&caps(), 3), Ok(()));
    let second = ctx.framebuffers().clone();
    assert_eq!(first, second);
    for fb in first.iter().chain(second.iter()) {
        assert_eq!(fb.extent, EXTENT);
        assert_eq!(fb.color_format, 44);
    }
}

#[test]
fn swapchain_config_picks_first_format_and_fifo() {
    let config = SwapchainConfig::from_capabilities(&caps()).unwrap();
    assert_eq!(
        config,
        SwapchainConfig {
            format: 44,
            extent: EXTENT,
            image_count: 2,
            alpha_mode: 1,
            present_mode: PresentMode::Fifo,
        }
    );
}

#[test]
fn setup_errors() {
    let mut no_format = caps();
    no_format.formats.clear();
    assert_eq!(VulkanoContext::initialize(&no_format, 2).err(), Some(SetupError::NoSurfaceFormat));
    let mut no_alpha = caps();
    no_alpha.alpha_modes.clear();
    assert_eq!(VulkanoContext::initialize(&no_alpha, 2).err(), Some(SetupError::NoAlphaMode));
    assert_eq!(VulkanoContext::initialize(&caps(), 0).err(), Some(SetupError::NoSwapchainImages));

    let mut ctx = VulkanoContext::initialize(&caps(), 2).unwrap();
    let scene: Vec<DrawBuffer> = Vec::new();
    ctx.draw_frame(FrameEvent::FrameRequested, &scene).unwrap();
    assert_eq!(ctx.recreate_swapchain(&caps(), 2), Err(SetupError::FrameInProgress));
    assert_eq!(ctx.recreate_swapchain(&no_format, 2), Err(SetupError::FrameInProgress));
}

#[test]
fn failed_recreate_leaves_context_unchanged() {
    let mut ctx = VulkanoContext::initialize(&caps(), 2).unwrap();
    let mut no_alpha = caps();
    no_alpha.alpha_modes.clear();
    assert_eq!(ctx.recreate_swapchain(&no_alpha, 5), Err(SetupError::NoAlphaMode));
    assert_eq!(ctx.recreate_swapchain(&caps(), 0), Err(SetupError::NoSwapchainImages));
    assert_eq!(ctx.framebuffers().len(), 2);
}

#[test]
fn recreate_follows_new_capabilities() {
    let mut ctx = VulkanoContext::initialize(&caps(), 2).unwrap();
    let mut resized = caps();
    resized.extent = Extent { width: 1024, height: 768 };
    resized.formats = vec![50];
    assert_eq!(ctx.recreate_swapchain(&resized, 4), Ok(()));
    assert_eq!(ctx.dimensions(), Extent { width: 1024, height: 768 });
    assert_eq!(ctx.format(), 50);
    assert_eq!(ctx.render_pass().color.format, 50);
    assert_eq!(ctx.framebuffers().len(), 4);
    assert!(ctx.framebuffers().iter().all(|fb| fb.extent == Extent { width: 1024, height: 768 }));
}

#[test]
fn unexpected_events_change_nothing() {
    let mut ctx = VulkanoContext::initialize(&caps(), 2).unwrap();
    let scene: Vec<DrawBuffer> = Vec::new();
    assert_eq!(
        ctx.draw_frame(FrameEvent::SubmitSucceeded, &scene),
        Err(FrameError::UnexpectedEvent)
    );
    assert_eq!(
        ctx.draw_frame(FrameEvent::ImageAcquired { image_index: 0 }, &scene),
        Err(FrameError::UnexpectedEvent)
    );
    assert_eq!(ctx.phase(), Phase::Idle);
}

#[test]
fn image_index_out_of_range_stops() {
    let mut ctx = VulkanoContext::initialize(&caps(), 2).unwrap();
    let scene: Vec<DrawBuffer> = Vec::new();
    ctx.draw_frame(FrameEvent::FrameRequested, &scene).unwrap();
    assert_eq!(
        ctx.draw_frame(FrameEvent::ImageAcquired { image_index: 2 }, &scene),
        Err(FrameError::ImageIndexOutOfRange)
    );
    assert_eq!(ctx.phase(), Phase::Stopped);
    assert_eq!(
        ctx.draw_frame(FrameEvent::FrameRequested, &scene),
        Err(FrameError::UnexpectedEvent)
    );
}

#[test]
fn submission_failure_halts() {
    let mut ctx = VulkanoContext::initialize(&caps(), 2).unwrap();
    let scene: Vec<DrawBuffer> = Vec::new();
    let commands = submit(&mut ctx, 1, &scene);
    assert_eq!(
        commands,
        vec![begin(1), PrimaryCommand::EndRenderPass]
    );
    assert_eq!(ctx.draw_frame(FrameEvent::SubmitFailed, &scene), Ok(FrameAction::Halt));
    assert_eq!(ctx.phase(), Phase::Stopped);
}

#[test]
fn present_out_of_date_requests_recreation() {
    let mut ctx = VulkanoContext::initialize(&caps(), 2).unwrap();
    let scene: Vec<DrawBuffer> = Vec::new();
    submit(&mut ctx, 0, &scene);
    assert_eq!(
        ctx.draw_frame(FrameEvent::SubmitSucceeded, &scene),
        Ok(FrameAction::Present { image_index: 0 })
    );
    assert_eq!(ctx.phase(), Phase::Presenting { image_index: 0 });
    assert_eq!(
        ctx.draw_frame(FrameEvent::PresentOutOfDate, &scene),
        Ok(FrameAction::RecreateSwapchain)
    );
    assert_eq!(ctx.phase(), Phase::Idle);
    assert!(ctx.needs_recreate());
}

#[test]
fn record_frame_without_context() {
    let scene = vec![DrawBuffer::new(&pipeline(), 2, 0).unwrap()];
    assert_eq!(
        record_frame(5, &scene, EXTENT),
        vec![begin(5), PrimaryCommand::EndRenderPass]
    );
}

#[test]
fn render_pass_and_pipeline_state() {
    let rp = create_renderpass(44);
    assert_eq!(rp.color.format, 44);
    assert_eq!(rp.color.load, LoadOp::Clear);
    assert_eq!(rp.color.store, StoreOp::Store);
    assert_eq!(rp.depth.format, DEPTH_FORMAT);
    assert_eq!(rp.depth.load, LoadOp::Clear);
    assert_eq!(rp.subpass_count, 1);
    let p = create_graphics_pipeline(&rp);
    assert_eq!(p.subpass, 0);
    assert_eq!(p.position_components, 3);
    assert_eq!(p.vertex_stride, 12);
    assert_eq!(p.topology, Topology::TriangleList);
    assert!(!p.primitive_restart);
    assert_eq!(p.polygon_mode, PolygonMode::Fill);
    assert!(!p.depth_clamp);
    assert_eq!(p.line_width, 1);
    assert_eq!(p.cull_mode, CullMode::Back);
    assert_eq!(p.front_face, FrontFace::Clockwise);
    assert_eq!(p.blend, BlendMode::PassThrough);
    assert!(p.depth_test);
    assert!(p.dynamic_viewport);
    let ctx = VulkanoContext::initialize(&caps(), 2).unwrap();
    assert_eq!(ctx.subpass(), 0);
    assert_eq!(ctx.pipeline(), p);
}

#[test]
fn frame_clear_is_white_and_far() {
    assert_eq!(ClearValues::frame_clear(), white());
}

#[test]
fn shader_object_keeps_its_parts() {
    let obj = ShaderObject::new(String::from("simple.vert"), String::from("simple.frag"), 42u32);
    assert_eq!(*obj.draw(), 42);
    assert_eq!(obj.vertex_shader(), "simple.vert");
    assert_eq!(obj.fragment_shader(), "simple.frag");
}

#[test]
fn incompatible_pipeline_stops_the_frame() {
    let mut ctx = VulkanoContext::initialize(&caps(), 2).unwrap();
    let mut foreign = pipeline();
    foreign.subpass = 1;
    let scene = vec![buffer(100, 3), DrawBuffer::new(&foreign, 200, 3).unwrap()];
    assert!(!check_scene(&scene, &ctx.render_pass()));
    assert!(check_scene(&vec![buffer(100, 3)], &ctx.render_pass()));
    assert_eq!(ctx.draw_frame(FrameEvent::FrameRequested, &scene), Ok(FrameAction::AcquireImage));
    assert_eq!(
        ctx.draw_frame(FrameEvent::ImageAcquired { image_index: 0 }, &scene),
        Err(FrameError::IncompatiblePipeline)
    );
    assert_eq!(ctx.phase(), Phase::Stopped);
}

#[test]
fn drawable_uses_context_pipeline() {
    let ctx = VulkanoContext::initialize(&caps(), 2).unwrap();
    let b = DrawBuffer::new(&ctx.pipeline(), 1, 6).unwrap();
    assert_eq!(b.pipeline(), ctx.pipeline());
    assert_eq!(b.draw_buffer(EXTENT).subpass, ctx.subpass());
}
