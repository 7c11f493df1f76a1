use presence_daemon::actors::ingress::screen_wlr::FrameEvent;
use presence_daemon::actors::ingress::IngressFrame;
use presence_daemon::overlay::gpu::{
    overlay_shader_code, setup, teardown, DrawAction, DrawEvent, DrawStage, ImportTurn, OverlayFault,
    OverlayGpu, OverlayObject, ScreenFeedKind, ScreenUpdate,
};
use presence_daemon::overlay::run::{
    sleep_line, CaptureLoop, CaptureOutcome, CapturePath, CaptureTurn, CopyNews, RunAction, RunEvent, RunLoop,
    RunStage, SessionWatch,
};
use presence_daemon::overlay::screen_feed::{
    feed_memory_type, feed_setup, feed_teardown, memory_flags, upload_commands, DmabufScreenFeed,
    FeedCall, FeedObject, ImageLayout, ImportFeedCall, ScreenFeed, UploadCommand,
};
use presence_daemon::overlay::swapchain::{
    plan_swapchain, SurfaceCaps, SurfaceFormat, ALPHA_INHERIT, ALPHA_OPAQUE, ALPHA_POST_MULTIPLIED,
    ALPHA_PRE_MULTIPLIED,
};
use presence_daemon::overlay::{
    center_margins, disc_origin, ConnectAction, Extent, Margins, Overlay, OverlayConnect,
    OverlayGlobal, OverlayState, BUBBLE_PX,
};

fn s(text: &str) -> String {
    text.to_string()
}

#[test]
fn the_disc_starts_in_the_centre() {
    assert_eq!(center_margins(1920, 1080), (850, 430));
    assert_eq!(disc_origin(1920, 1080), (850, 430));
    assert_eq!(center_margins(221, 220), (0, 0));
    assert_eq!(center_margins(223, 0), (1, 0));
    assert_eq!(center_margins(u32::MAX, 100), (2_147_483_537, 0));
}

fn connected(width: i32, height: i32) -> OverlayConnect {
    let mut connect = OverlayConnect::begin();
    connect.state.advertise("wl_compositor", 6);
    connect.state.advertise("zwlr_layer_shell_v1", 4);
    assert!(matches!(connect.after_round_trip(), ConnectAction::RoundTrip));
    connect.state.mode(Some(true), width, height);
    assert!(matches!(connect.after_round_trip(), ConnectAction::CreateSurface { .. }));
    connect.state.configure(BUBBLE_PX, BUBBLE_PX);
    assert!(matches!(connect.after_round_trip(), ConnectAction::Connected));
    connect
}

#[test]
fn the_bubble_stays_on_screen() {
    let mut overlay = Overlay::new(connected(1920, 1080));
    assert_eq!((overlay.bubble_x, overlay.bubble_y), (850, 430));
    assert_eq!(overlay.set_bubble_pos(10, 20), Some(Margins { top: 20, left: 10 }));
    assert_eq!(overlay.set_bubble_pos(-5, 5000), Some(Margins { top: 860, left: 0 }));
    assert_eq!(overlay.set_bubble_pos(1700, 860), Some(Margins { top: 860, left: 1700 }));
    assert_eq!(overlay.set_bubble_pos(1701, i32::MIN), Some(Margins { top: 0, left: 1700 }));
    overlay.state.set_idle(true);
    assert_eq!(overlay.set_bubble_pos(3, 4), None);
    assert_eq!((overlay.bubble_x, overlay.bubble_y), (3, 4));
    let mut small = Overlay::new(connected(100, 100));
    assert_eq!(small.set_bubble_pos(50, 50), Some(Margins { top: 0, left: 0 }));
}

#[test]
fn globals_are_bound_once_at_capped_versions() {
    let mut state = OverlayState::new();
    let expected = [
        ("wl_compositor", OverlayGlobal::Compositor, 4),
        ("wl_output", OverlayGlobal::Output, 4),
        ("wl_shm", OverlayGlobal::Shm, 1),
        ("zwlr_layer_shell_v1", OverlayGlobal::LayerShell, 4),
        ("zwlr_screencopy_manager_v1", OverlayGlobal::Screencopy, 3),
        ("wl_seat", OverlayGlobal::Seat, 7),
        ("ext_idle_notifier_v1", OverlayGlobal::IdleNotifier, 1),
    ];
    for (interface, global, version) in expected {
        assert_eq!(state.advertise(interface, 99), Some((global, version)));
        assert_eq!(state.advertise(interface, 99), None);
    }
    assert_eq!(state.advertise("wl_subcompositor", 1), None);
    assert_eq!(OverlayState::new().advertise("wl_seat", 5), Some((OverlayGlobal::Seat, 5)));
}

#[test]
fn the_state_follows_the_compositor() {
    let mut state = OverlayState::new();
    state.configure(0, 7);
    assert_eq!((state.width, state.height, state.configured, state.dirty), (0, 7, true, true));
    state.configure(9, 0);
    assert_eq!((state.width, state.height), (9, 7));
    state.mode(Some(false), 10, 10);
    state.mode(None, -1, 10);
    assert_eq!((state.output_width, state.output_height), (0, 0));
    state.mode(None, 10, 11);
    assert_eq!((state.output_width, state.output_height), (10, 11));
    state.frame_event(FrameEvent::Ready);
    assert!(state.capture.state.ready);
    state.close();
    assert!(state.closed);
}

#[test]
fn connecting_needs_a_compositor_a_layer_shell_and_a_size() {
    let message = |action: ConnectAction| match action {
        ConnectAction::Refused(message) => message,
        other => panic!("expected a refusal, got {other:?}"),
    };
    let mut connect = OverlayConnect::begin();
    assert_eq!(connect.failure("x"), "wayland registry roundtrip: x");
    connect.after_round_trip();
    assert_eq!(connect.failure("x"), "wayland output roundtrip: x");
    assert_eq!(message(connect.after_round_trip()), "compositor did not advertise wl_compositor");

    let mut connect = OverlayConnect::begin();
    connect.state.advertise("wl_compositor", 4);
    connect.after_round_trip();
    assert_eq!(
        message(connect.after_round_trip()),
        "compositor did not advertise zwlr_layer_shell_v1 (need Hyprland / a wlr compositor)"
    );

    let mut connect = OverlayConnect::begin();
    connect.state.advertise("wl_compositor", 4);
    connect.state.advertise("zwlr_layer_shell_v1", 4);
    connect.state.advertise("wl_seat", 4);
    connect.state.advertise("ext_idle_notifier_v1", 4);
    connect.after_round_trip();
    match connect.after_round_trip() {
        ConnectAction::CreateSurface { margins, watch_idle } => {
            assert_eq!(margins, Margins { top: 430, left: 850 });
            assert!(watch_idle);
        }
        other => panic!("expected a surface, got {other:?}"),
    }
    assert_eq!((connect.state.output_width, connect.state.output_height), (1920, 1080));
    for _ in 0..15 {
        connect.state.configure(0, 0);
        assert!(matches!(connect.after_round_trip(), ConnectAction::RoundTrip));
    }
    assert_eq!(
        message(connect.after_round_trip()),
        "layer-shell never configured a non-zero size — compositor refused the overlay"
    );
}

#[test]
fn the_overlay_hides_and_shows() {
    let mut overlay = Overlay::new(connected(1920, 1080));
    assert_eq!(overlay.park_offscreen(), Margins { top: -880, left: 0 });
    assert_eq!(overlay.unpark_at_bubble(), Margins { top: 430, left: 850 });
    assert!(!overlay.should_hide(false, false));
    assert!(overlay.should_hide(true, false) && overlay.should_hide(false, true));
    overlay.state.set_idle(true);
    assert!(overlay.should_hide(false, false));
    assert!(overlay.take_dirty());
    assert!(!overlay.take_dirty());
    assert_eq!(overlay.extent(), Extent { width: 220, height: 220 });
    assert_eq!(overlay.capture_extent(), Extent { width: 1920, height: 1080 });
    assert!(!overlay.closed());
}

#[test]
fn shared_memory_is_kept_while_large_enough() {
    let mut overlay = Overlay::new(connected(1920, 1080));
    assert!(overlay.grow_shared_memory(100));
    assert!(!overlay.grow_shared_memory(100));
    assert!(!overlay.grow_shared_memory(40));
    assert!(overlay.grow_shared_memory(101));
    assert_eq!(overlay.memory.held, 101);
    assert_eq!(overlay.capture_globals().unwrap_err(), "no wl_output");
    overlay.state.advertise("wl_output", 1);
    assert_eq!(overlay.capture_globals().unwrap_err(), "no wlr-screencopy");
    overlay.state.advertise("zwlr_screencopy_manager_v1", 1);
    assert_eq!(overlay.capture_globals().unwrap_err(), "no wl_shm");
    overlay.state.advertise("wl_shm", 1);
    assert!(overlay.capture_globals().is_ok());
}

fn caps() -> SurfaceCaps {
    SurfaceCaps {
        min_image_count: 3,
        max_image_count: 0,
        current_extent: Extent { width: u32::MAX, height: u32::MAX },
        min_extent: Extent { width: 10, height: 10 },
        max_extent: Extent { width: 100, height: 200 },
        composite_alpha: ALPHA_OPAQUE,
    }
}

const SRGB: SurfaceFormat = SurfaceFormat { format: 44, color_space: 0 };
const ODD: SurfaceFormat = SurfaceFormat { format: 37, color_space: 0 };

#[test]
fn the_swapchain_fits_the_surface() {
    let asked = Extent { width: 220, height: 5 };
    let plan = plan_swapchain(&caps(), &[ODD, SRGB], asked).unwrap();
    assert_eq!(plan.format, SRGB);
    assert_eq!(plan.extent, Extent { width: 100, height: 10 });
    assert_eq!((plan.image_count, plan.alpha), (3, ALPHA_OPAQUE));
    let plan = plan_swapchain(&caps(), &[ODD], asked).unwrap();
    assert_eq!(plan.format, ODD);
    assert_eq!(plan_swapchain(&caps(), &[], asked).unwrap_err(), "surface has no formats");

    let mut own = caps();
    own.current_extent = Extent { width: 7, height: 8 };
    own.min_image_count = 0;
    own.max_image_count = 1;
    let plan = plan_swapchain(&own, &[SRGB], asked).unwrap();
    assert_eq!(plan.extent, Extent { width: 7, height: 8 });
    assert_eq!(plan.image_count, 1);
    own.max_image_count = 9;
    assert_eq!(plan_swapchain(&own, &[SRGB], asked).unwrap().image_count, 2);
}

#[test]
fn blended_alpha_is_preferred() {
    let alpha = |bits: u32| {
        let mut c = caps();
        c.composite_alpha = bits;
        plan_swapchain(&c, &[SRGB], Extent { width: 1, height: 1 }).unwrap().alpha
    };
    assert_eq!(alpha(15), ALPHA_PRE_MULTIPLIED);
    assert_eq!(alpha(13), ALPHA_POST_MULTIPLIED);
    assert_eq!(alpha(9), ALPHA_INHERIT);
    assert_eq!(alpha(1), ALPHA_OPAQUE);
    assert_eq!(alpha(0), ALPHA_OPAQUE);
}

fn frame(width: u32, height: u32) -> IngressFrame {
    IngressFrame { width, height, rgba: (0..4 * width * height).map(|k| k as u8).collect() }
}

#[test]
fn uploads_go_through_the_copy_target() {
    for from in [ImageLayout::Undefined, ImageLayout::ShaderRead] {
        assert_eq!(
            upload_commands(from, 3, 2),
            vec![
                UploadCommand::Barrier { from, to: ImageLayout::CopyTarget },
                UploadCommand::Copy { width: 3, height: 2 },
                UploadCommand::Barrier {
                    from: ImageLayout::CopyTarget,
                    to: ImageLayout::ShaderRead
                },
            ]
        );
    }
}

#[test]
fn frames_land_in_the_staging_buffer() {
    let mut feed = ScreenFeed::new(2, 2);
    let seed = [20u8, 20, 20, 255];
    assert_eq!(feed.staging, seed.repeat(4));
    feed.write_rgba(&frame(3, 1));
    assert_eq!(feed.staging, vec![0, 1, 2, 3, 4, 5, 6, 7, 20, 20, 20, 255, 20, 20, 20, 255]);
    feed.write_rgba(&frame(1, 3));
    assert_eq!(feed.staging, vec![0, 1, 2, 3, 4, 5, 6, 7, 4, 5, 6, 7, 20, 20, 20, 255]);
    assert_eq!(feed.record_upload(), ImageLayout::Undefined);
    assert_eq!(feed.record_upload(), ImageLayout::ShaderRead);
    let least = ScreenFeed::new(0, 0);
    assert_eq!((least.width, least.height, least.staging.len()), (1, 1, 4));
}

#[test]
fn a_staging_feed_is_set_up_and_torn_down() {
    let calls = feed_setup();
    assert_eq!(calls.len(), 12);
    assert_eq!(calls[0], FeedCall::CreateImage);
    assert_eq!(calls[11], FeedCall::AllocateSet);
    let gone = feed_teardown();
    assert_eq!(gone.len(), 9);
    assert_eq!(gone[8], FeedObject::StagingMemory);
    assert_eq!(memory_flags(FeedCall::AllocateImageMemory), 1);
    assert_eq!(memory_flags(FeedCall::AllocateStagingMemory), 6);
    assert_eq!(feed_memory_type(&[6, 1], 0b11, 1), Ok(1));
    assert_eq!(
        feed_memory_type(&[6], 0b11, 1).unwrap_err(),
        "no matching memory type for screen feed"
    );
    assert_eq!(
        FeedCall::CreateStaging.failure("OOM"),
        "vkCreateBuffer (screen staging) failed: OOM"
    );
    assert_eq!(ImportFeedCall::CreateSampler.failure("x"), "vkCreateSampler (dmabuf) failed: x");
}

#[test]
fn imported_images_rotate() {
    let mut feed = DmabufScreenFeed::new();
    assert_eq!(feed.record_transition(), None);
    feed.import_frame(1);
    assert_eq!(feed.record_transition(), Some(1));
    assert_eq!(feed.record_transition(), None);
    assert_eq!(feed.retire_previous(), None);
    feed.import_frame(2);
    assert_eq!((feed.current, feed.previous), (Some(2), Some(1)));
    assert_eq!(feed.destroy(), vec![2, 1]);
    assert!(feed.destroy().is_empty());
}

fn extent() -> Extent {
    Extent { width: 220, height: 220 }
}

fn run_draw(gpu: &mut OverlayGpu) -> (Vec<u64>, ScreenUpdate) {
    assert!(matches!(gpu.begin_draw(), DrawAction::WaitFence));
    let destroyed = match gpu.draw(DrawEvent::Done) {
        DrawAction::Acquire { destroy, drop_imports: false } => destroy,
        other => panic!("expected to acquire, got {other:?}"),
    };
    assert!(matches!(gpu.draw(DrawEvent::Acquired { image: 2 }), DrawAction::ResetFence));
    assert!(matches!(gpu.draw(DrawEvent::Done), DrawAction::ResetCommands));
    assert!(matches!(gpu.draw(DrawEvent::Done), DrawAction::BeginCommands));
    let update = match gpu.draw(DrawEvent::Done) {
        DrawAction::Record { image: 2, update } => update,
        other => panic!("expected to record, got {other:?}"),
    };
    assert!(matches!(gpu.draw(DrawEvent::Done), DrawAction::EndCommands));
    assert!(matches!(gpu.draw(DrawEvent::Done), DrawAction::Submit));
    assert!(matches!(gpu.draw(DrawEvent::Done), DrawAction::Present { image: 2 }));
    assert!(matches!(gpu.draw(DrawEvent::Suboptimal), DrawAction::Finished));
    assert_eq!(gpu.stage, DrawStage::Idle);
    (destroyed, update)
}

#[test]
fn a_staging_picture_uploads_what_is_new() {
    let mut gpu = OverlayGpu::new(extent(), Extent { width: 2, height: 1 }, false);
    assert_eq!(
        run_draw(&mut gpu),
        (vec![], ScreenUpdate::Upload { from: ImageLayout::Undefined })
    );
    assert_eq!(run_draw(&mut gpu), (vec![], ScreenUpdate::Unchanged));
    gpu.upload_screen(&frame(2, 1));
    assert_eq!(
        run_draw(&mut gpu),
        (vec![], ScreenUpdate::Upload { from: ImageLayout::ShaderRead })
    );
    match &gpu.feed {
        ScreenFeedKind::Shm(feed) => assert_eq!(feed.staging, frame(2, 1).rgba),
        other => panic!("expected staging, got {other:?}"),
    }
    assert_eq!(gpu.import_screen(), ImportTurn::Skip);
}

#[test]
fn an_importing_picture_destroys_after_the_fence() {
    let mut gpu = OverlayGpu::new(extent(), extent(), true);
    assert_eq!(run_draw(&mut gpu), (vec![], ScreenUpdate::Transition { image: None }));
    assert!(gpu.in_flight);
    assert_eq!(gpu.import_screen(), ImportTurn::Import { destroy: None });
    gpu.imported(Some(1));
    assert_eq!(run_draw(&mut gpu), (vec![], ScreenUpdate::Transition { image: Some(1) }));
    gpu.import_screen();
    gpu.imported(None);
    assert_eq!(run_draw(&mut gpu), (vec![], ScreenUpdate::Unchanged));
    gpu.import_screen();
    gpu.imported(Some(2));
    // The draw that samples image 1 has not been waited for.
    assert_eq!(gpu.import_screen(), ImportTurn::Import { destroy: None });
    gpu.imported(Some(3));
    assert_eq!(gpu.import_screen(), ImportTurn::Import { destroy: None });
    gpu.imported(Some(4));
    assert_eq!(run_draw(&mut gpu), (vec![1, 2, 3], ScreenUpdate::Transition { image: Some(4) }));
    gpu.begin_draw();
    gpu.draw(DrawEvent::Done);
    assert!(!gpu.in_flight);
    gpu.draw(DrawEvent::OutOfDate);
    gpu.import_screen();
    gpu.imported(Some(5));
    assert_eq!(gpu.import_screen(), ImportTurn::Import { destroy: Some(4) });
    gpu.imported(Some(6));
    assert_eq!(gpu.destroy(), vec![6, 5]);
    assert!(gpu.destroy().is_empty());
}

#[test]
fn a_frame_in_memory_takes_an_importing_picture_over() {
    let mut gpu = OverlayGpu::new(extent(), extent(), true);
    gpu.import_screen();
    gpu.imported(Some(1));
    run_draw(&mut gpu);
    gpu.import_screen();
    gpu.imported(Some(2));
    gpu.upload_screen(&frame(0, 1));
    assert!(matches!(gpu.feed, ScreenFeedKind::Dmabuf(_)));
    gpu.upload_screen(&frame(2, 1));
    match &gpu.feed {
        ScreenFeedKind::Shm(feed) => {
            assert_eq!((feed.width, feed.height), (2, 1));
            assert_eq!(feed.staging, frame(2, 1).rgba);
        }
        other => panic!("expected staging, got {other:?}"),
    }
    assert_eq!(gpu.import_screen(), ImportTurn::Skip);
    gpu.begin_draw();
    match gpu.draw(DrawEvent::Done) {
        DrawAction::Acquire { destroy, drop_imports } => {
            assert_eq!((destroy, drop_imports), (vec![2, 1], true))
        }
        other => panic!("expected to acquire, got {other:?}"),
    }
    gpu.draw(DrawEvent::OutOfDate);
    assert_eq!(
        run_draw(&mut gpu),
        (vec![], ScreenUpdate::Upload { from: ImageLayout::Undefined })
    );
}

#[test]
fn a_draw_that_comes_to_nothing_keeps_the_update() {
    let mut gpu = OverlayGpu::new(extent(), extent(), false);
    gpu.begin_draw();
    gpu.draw(DrawEvent::Done);
    assert!(matches!(gpu.draw(DrawEvent::OutOfDate), DrawAction::Finished));
    assert!(gpu.pending_update);
    gpu.begin_draw();
    match gpu.draw(DrawEvent::Failed(s("DEVICE_LOST"))) {
        DrawAction::Refused(message) => assert_eq!(message, "overlay fence wait: DEVICE_LOST"),
        other => panic!("expected a refusal, got {other:?}"),
    }
    gpu.begin_draw();
    gpu.draw(DrawEvent::Done);
    match gpu.draw(DrawEvent::Failed(s("x"))) {
        DrawAction::Refused(message) => assert_eq!(message, "vkAcquireNextImageKHR failed: x"),
        other => panic!("expected a refusal, got {other:?}"),
    }
    assert!(gpu.needs_recreate(Extent { width: 220, height: 221 }));
    assert!(!gpu.needs_recreate(extent()));
    gpu.recreated(Extent { width: 220, height: 221 });
    assert!(gpu.needs_recreate(extent()));
}

#[test]
fn the_picture_is_torn_down_in_order() {
    let made = setup();
    let gone = teardown();
    assert_eq!(made.len(), gone.len());
    for object in &made {
        assert!(gone.contains(object));
    }
    assert_eq!((made[0], gone[10]), (OverlayObject::Swapchain, OverlayObject::Swapchain));
    assert_eq!(OverlayFault::CreateSwapchain.failure("x"), "vkCreateSwapchainKHR failed: x");
}

#[test]
fn overlay_shaders_are_spirv() {
    assert_eq!(overlay_shader_code(&[3, 2, 0x23, 7]).unwrap(), vec![0x0723_0203]);
    assert_eq!(
        overlay_shader_code(&[0; 4]).unwrap_err(),
        "overlay SPIR-V malformed: input missing SPIR-V magic number"
    );
    assert_eq!(
        overlay_shader_code(&[0; 5]).unwrap_err(),
        "overlay SPIR-V malformed: input length not divisible by 4"
    );
}

#[test]
fn session_lines_lock_and_unlock() {
    let mut watch = SessionWatch::new();
    watch.line("lockscreen>>");
    assert!(watch.locked);
    watch.line("activewindow>>kitty");
    assert!(watch.locked && !watch.screensaver);
    watch.line("unlock>>");
    assert!(!watch.locked);
    watch.line("openwindow>>1,2,org.omarchy.screensaver,x");
    assert!(watch.screensaver);
    watch.line("openwindow>>1,2,kitty,x");
    watch.line("focus>>org.omarchy.screensaver");
    assert!(watch.screensaver);
    watch.line("closewindow>>org.omarchy.screensaver");
    assert!(!watch.screensaver);
}

#[test]
fn sleep_lines_are_read_in_either_case() {
    assert_eq!(sleep_line("   boolean true"), Some(true));
    assert_eq!(sleep_line("   BOOLEAN False"), Some(false));
    assert_eq!(sleep_line("signal time=1"), None);
    assert_eq!(sleep_line("boolean false boolean true"), Some(true));
}

#[test]
fn zero_copy_capture_falls_back_and_backs_off() {
    let mut capture = CaptureLoop::new(true);
    assert_eq!(capture.connected(true), CaptureTurn::Capture);
    for _ in 0..3 {
        assert_eq!(capture.captured(CaptureOutcome::Nothing), 100);
    }
    assert_eq!(capture.captured(CaptureOutcome::Error), 300);
    assert_eq!(capture.captured(CaptureOutcome::Error), 300);
    assert_eq!(capture.captured(CaptureOutcome::Frame), 100);
    assert_eq!(capture.failures, 0);
    let mut capture = CaptureLoop::new(true);
    assert_eq!(capture.connected(false), CaptureTurn::ConnectShm);
    assert_eq!(capture.path, CapturePath::Shm);
    for _ in 0..9 {
        assert_eq!(capture.captured(CaptureOutcome::Error), 100);
    }
    assert_eq!(capture.connected(false), CaptureTurn::Stop);
    assert_eq!(CaptureLoop::new(false).path, CapturePath::Shm);
}

fn pumped(locked: bool) -> RunEvent {
    with_copy(locked, CopyNews::Nothing)
}

fn with_copy(locked: bool, copy: CopyNews) -> RunEvent {
    RunEvent::Pumped { watch: SessionWatch { locked, screensaver: false }, sleeping: false, copy }
}

#[test]
fn a_turn_dispatches_pumps_draws_and_polls() {
    let mut overlay = Overlay::new(connected(1920, 1080));
    let gpu = OverlayGpu::new(extent(), extent(), true);
    let (mut run, first) = RunLoop::begin();
    assert!(matches!(first, RunAction::Draw { restart_clock: false }));
    let step = |run: &mut RunLoop, overlay: &mut Overlay, event: RunEvent| run.step(event, overlay, &gpu);
    assert!(matches!(step(&mut run, &mut overlay, RunEvent::Done), RunAction::Dispatch));
    assert!(matches!(step(&mut run, &mut overlay, RunEvent::Done), RunAction::Pump));
    assert!(matches!(
        step(&mut run, &mut overlay, pumped(false)),
        RunAction::Show { margins: None, grant: false }
    ));
    let late = RunEvent::Framed { got: false, elapsed_ms: 100 };
    assert!(matches!(
        step(&mut run, &mut overlay, late),
        RunAction::Draw { restart_clock: true }
    ));
    assert!(matches!(step(&mut run, &mut overlay, RunEvent::Done), RunAction::Poll));
    let readable = RunEvent::Polled { compositor: true };
    assert!(matches!(step(&mut run, &mut overlay, readable), RunAction::Read));
    assert!(matches!(step(&mut run, &mut overlay, RunEvent::Done), RunAction::Dispatch));
    overlay.state.configure(300, 220);
    match step(&mut run, &mut overlay, RunEvent::Done) {
        RunAction::Recreate { extent } => assert_eq!(extent, Extent { width: 300, height: 220 }),
        other => panic!("expected to recreate, got {other:?}"),
    }
    assert!(!overlay.state.dirty);
    assert!(matches!(step(&mut run, &mut overlay, RunEvent::Done), RunAction::Pump));
    step(&mut run, &mut overlay, pumped(false));
    let early = RunEvent::Framed { got: false, elapsed_ms: 99 };
    assert!(matches!(step(&mut run, &mut overlay, early), RunAction::Poll));
    assert!(matches!(step(&mut run, &mut overlay, RunEvent::Interrupted), RunAction::Dispatch));
    overlay.state.close();
    step(&mut run, &mut overlay, RunEvent::Done);
    step(&mut run, &mut overlay, pumped(true));
    let quiet = RunEvent::Polled { compositor: false };
    assert!(matches!(step(&mut run, &mut overlay, quiet), RunAction::Exit));
    assert_eq!(run.stage, RunStage::Over);
}

#[test]
fn hiding_and_showing_move_the_surface_once() {
    let mut overlay = Overlay::new(connected(1920, 1080));
    let gpu = OverlayGpu::new(extent(), extent(), true);
    let mut run = RunLoop { parked: false, copying: false, stage: RunStage::Pumping };
    let parked = Margins { top: -880, left: 0 };
    match run.step(pumped(true), &mut overlay, &gpu) {
        RunAction::Hide { margins, grant } => assert_eq!((margins, grant), (Some(parked), false)),
        other => panic!("expected to hide, got {other:?}"),
    }
    run.stage = RunStage::Pumping;
    match run.step(pumped(true), &mut overlay, &gpu) {
        RunAction::Hide { margins, grant } => assert_eq!((margins, grant), (None, false)),
        other => panic!("expected to hide, got {other:?}"),
    }
    run.stage = RunStage::Pumping;
    match run.step(pumped(false), &mut overlay, &gpu) {
        RunAction::Show { margins, grant } => {
            assert_eq!((margins, grant), (Some(Margins { top: 430, left: 850 }), false))
        }
        other => panic!("expected to show, got {other:?}"),
    }
    assert!(!run.parked);
}

#[test]
fn copies_are_made_off_screen() {
    let mut overlay = Overlay::new(connected(1920, 1080));
    let gpu = OverlayGpu::new(extent(), extent(), false);
    let mut run = RunLoop { parked: false, copying: false, stage: RunStage::Pumping };
    let parked = Some(Margins { top: -880, left: 0 });
    let shown = Some(Margins { top: 430, left: 850 });
    let mut pump = |locked: bool, copy: CopyNews| {
        run.stage = RunStage::Pumping;
        let moved = match run.step(with_copy(locked, copy), &mut overlay, &gpu) {
            RunAction::Show { margins, grant } => (margins, grant),
            RunAction::Hide { margins, grant } => (margins, grant),
            other => panic!("expected to show or hide, got {other:?}"),
        };
        (moved, run.copying)
    };
    assert_eq!(pump(false, CopyNews::Wanted), ((parked, true), true));
    assert_eq!(pump(false, CopyNews::Nothing), ((None, false), true));
    assert_eq!(pump(false, CopyNews::Over), ((shown, false), false));
    assert_eq!(pump(true, CopyNews::Nothing), ((parked, false), false));
    // A copy is granted while the overlay is hidden, too.
    assert_eq!(pump(true, CopyNews::Wanted), ((None, true), true));
    assert_eq!(pump(false, CopyNews::Nothing), ((None, false), true));
    assert_eq!(pump(true, CopyNews::Over), ((None, false), false));
    assert_eq!(pump(false, CopyNews::Wanted), ((None, true), true));
    assert_eq!(pump(false, CopyNews::Over), ((shown, false), false));
    assert_eq!(pump(true, CopyNews::Wanted), ((parked, true), true));
    assert_eq!(pump(true, CopyNews::Over), ((None, false), false));
    assert_eq!(pump(false, CopyNews::Nothing), ((shown, false), false));
    assert!(CaptureLoop::new(false).needs_parking());
    assert!(!CaptureLoop::new(true).needs_parking());
}

#[test]
fn failures_end_the_loop() {
    let cases = [
        (RunStage::Pumping, "socket pump: x"),
        (RunStage::Polling, "poll: x"),
        (RunStage::Reading, "wayland read: x"),
        (RunStage::Drawing, "x"),
        (RunStage::Dispatching, "x"),
    ];
    for (stage, expected) in cases {
        let mut overlay = Overlay::new(connected(1920, 1080));
        let gpu = OverlayGpu::new(extent(), extent(), true);
        let mut run = RunLoop { parked: false, copying: false, stage };
        match run.step(RunEvent::Failed(s("x")), &mut overlay, &gpu) {
            RunAction::Refused(message) => assert_eq!(message, expected),
            other => panic!("expected a refusal, got {other:?}"),
        }
        assert_eq!(run.stage, RunStage::Over);
    }
}
