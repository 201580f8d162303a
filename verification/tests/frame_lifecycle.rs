use frame_session::dock::build_dock_layout;
use frame_session::driver::dispatch;
use frame_session::driver::Action;
use frame_session::driver::Key;
use frame_session::driver::LoopEvent;
use frame_session::geom::Extent;
use frame_session::gui::GuiError;
use frame_session::gui::GuiOverlay;
use frame_session::gui::Phase;
use frame_session::gui_desc::PanelKind;
use frame_session::pipeline::BlendMode;
use frame_session::pipeline::CullMode;
use frame_session::pipeline::FrontFace;
use frame_session::pipeline::Pipeline;
use frame_session::pipeline::Topology;
use frame_session::present::PresentError;
use frame_session::present::PresentMode;
use frame_session::present::PresentationContext;
use frame_session::present::TextureFormat;
use frame_session::session::Session;

#[test]
fn resize_sequence_tracks_last_event() {
    let mut s = Session::new(Extent::new(800, 600));
    s.handle_event(&LoopEvent::Resized(Extent::new(1024, 768)));
    s.handle_event(&LoopEvent::ScaleFactorChanged(Extent::new(1600, 1200)));
    s.handle_event(&LoopEvent::Resized(Extent::new(640, 480)));
    assert_eq!(s.ctx.config.width, 640);
    assert_eq!(s.ctx.config.height, 480);
    assert_eq!(s.ctx.config.format, TextureFormat::Bgra8Unorm);
    assert_eq!(s.ctx.config.present_mode, PresentMode::Fifo);
    let frame = s.ctx.acquire_frame(Extent::new(640, 480)).unwrap();
    assert_eq!(frame.width, 640);
    assert_eq!(frame.height, 480);
}

#[test]
fn resize_to_identical_dimensions_is_idempotent() {
    let mut once = PresentationContext::initialize(Extent::new(800, 600));
    let mut twice = once;
    once.resize(Extent::new(400, 300));
    twice.resize(Extent::new(400, 300));
    twice.resize(Extent::new(400, 300));
    assert_eq!(once.config, twice.config);
}

#[test]
fn stale_queue_times_out() {
    let ctx = PresentationContext::initialize(Extent::new(800, 600));
    let r = ctx.acquire_frame(Extent::new(640, 480));
    assert_eq!(r, Err(PresentError::AcquireTimeout));
}

#[test]
fn close_request_and_escape_each_exit() {
    assert_eq!(dispatch(&LoopEvent::CloseRequested), Action::Exit);
    assert_eq!(dispatch(&LoopEvent::KeyPressed(Key::Escape)), Action::Exit);
}

#[test]
fn no_other_event_exits() {
    assert_eq!(dispatch(&LoopEvent::KeyPressed(Key::Other)), Action::Ignore);
    assert_eq!(dispatch(&LoopEvent::KeyReleased(Key::Escape)), Action::Ignore);
    assert_eq!(dispatch(&LoopEvent::KeyReleased(Key::Other)), Action::Ignore);
    assert_eq!(dispatch(&LoopEvent::CursorMoved(10, 20)), Action::Ignore);
    assert_eq!(dispatch(&LoopEvent::Other), Action::Ignore);
    assert_eq!(dispatch(&LoopEvent::RedrawRequested), Action::Render);
    assert_eq!(dispatch(&LoopEvent::MainEventsCleared), Action::RequestRedraw);
    assert_eq!(
        dispatch(&LoopEvent::Resized(Extent::new(5, 6))),
        Action::Rebuild(Extent::new(5, 6))
    );
    assert_eq!(
        dispatch(&LoopEvent::ScaleFactorChanged(Extent::new(7, 8))),
        Action::Rebuild(Extent::new(7, 8))
    );
}

#[test]
fn declare_twice_without_begin_is_rejected() {
    let mut g = GuiOverlay::new();
    g.begin_frame(Extent::new(800, 600), 16);
    assert!(g.declare_ui().is_ok());
    assert_eq!(g.declare_ui().unwrap_err(), GuiError::DeclareWithoutBegin);
}

#[test]
fn declare_before_any_begin_is_rejected() {
    let mut g = GuiOverlay::new();
    assert_eq!(g.declare_ui().unwrap_err(), GuiError::DeclareWithoutBegin);
}

#[test]
fn render_without_declare_is_rejected() {
    let mut g = GuiOverlay::new();
    assert_eq!(g.render_into().unwrap_err(), GuiError::RenderWithoutDeclare);
    g.begin_frame(Extent::new(800, 600), 16);
    assert_eq!(g.render_into().unwrap_err(), GuiError::RenderWithoutDeclare);
    assert!(g.declare_ui().is_ok());
    assert_eq!(g.render_into(), Ok(()));
    assert_eq!(g.phase, Phase::Idle);
}

#[test]
fn begin_frame_restores_declaration() {
    let mut g = GuiOverlay::new();
    g.begin_frame(Extent::new(800, 600), 16);
    assert!(g.declare_ui().is_ok());
    assert!(g.declare_ui().is_err());
    g.begin_frame(Extent::new(800, 600), 16);
    assert!(g.declare_ui().is_ok());
}

#[test]
fn render_step_fails_on_a_stale_queue() {
    let mut s = Session::new(Extent::new(800, 600));
    // A window size change the context never heard of leaves the queue stale.
    s.window = Extent::new(640, 480);
    assert_eq!(s.render_frame(16), Err(PresentError::AcquireTimeout));
}

#[test]
fn dock_splits_seventy_thirty_at_800_by_600() {
    let d = build_dock_layout(Extent::new(800, 600));
    assert_eq!(d.root, Extent::new(700, 500));
    assert_eq!(d.left.size, Extent::new(490, 500));
    assert_eq!(d.right.size, Extent::new(210, 500));
    assert_eq!(d.left.size.width + d.right.size.width, d.root.width);
    assert_eq!(d.left.first, PanelKind::Demo);
    assert_eq!(d.left.second, Some(PanelKind::InfoHello));
    assert_eq!(d.right.first, PanelKind::InfoFrametime);
    assert_eq!(d.right.second, None);
}

#[test]
fn dock_root_clamps_to_one_pixel_for_tiny_windows() {
    let d = build_dock_layout(Extent::new(50, 40));
    assert_eq!(d.root, Extent::new(1, 1));
    assert_eq!(d.left.size.width + d.right.size.width, 1);
    let d = build_dock_layout(Extent::new(1, 1));
    assert_eq!(d.root, Extent::new(1, 1));
}

#[test]
fn dock_partitions_exactly_across_sizes() {
    for (w, h) in [(102u32, 101u32), (103, 200), (999, 777), (1920, 1080), (101, 101)] {
        let d = build_dock_layout(Extent::new(w, h));
        assert_eq!(d.left.size.width + d.right.size.width, d.root.width);
        assert_eq!(d.left.size.height, d.root.height);
        assert_eq!(d.right.size.height, d.root.height);
        assert_eq!(d.left.size.width as u64, (d.root.width as u64 * 7) / 10);
        if d.root.width >= 2 {
            assert!(d.left.size.width >= 1);
            assert!(d.right.size.width >= 1);
        }
    }
}

#[test]
fn pipeline_is_built_for_the_fixed_format() {
    let p = Pipeline::build(TextureFormat::Bgra8Unorm);
    assert_eq!(p.output_format, TextureFormat::Bgra8Unorm);
    assert_eq!(p.front_face, FrontFace::CounterClockwise);
    assert_eq!(p.cull_mode, CullMode::Back);
    assert_eq!(p.blend, BlendMode::Replace);
    assert_eq!(p.topology, Topology::TriangleList);
    assert_eq!(p.sample_count, 1);
    assert!(!p.has_depth_stencil);
}

#[test]
fn input_handler_always_declines() {
    let mut s = Session::new(Extent::new(800, 600));
    assert!(!s.input(&LoopEvent::CloseRequested));
    assert!(!s.input(&LoopEvent::KeyPressed(Key::Escape)));
    assert!(!s.input(&LoopEvent::CursorMoved(1, 2)));
}

#[test]
fn update_is_a_no_op() {
    let mut s = Session::new(Extent::new(800, 600));
    let before = s;
    s.update();
    assert_eq!(s, before);
}
