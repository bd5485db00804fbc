use fractal_view::engine::{Engine, EngineAction, EngineEvent, FrameToken, Phase, SurfaceState};
use fractal_view::input::InputEvent;
use fractal_view::movement::plan_tick;
use fractal_view::input::PKeys;
use fractal_view::shared::{input_step, LifecycleFlags, SharedKeys};

fn start(exit: bool, dirty: bool) -> EngineEvent {
    EngineEvent::FrameStarted { exit_requested: exit, surface_dirty: dirty }
}

/// Runs one whole frame that draws, starting at the top of an iteration.
fn draw_frame(e: &mut Engine, image: u32, token: u64) {
    assert_eq!(e.step(start(false, false)), EngineAction::Acquire);
    let prev = e.previous_frame;
    assert_eq!(
        e.step(EngineEvent::ImageAcquired { image }),
        EngineAction::Submit { image, after: prev }
    );
    assert_eq!(e.step(EngineEvent::Submitted { token }), EngineAction::BeginFrame);
    assert_eq!(e.previous_frame, FrameToken::Pending(token));
}

#[test]
fn new_engine() {
    let e = Engine::new(3);
    assert_eq!(e.surface, SurfaceState::Valid);
    assert_eq!(e.phase, Phase::FrameTop);
    assert_eq!(e.previous_frame, FrameToken::Idle);
    assert_eq!(e.image_count, 3);
}

#[test]
fn frames_chain_their_tokens() {
    let mut e = Engine::new(2);
    draw_frame(&mut e, 0, 1);
    draw_frame(&mut e, 1, 2);
    assert_eq!(e.step(start(false, false)), EngineAction::Acquire);
    assert_eq!(
        e.step(EngineEvent::ImageAcquired { image: 0 }),
        EngineAction::Submit { image: 0, after: FrameToken::Pending(2) }
    );
}

#[test]
fn exit_stops_all_three_loops() {
    let flags = LifecycleFlags::new();
    let keys = SharedKeys::new();
    flags.request_exit();

    assert!(!input_step(&keys, &flags, &InputEvent::Other));
    assert_eq!(plan_tick(flags.exit_requested(), 0, &PKeys::new()), None);

    let mut e = Engine::new(2);
    draw_frame(&mut e, 0, 7);
    assert_eq!(e.step(start(flags.exit_requested(), false)), EngineAction::Stop);
    assert_eq!(e.surface, SurfaceState::ShuttingDown);
    assert_eq!(e.phase, Phase::Stopped);
    assert_eq!(e.step(start(false, false)), EngineAction::Stop);
    assert_eq!(e.step(EngineEvent::Submitted { token: 8 }), EngineAction::Stop);
}

#[test]
fn exit_in_mid_frame_stops_at_next_top() {
    let mut e = Engine::new(2);
    assert_eq!(e.step(start(false, false)), EngineAction::Acquire);
    assert_eq!(
        e.step(EngineEvent::ImageAcquired { image: 1 }),
        EngineAction::Submit { image: 1, after: FrameToken::Idle }
    );
    assert_eq!(e.step(EngineEvent::Submitted { token: 1 }), EngineAction::BeginFrame);
    assert_eq!(e.step(start(true, true)), EngineAction::Stop);
}

#[test]
fn resize_while_frame_in_flight() {
    let mut e = Engine::new(2);
    draw_frame(&mut e, 0, 41);
    // The window is resized while frame 41 may still run on the GPU.
    assert_eq!(e.step(start(false, true)), EngineAction::MeasureSurface);
    assert_eq!(e.surface, SurfaceState::PendingReconstruction);
    assert_eq!(
        e.step(EngineEvent::SurfaceMeasured { width: 800, height: 600 }),
        EngineAction::Rebuild { width: 800, height: 600 }
    );
    assert_eq!(e.previous_frame, FrameToken::Pending(41));
    assert_eq!(e.step(EngineEvent::Rebuilt { image_count: 3 }), EngineAction::BeginFrame);
    assert_eq!(e.surface, SurfaceState::Valid);
    assert_eq!(e.image_count, 3);
    assert_eq!(e.previous_frame, FrameToken::Pending(41));
    // The next frame is drawn on the new swapchain, after frame 41.
    assert_eq!(e.step(start(false, false)), EngineAction::Acquire);
    assert_eq!(
        e.step(EngineEvent::ImageAcquired { image: 2 }),
        EngineAction::Submit { image: 2, after: FrameToken::Pending(41) }
    );
}

#[test]
fn stale_present_recovers_within_two_frames() {
    let mut e = Engine::new(2);
    draw_frame(&mut e, 0, 5);
    assert_eq!(e.step(start(false, false)), EngineAction::Acquire);
    assert_eq!(
        e.step(EngineEvent::ImageAcquired { image: 1 }),
        EngineAction::Submit { image: 1, after: FrameToken::Pending(5) }
    );
    assert_eq!(e.step(EngineEvent::SubmitOutOfDate), EngineAction::BeginFrame);
    assert_eq!(e.surface, SurfaceState::PendingReconstruction);
    assert_eq!(e.previous_frame, FrameToken::Idle);
    // First iteration after the failure: rebuild.
    assert_eq!(e.step(start(false, false)), EngineAction::MeasureSurface);
    assert_eq!(
        e.step(EngineEvent::SurfaceMeasured { width: 640, height: 480 }),
        EngineAction::Rebuild { width: 640, height: 480 }
    );
    assert_eq!(e.step(EngineEvent::Rebuilt { image_count: 2 }), EngineAction::BeginFrame);
    // Second iteration: the frame is presented.
    assert_eq!(e.step(start(false, false)), EngineAction::Acquire);
    assert_eq!(
        e.step(EngineEvent::ImageAcquired { image: 0 }),
        EngineAction::Submit { image: 0, after: FrameToken::Idle }
    );
    assert_eq!(e.step(EngineEvent::Submitted { token: 6 }), EngineAction::BeginFrame);
    assert_eq!(e.previous_frame, FrameToken::Pending(6));
}

#[test]
fn stale_acquire_rebuilds() {
    let mut e = Engine::new(2);
    draw_frame(&mut e, 0, 9);
    assert_eq!(e.step(start(false, false)), EngineAction::Acquire);
    assert_eq!(e.step(EngineEvent::AcquireOutOfDate), EngineAction::BeginFrame);
    assert_eq!(e.surface, SurfaceState::PendingReconstruction);
    assert_eq!(e.previous_frame, FrameToken::Pending(9));
    assert_eq!(e.step(start(false, false)), EngineAction::MeasureSurface);
}

#[test]
fn other_submit_failure_goes_on() {
    let mut e = Engine::new(2);
    draw_frame(&mut e, 0, 3);
    assert_eq!(e.step(start(false, false)), EngineAction::Acquire);
    e.step(EngineEvent::ImageAcquired { image: 1 });
    assert_eq!(e.step(EngineEvent::SubmitFailed), EngineAction::BeginFrame);
    assert_eq!(e.surface, SurfaceState::Valid);
    assert_eq!(e.previous_frame, FrameToken::Idle);
    draw_frame(&mut e, 1, 4);
}

#[test]
fn one_rebuild_per_signal() {
    let mut e = Engine::new(2);
    assert_eq!(e.step(start(false, true)), EngineAction::MeasureSurface);
    assert_eq!(
        e.step(EngineEvent::SurfaceMeasured { width: 10, height: 20 }),
        EngineAction::Rebuild { width: 10, height: 20 }
    );
    assert_eq!(e.step(EngineEvent::Rebuilt { image_count: 2 }), EngineAction::BeginFrame);
    assert_eq!(e.step(start(false, false)), EngineAction::Acquire);
}

#[test]
fn dirty_signal_during_rebuild_rebuilds_again() {
    let flags = LifecycleFlags::new();
    flags.mark_surface_dirty();
    flags.mark_surface_dirty();
    let mut e = Engine::new(2);
    assert_eq!(e.step(start(false, flags.take_surface_dirty())), EngineAction::MeasureSurface);
    e.step(EngineEvent::SurfaceMeasured { width: 10, height: 20 });
    // A resize arrives while the swapchain is rebuilt.
    flags.mark_surface_dirty();
    assert_eq!(e.step(EngineEvent::Rebuilt { image_count: 2 }), EngineAction::BeginFrame);
    assert_eq!(e.step(start(false, flags.take_surface_dirty())), EngineAction::MeasureSurface);
    e.step(EngineEvent::SurfaceMeasured { width: 30, height: 20 });
    assert_eq!(e.step(EngineEvent::Rebuilt { image_count: 2 }), EngineAction::BeginFrame);
    assert_eq!(e.step(start(false, flags.take_surface_dirty())), EngineAction::Acquire);
}

#[test]
fn zero_area_defers_rebuild() {
    let mut e = Engine::new(2);
    assert_eq!(e.step(start(false, true)), EngineAction::MeasureSurface);
    assert_eq!(
        e.step(EngineEvent::SurfaceMeasured { width: 0, height: 600 }),
        EngineAction::BeginFrame
    );
    assert_eq!(e.surface, SurfaceState::PendingReconstruction);
    assert_eq!(e.step(start(false, false)), EngineAction::MeasureSurface);
    assert_eq!(
        e.step(EngineEvent::SurfaceMeasured { width: 800, height: 0 }),
        EngineAction::BeginFrame
    );
    assert_eq!(e.step(start(false, false)), EngineAction::MeasureSurface);
    assert_eq!(
        e.step(EngineEvent::SurfaceMeasured { width: 800, height: 600 }),
        EngineAction::Rebuild { width: 800, height: 600 }
    );
}

#[test]
fn refused_extent_defers_rebuild() {
    let mut e = Engine::new(2);
    e.step(start(false, true));
    e.step(EngineEvent::SurfaceMeasured { width: 800, height: 600 });
    assert_eq!(e.step(EngineEvent::RebuildDeferred), EngineAction::BeginFrame);
    assert_eq!(e.surface, SurfaceState::PendingReconstruction);
    assert_eq!(e.step(start(false, false)), EngineAction::MeasureSurface);
}

#[test]
fn fatal_reports_abort() {
    let mut e = Engine::new(2);
    e.step(start(false, true));
    e.step(EngineEvent::SurfaceMeasured { width: 8, height: 6 });
    assert_eq!(e.step(EngineEvent::RebuildFailed), EngineAction::Abort);
    assert_eq!(e.phase, Phase::Stopped);
    assert_eq!(e.surface, SurfaceState::ShuttingDown);

    let mut e = Engine::new(2);
    e.step(start(false, false));
    assert_eq!(e.step(EngineEvent::AcquireFailed), EngineAction::Abort);

    let mut e = Engine::new(2);
    e.step(start(false, false));
    assert_eq!(e.step(EngineEvent::ImageAcquired { image: 2 }), EngineAction::Abort);

    let mut e = Engine::new(2);
    e.step(start(false, true));
    e.step(EngineEvent::SurfaceMeasured { width: 8, height: 6 });
    assert_eq!(e.step(EngineEvent::Rebuilt { image_count: 0 }), EngineAction::Abort);
}

#[test]
fn report_out_of_order_aborts() {
    let mut e = Engine::new(2);
    assert_eq!(e.step(EngineEvent::Submitted { token: 1 }), EngineAction::Abort);
    assert_eq!(e.step(start(false, false)), EngineAction::Stop);
}
