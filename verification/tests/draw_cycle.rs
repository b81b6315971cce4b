use render_host::camera::AspectRatio;
use render_host::mesh::{DrawCall, IndexFormat};
use render_host::renderer::{
    ClearColor, CycleResult, FrameAction, FrameEvent, FramePhase, PassPlan, Renderer,
};
use render_host::startup::{DeviceProbe, SurfaceCapabilities};
use render_host::surface::{
    AcquireError, AcquireOutcome, AlphaMode, PresentMode, SurfaceConfig, SurfaceFormat,
    SurfaceSize,
};

const SRGB: SurfaceFormat = SurfaceFormat { id: 1, srgb: true };

fn size(width: u32, height: u32) -> SurfaceSize {
    SurfaceSize::new(width, height).unwrap()
}

fn renderer(width: u32, height: u32) -> Renderer {
    let probe = DeviceProbe::Ready(SurfaceCapabilities {
        formats: vec![SurfaceFormat { id: 0, srgb: false }, SRGB],
        alpha_modes: vec![AlphaMode::Opaque, AlphaMode::Auto],
    });
    Renderer::initialize(size(width, height), &probe, true).unwrap()
}

fn config(width: u32, height: u32) -> SurfaceConfig {
    SurfaceConfig {
        format: SRGB,
        width,
        height,
        present_mode: PresentMode::AutoVsync,
        alpha_mode: AlphaMode::Opaque,
    }
}

fn pentagon_pass() -> PassPlan {
    PassPlan {
        clear: ClearColor { red: 100, green: 200, blue: 300, alpha: 1000 },
        camera_group: 0,
        vertex_slot: 0,
        draw: DrawCall::Indexed { index_count: 9, format: IndexFormat::Uint16 },
    }
}

fn failed(error: AcquireError) -> FrameEvent {
    FrameEvent::Acquired(AcquireOutcome::Failed(error))
}

const FRAME: FrameEvent = FrameEvent::Acquired(AcquireOutcome::Frame);

/// Drives the renderer through the steps that follow a held frame.
fn finish_frame(r: &mut Renderer) {
    assert_eq!(r.draw(FrameEvent::FramePrepared), FrameAction::RecordPass(pentagon_pass()));
    assert_eq!(r.phase, FramePhase::RecordingPass);
    assert_eq!(r.draw(FrameEvent::PassRecorded), FrameAction::Submit);
    assert_eq!(r.phase, FramePhase::Submitted);
    assert_eq!(r.draw(FrameEvent::Submitted), FrameAction::Present);
    assert_eq!(r.phase, FramePhase::Presented);
    assert_eq!(r.draw(FrameEvent::Presented), FrameAction::Finish(CycleResult::Presented));
    assert_eq!(r.phase, FramePhase::Idle);
    assert!(!r.retried);
}

#[test]
fn first_cycle_acquires_at_once() {
    let mut r = renderer(800, 600);
    assert_eq!(r.phase, FramePhase::Idle);
    assert!(!r.surface.needs_reconfigure);
    assert_eq!(r.surface.live, Some(config(800, 600)));
    assert_eq!(r.camera.uploaded, Some(AspectRatio { width: 800, height: 600 }));
    assert_eq!(r.draw(FrameEvent::DrawRequested), FrameAction::Acquire);
    assert_eq!(r.phase, FramePhase::SurfaceReady);
    assert_eq!(r.draw(FRAME), FrameAction::PrepareFrame { camera: None });
    assert_eq!(r.phase, FramePhase::FrameAcquired);
    assert!(r.surface.frame_held);
    finish_frame(&mut r);
    assert!(!r.surface.frame_held);
    assert_eq!(r.surface.live, Some(config(800, 600)));
}

#[test]
fn first_cycle_after_a_resize_configures_and_uploads() {
    let mut r = renderer(800, 600);
    r.resize_surface(size(1024, 768));
    assert!(r.surface.needs_reconfigure);
    assert_eq!(r.surface.live, Some(config(800, 600)));
    assert_eq!(r.draw(FrameEvent::DrawRequested), FrameAction::Configure(config(1024, 768)));
    assert_eq!(r.phase, FramePhase::SurfaceStale);
    assert_eq!(r.surface.live, Some(config(1024, 768)));
    assert!(!r.surface.needs_reconfigure);
    assert_eq!(r.draw(FrameEvent::Configured), FrameAction::Acquire);
    assert_eq!(r.phase, FramePhase::SurfaceReady);
    assert_eq!(
        r.draw(FRAME),
        FrameAction::PrepareFrame { camera: Some(AspectRatio { width: 1024, height: 768 }) }
    );
    assert_eq!(r.phase, FramePhase::FrameAcquired);
    finish_frame(&mut r);
}

#[test]
fn invariant_holds_at_every_step() {
    let mut r = renderer(800, 600);
    let events = [
        FrameEvent::DrawRequested,
        failed(AcquireError::Lost),
        FrameEvent::Submitted,
        FrameEvent::Configured,
        FRAME,
        FrameEvent::FramePrepared,
        FrameEvent::PassRecorded,
        FrameEvent::DrawRequested,
        FrameEvent::Submitted,
        FrameEvent::Presented,
        FrameEvent::DrawRequested,
        FrameEvent::Configured,
        failed(AcquireError::Timeout),
    ];
    assert!(r.is_well_formed());
    for event in events {
        r.draw(event);
        assert!(r.is_well_formed());
        r.resize_surface(size(123, 45));
        assert!(r.is_well_formed());
    }
    assert_eq!(r.phase, FramePhase::Idle);
    // A renderer whose pipeline was built for another format is not valid.
    let mut broken = r;
    broken.pipeline.color_target_format = SurfaceFormat { id: 9, srgb: false };
    assert!(!broken.is_well_formed());
    let mut broken = r;
    broken.retried = true;
    assert!(!broken.is_well_formed());
}

#[test]
fn quiet_cycles_neither_configure_nor_upload() {
    let mut r = renderer(800, 600);
    for _ in 0..3 {
        assert_eq!(r.draw(FrameEvent::DrawRequested), FrameAction::Acquire);
        assert_eq!(r.draw(FRAME), FrameAction::PrepareFrame { camera: None });
        finish_frame(&mut r);
    }
    assert_eq!(r.surface.live, Some(config(800, 600)));
}

#[test]
fn resize_burst_is_configured_once_with_the_last_size() {
    let mut r = renderer(800, 600);
    r.draw(FrameEvent::DrawRequested);
    r.draw(FRAME);
    finish_frame(&mut r);

    r.resize_surface(size(1024, 768));
    r.resize_surface(size(640, 480));
    r.resize_surface(size(1, 7));
    r.resize_surface(size(1920, 1080));
    assert!(r.surface.needs_reconfigure);
    assert_eq!(r.surface.live, Some(config(800, 600)));
    assert_eq!(r.surface.config, config(1920, 1080));

    let mut actions = vec![r.draw(FrameEvent::DrawRequested)];
    for event in [
        FrameEvent::Configured,
        FRAME,
        FrameEvent::FramePrepared,
        FrameEvent::PassRecorded,
        FrameEvent::Submitted,
        FrameEvent::Presented,
    ] {
        actions.push(r.draw(event));
    }
    assert_eq!(
        actions,
        vec![
            FrameAction::Configure(config(1920, 1080)),
            FrameAction::Acquire,
            FrameAction::PrepareFrame { camera: Some(AspectRatio { width: 1920, height: 1080 }) },
            FrameAction::RecordPass(pentagon_pass()),
            FrameAction::Submit,
            FrameAction::Present,
            FrameAction::Finish(CycleResult::Presented),
        ]
    );
    let configures = actions.iter().filter(|a| matches!(a, FrameAction::Configure(_))).count();
    assert_eq!(configures, 1);
    assert_eq!(r.surface.live, Some(config(1920, 1080)));
    assert!(!r.surface.needs_reconfigure);
}

#[test]
fn resize_to_the_same_size_still_reconfigures() {
    let mut r = renderer(800, 600);
    r.resize_surface(size(800, 600));
    assert_eq!(r.draw(FrameEvent::DrawRequested), FrameAction::Configure(config(800, 600)));
    assert_eq!(r.draw(FrameEvent::Configured), FrameAction::Acquire);
    assert_eq!(
        r.draw(FRAME),
        FrameAction::PrepareFrame { camera: Some(AspectRatio { width: 800, height: 600 }) }
    );
}

#[test]
fn resize_updates_aspect_ratio_before_the_pass() {
    let mut r = renderer(800, 600);
    assert_eq!(r.camera.aspect, AspectRatio { width: 800, height: 600 });
    assert!(r.camera.aspect.equals(&AspectRatio { width: 4, height: 3 }));
    assert_eq!(r.camera.aspect.width as f32 / r.camera.aspect.height as f32, 800.0f32 / 600.0f32);
    assert!(!r.camera.stale);
    assert_eq!(r.camera.uploaded, Some(AspectRatio { width: 800, height: 600 }));

    r.resize_surface(size(400, 400));
    assert_eq!(r.camera.aspect, AspectRatio { width: 400, height: 400 });
    assert!(r.camera.aspect.equals(&AspectRatio { width: 1, height: 1 }));
    assert_eq!(r.camera.aspect.width as f32 / r.camera.aspect.height as f32, 1.0);
    assert!(r.camera.stale);
    assert_eq!(r.camera.uploaded, Some(AspectRatio { width: 800, height: 600 }));

    assert_eq!(r.draw(FrameEvent::DrawRequested), FrameAction::Configure(config(400, 400)));
    assert_eq!(r.draw(FrameEvent::Configured), FrameAction::Acquire);
    let prepare = r.draw(FRAME);
    assert_eq!(
        prepare,
        FrameAction::PrepareFrame { camera: Some(AspectRatio { width: 400, height: 400 }) }
    );
    assert!(!r.camera.stale);
    assert_eq!(r.camera.uploaded, Some(AspectRatio { width: 400, height: 400 }));
    assert_eq!(r.draw(FrameEvent::FramePrepared), FrameAction::RecordPass(pentagon_pass()));
}

#[test]
fn outdated_once_then_frame_presents() {
    let mut r = renderer(800, 600);
    assert_eq!(r.draw(FrameEvent::DrawRequested), FrameAction::Acquire);
    assert_eq!(r.draw(failed(AcquireError::Outdated)), FrameAction::Configure(config(800, 600)));
    assert_eq!(r.phase, FramePhase::SurfaceStale);
    assert!(r.retried);
    assert_eq!(r.draw(FrameEvent::Configured), FrameAction::Acquire);
    assert!(matches!(r.draw(FRAME), FrameAction::PrepareFrame { .. }));
    finish_frame(&mut r);
}

#[test]
fn outdated_twice_skips_the_cycle() {
    let mut r = renderer(800, 600);
    assert_eq!(r.draw(FrameEvent::DrawRequested), FrameAction::Acquire);
    assert_eq!(r.draw(failed(AcquireError::Outdated)), FrameAction::Configure(config(800, 600)));
    assert_eq!(r.draw(FrameEvent::Configured), FrameAction::Acquire);
    assert_eq!(
        r.draw(failed(AcquireError::Outdated)),
        FrameAction::Finish(CycleResult::Skipped(AcquireError::Outdated))
    );
    assert_eq!(r.phase, FramePhase::Idle);
    assert!(!r.retried);
    // The next cycle starts afresh and may retry again.
    assert_eq!(r.draw(FrameEvent::DrawRequested), FrameAction::Acquire);
    assert_eq!(r.draw(failed(AcquireError::Lost)), FrameAction::Configure(config(800, 600)));
}

#[test]
fn outdated_after_a_resize_binds_twice() {
    let mut r = renderer(800, 600);
    r.resize_surface(size(640, 480));
    assert_eq!(r.draw(FrameEvent::DrawRequested), FrameAction::Configure(config(640, 480)));
    assert_eq!(r.draw(FrameEvent::Configured), FrameAction::Acquire);
    assert_eq!(r.draw(failed(AcquireError::Outdated)), FrameAction::Configure(config(640, 480)));
    assert_eq!(r.draw(FrameEvent::Configured), FrameAction::Acquire);
    assert_eq!(
        r.draw(FRAME),
        FrameAction::PrepareFrame { camera: Some(AspectRatio { width: 640, height: 480 }) }
    );
    finish_frame(&mut r);
}

#[test]
fn lost_is_retried_once_without_a_pending_resize() {
    let mut r = renderer(640, 480);
    r.draw(FrameEvent::DrawRequested);
    r.draw(FRAME);
    finish_frame(&mut r);
    assert_eq!(r.draw(FrameEvent::DrawRequested), FrameAction::Acquire);
    assert_eq!(r.draw(failed(AcquireError::Lost)), FrameAction::Configure(config(640, 480)));
    assert_eq!(r.draw(FrameEvent::Configured), FrameAction::Acquire);
    assert_eq!(
        r.draw(failed(AcquireError::Lost)),
        FrameAction::Finish(CycleResult::Skipped(AcquireError::Lost))
    );
}

#[test]
fn timeout_skips_without_retry() {
    let mut r = renderer(800, 600);
    assert_eq!(r.draw(FrameEvent::DrawRequested), FrameAction::Acquire);
    assert_eq!(
        r.draw(failed(AcquireError::Timeout)),
        FrameAction::Finish(CycleResult::Skipped(AcquireError::Timeout))
    );
    assert_eq!(r.phase, FramePhase::Idle);
    assert!(!r.retried);
}

#[test]
fn timeout_on_the_retry_skips() {
    let mut r = renderer(800, 600);
    r.draw(FrameEvent::DrawRequested);
    assert!(matches!(r.draw(failed(AcquireError::Lost)), FrameAction::Configure(_)));
    assert_eq!(r.draw(FrameEvent::Configured), FrameAction::Acquire);
    assert_eq!(
        r.draw(failed(AcquireError::Timeout)),
        FrameAction::Finish(CycleResult::Skipped(AcquireError::Timeout))
    );
}

#[test]
fn out_of_memory_is_fatal_at_either_attempt() {
    let mut r = renderer(800, 600);
    assert_eq!(r.draw(FrameEvent::DrawRequested), FrameAction::Acquire);
    assert_eq!(
        r.draw(failed(AcquireError::OutOfMemory)),
        FrameAction::Finish(CycleResult::OutOfMemory)
    );
    assert_eq!(r.phase, FramePhase::Idle);

    let mut r = renderer(800, 600);
    r.draw(FrameEvent::DrawRequested);
    assert!(matches!(r.draw(failed(AcquireError::Outdated)), FrameAction::Configure(_)));
    assert_eq!(r.draw(FrameEvent::Configured), FrameAction::Acquire);
    assert_eq!(
        r.draw(failed(AcquireError::OutOfMemory)),
        FrameAction::Finish(CycleResult::OutOfMemory)
    );
    assert_eq!(r.phase, FramePhase::Idle);
}

#[test]
fn unexpected_events_change_nothing() {
    let mut r = renderer(800, 600);
    let before = r;
    for event in [
        FrameEvent::Configured,
        FRAME,
        failed(AcquireError::OutOfMemory),
        FrameEvent::FramePrepared,
        FrameEvent::PassRecorded,
        FrameEvent::Submitted,
        FrameEvent::Presented,
    ] {
        assert_eq!(r.draw(event), FrameAction::Ignore);
        assert_eq!(r, before);
    }
    r.draw(FrameEvent::DrawRequested);
    let ready = r;
    assert_eq!(r.draw(FrameEvent::DrawRequested), FrameAction::Ignore);
    assert_eq!(r.draw(FrameEvent::Configured), FrameAction::Ignore);
    assert_eq!(r.draw(FrameEvent::Presented), FrameAction::Ignore);
    assert_eq!(r, ready);
}

#[test]
fn resize_during_a_cycle_waits_for_the_next_one() {
    let mut r = renderer(800, 600);
    r.draw(FrameEvent::DrawRequested);
    r.draw(FRAME);
    r.resize_surface(size(300, 200));
    assert_eq!(r.phase, FramePhase::FrameAcquired);
    finish_frame(&mut r);
    assert_eq!(r.draw(FrameEvent::DrawRequested), FrameAction::Configure(config(300, 200)));
    r.draw(FrameEvent::Configured);
    assert_eq!(
        r.draw(FRAME),
        FrameAction::PrepareFrame { camera: Some(AspectRatio { width: 300, height: 200 }) }
    );
}

#[test]
fn clear_color_is_the_fixed_background() {
    let r = renderer(800, 600);
    let plan = r.plan_pass();
    assert_eq!(plan, pentagon_pass());
    assert_eq!(plan.clear.red as f64 / 1000.0, 0.1);
    assert_eq!(plan.clear.green as f64 / 1000.0, 0.2);
    assert_eq!(plan.clear.blue as f64 / 1000.0, 0.3);
    assert_eq!(plan.clear.alpha as f64 / 1000.0, 1.0);
}

#[test]
fn every_action_names_its_answer() {
    let mut r = renderer(800, 600);
    r.resize_surface(size(512, 512));
    let outcomes = [AcquireOutcome::Failed(AcquireError::Outdated), AcquireOutcome::Frame];
    let mut acquisitions = 0;
    let mut action = r.draw(FrameEvent::DrawRequested);
    let mut steps = 1;
    let result = loop {
        if let FrameAction::Finish(result) = action {
            break result;
        }
        let acquired = outcomes[acquisitions.min(1)];
        if action == FrameAction::Acquire {
            acquisitions += 1;
        }
        let event = action.completed(acquired).unwrap();
        action = r.draw(event);
        steps += 1;
        assert_ne!(action, FrameAction::Ignore);
    };
    assert_eq!(result, CycleResult::Presented);
    assert_eq!(acquisitions, 2);
    assert_eq!(steps, 9);
    assert_eq!(FrameAction::Finish(result).completed(AcquireOutcome::Frame), None);
    assert_eq!(FrameAction::Ignore.completed(AcquireOutcome::Frame), None);
    assert_eq!(
        FrameAction::Acquire.completed(AcquireOutcome::Failed(AcquireError::Lost)),
        Some(failed(AcquireError::Lost))
    );
}
