use rend3_framework::handler::{
    AbortReason, AcquireOutcome, ControlFlowRequest, FrameStep, HandlerState, LifecycleStep,
    WindowEventKind, WindowPlan, WindowStep,
};
use rend3_framework::surface::{
    Extent, PresentMode, SampleCount, StoredSurfaceInfo, SurfaceAction, SurfaceConfig,
    SurfaceSettings,
};

fn window() -> Extent {
    Extent { width: 800, height: 600 }
}

fn settings() -> SurfaceSettings {
    SurfaceSettings { sample_count: SampleCount::One, present_mode: PresentMode::Immediate }
}

fn running() -> HandlerState {
    HandlerState::new(window(), false, settings())
}

fn redraw_plan(configure: Option<SurfaceConfig>) -> WindowPlan {
    WindowPlan { aspect_ratio: None, step: WindowStep::Redraw { configure } }
}

#[test]
fn start_up_with_surface() {
    let h = running();
    assert!(!h.is_suspended());
    assert!(h.has_surface());
    assert!(!h.is_acquiring());
    assert_eq!(
        h.surface_info(),
        StoredSurfaceInfo {
            size: window(),
            sample_count: SampleCount::One,
            present_mode: PresentMode::Immediate,
            requires_reconfigure: true,
        }
    );
    assert_eq!(h.configured(), Some(SurfaceConfig { size: window(), present_mode: PresentMode::Fifo }));
    assert_eq!(h.resolution(), window());
}

#[test]
fn start_up_with_deferred_surface() {
    let h = HandlerState::new(window(), true, settings());
    assert!(h.is_suspended());
    assert!(!h.has_surface());
    assert_eq!(h.configured(), None);
}

#[test]
fn first_redraw_configures_with_stored_settings() {
    let mut h = running();
    let plan = h.window_event(WindowEventKind::RedrawRequested);
    assert_eq!(
        plan,
        redraw_plan(Some(SurfaceConfig { size: window(), present_mode: PresentMode::Immediate }))
    );
    assert!(h.is_acquiring());
    assert!(!h.surface_info().requires_reconfigure);
    assert_eq!(h.acquire_outcome(AcquireOutcome::Acquired), FrameStep::Draw);
    assert!(!h.is_acquiring());
    assert_eq!(
        h.configured(),
        Some(SurfaceConfig { size: window(), present_mode: PresentMode::Immediate })
    );
}

#[test]
fn second_redraw_does_not_reconfigure() {
    let mut h = running();
    h.window_event(WindowEventKind::RedrawRequested);
    h.acquire_outcome(AcquireOutcome::Acquired);
    assert_eq!(h.window_event(WindowEventKind::RedrawRequested), redraw_plan(None));
}

#[test]
fn outdated_surface_is_reconfigured_next_time() {
    let mut h = running();
    h.window_event(WindowEventKind::RedrawRequested);
    assert_eq!(h.acquire_outcome(AcquireOutcome::Outdated), FrameStep::Skip);
    assert!(h.surface_info().requires_reconfigure);
    assert_eq!(
        h.window_event(WindowEventKind::RedrawRequested),
        redraw_plan(Some(SurfaceConfig { size: window(), present_mode: PresentMode::Immediate }))
    );
}

#[test]
fn timeout_skips_the_frame() {
    let mut h = running();
    h.window_event(WindowEventKind::RedrawRequested);
    assert_eq!(h.acquire_outcome(AcquireOutcome::Timeout), FrameStep::Skip);
    assert!(!h.surface_info().requires_reconfigure);
    assert_eq!(h.window_event(WindowEventKind::RedrawRequested), redraw_plan(None));
}

#[test]
fn lost_surface_aborts() {
    let mut h = running();
    h.window_event(WindowEventKind::RedrawRequested);
    assert_eq!(
        h.acquire_outcome(AcquireOutcome::Lost),
        FrameStep::Abort(AbortReason::SurfaceLostOrOutOfMemory)
    );
}

#[test]
fn out_of_memory_aborts() {
    let mut h = running();
    h.window_event(WindowEventKind::RedrawRequested);
    assert_eq!(
        h.acquire_outcome(AcquireOutcome::OutOfMemory),
        FrameStep::Abort(AbortReason::SurfaceLostOrOutOfMemory)
    );
}

#[test]
fn unknown_failure_aborts_as_unhandled() {
    let mut h = running();
    h.window_event(WindowEventKind::RedrawRequested);
    assert_eq!(h.acquire_outcome(AcquireOutcome::Other), FrameStep::Abort(AbortReason::Unhandled));
}

#[test]
fn close_request_exits() {
    let mut h = running();
    let plan = h.window_event(WindowEventKind::CloseRequested);
    assert_eq!(plan, WindowPlan { aspect_ratio: None, step: WindowStep::Exit });
    assert!(h.surface_info().requires_reconfigure);
}

#[test]
fn other_window_events_pass_through() {
    let mut h = running();
    let plan = h.window_event(WindowEventKind::Other);
    assert_eq!(plan, WindowPlan { aspect_ratio: None, step: WindowStep::PassThrough });
}

#[test]
fn redraw_while_suspended_is_ignored() {
    let mut h = running();
    let step = h.suspend();
    assert_eq!(
        step,
        LifecycleStep {
            control_flow: ControlFlowRequest::Wait,
            request_redraw: false,
            surface_action: SurfaceAction::Nothing,
        }
    );
    assert!(h.has_surface());
    assert!(h.is_suspended());
    let plan = h.window_event(WindowEventKind::RedrawRequested);
    assert_eq!(plan, WindowPlan { aspect_ratio: None, step: WindowStep::Idle });
    assert!(h.surface_info().requires_reconfigure);
    assert!(!h.is_acquiring());
}

#[test]
fn resume_then_redraw_draws() {
    let mut h = running();
    h.suspend();
    let step = h.resume();
    assert_eq!(
        step,
        LifecycleStep {
            control_flow: ControlFlowRequest::Poll,
            request_redraw: true,
            surface_action: SurfaceAction::Nothing,
        }
    );
    assert!(!h.is_suspended());
    assert!(matches!(h.window_event(WindowEventKind::RedrawRequested).step, WindowStep::Redraw { .. }));
}

#[test]
fn redraw_before_deferred_surface_is_ignored() {
    let mut h = HandlerState::new(window(), true, settings());
    let plan = h.window_event(WindowEventKind::RedrawRequested);
    assert_eq!(plan, WindowPlan { aspect_ratio: None, step: WindowStep::Idle });
    assert!(!h.has_surface());
}

#[test]
fn resume_creates_deferred_surface_and_draws() {
    let mut h = HandlerState::new(window(), true, settings());
    let step = h.resume();
    assert_eq!(
        step,
        LifecycleStep {
            control_flow: ControlFlowRequest::Poll,
            request_redraw: true,
            surface_action: SurfaceAction::CreateSurface,
        }
    );
    assert!(h.has_surface());
    assert!(!h.is_suspended());
    assert_eq!(h.configured(), None);
    assert!(h.surface_info().requires_reconfigure);
    assert_eq!(
        h.window_event(WindowEventKind::RedrawRequested),
        redraw_plan(Some(SurfaceConfig { size: window(), present_mode: PresentMode::Immediate }))
    );
    assert_eq!(h.acquire_outcome(AcquireOutcome::Acquired), FrameStep::Draw);
    assert_eq!(
        h.configured(),
        Some(SurfaceConfig { size: window(), present_mode: PresentMode::Immediate })
    );
    let again = h.resume();
    assert_eq!(again.surface_action, SurfaceAction::Nothing);
}

#[test]
fn resize_then_redraw_configures_new_extent() {
    let mut h = running();
    h.window_event(WindowEventKind::RedrawRequested);
    h.acquire_outcome(AcquireOutcome::Acquired);
    let size = Extent { width: 1920, height: 1080 };
    let new_settings = SurfaceSettings { sample_count: SampleCount::Four, present_mode: PresentMode::Mailbox };
    let plan = h.window_event(WindowEventKind::Resized { size, settings: new_settings });
    assert_eq!(plan, WindowPlan { aspect_ratio: Some(size), step: WindowStep::PassThrough });
    assert!(!h.is_suspended());
    assert_eq!(h.resolution(), size);
    assert_eq!(h.surface_info().sample_count, SampleCount::Four);
    assert_eq!(
        h.window_event(WindowEventKind::RedrawRequested),
        redraw_plan(Some(SurfaceConfig { size, present_mode: PresentMode::Mailbox }))
    );
}

#[test]
fn resize_while_suspended_keeps_suspension() {
    let mut h = running();
    h.suspend();
    let size = Extent { width: 1920, height: 1080 };
    let plan = h.window_event(WindowEventKind::Resized { size, settings: settings() });
    assert_eq!(plan, WindowPlan { aspect_ratio: Some(size), step: WindowStep::PassThrough });
    assert!(h.is_suspended());
    assert_eq!(h.resolution(), size);
    let plan = h.window_event(WindowEventKind::RedrawRequested);
    assert_eq!(plan, WindowPlan { aspect_ratio: None, step: WindowStep::Idle });
    assert!(!h.is_acquiring());
}

#[test]
fn degenerate_resize_changes_nothing() {
    let mut h = running();
    h.suspend();
    let before = h.surface_info();
    let size = Extent { width: 0, height: 0 };
    let plan = h.window_event(WindowEventKind::Resized { size, settings: settings() });
    assert_eq!(plan, WindowPlan { aspect_ratio: None, step: WindowStep::PassThrough });
    assert_eq!(h.surface_info(), before);
    assert!(h.is_suspended());
    let plan = h.window_event(WindowEventKind::RedrawRequested);
    assert_eq!(plan, WindowPlan { aspect_ratio: None, step: WindowStep::Idle });
}

#[test]
fn changed_sample_count_forces_reconfigure() {
    let mut h = running();
    h.window_event(WindowEventKind::RedrawRequested);
    h.acquire_outcome(AcquireOutcome::Acquired);
    assert!(!h.main_events_cleared(SampleCount::One));
    assert!(!h.surface_info().requires_reconfigure);
    assert!(h.main_events_cleared(SampleCount::Four));
    assert_eq!(h.surface_info().sample_count, SampleCount::Four);
    assert!(h.surface_info().requires_reconfigure);
    assert_eq!(
        h.window_event(WindowEventKind::RedrawRequested),
        redraw_plan(Some(SurfaceConfig { size: window(), present_mode: PresentMode::Immediate }))
    );
}
