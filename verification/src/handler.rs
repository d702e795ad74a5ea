use vstd::prelude::*;
use crate::surface::{
    Extent, PresentMode, SampleCount, StoredSurfaceInfo, SurfaceAction, SurfaceConfig, SurfaceEvent,
    SurfaceSettings, config_of, handle_surface, has_surface_after, initial_config,
    surface_info_after, surface_response,
};

verus! {

/// A window event, as far as the framework looks at it.
#[derive(Clone, Copy, Debug, PartialEq, Eq, Structural)]
pub enum WindowEventKind {
    /// The window was resized; `settings` is what the application reports now.
    Resized { size: Extent, settings: SurfaceSettings },
    /// The close button was clicked.
    CloseRequested,
    /// The window asks to be redrawn.
    RedrawRequested,
    /// Any other window event.
    Other,
}

/// What the event loop does after a window event, once the aspect ratio of
/// the plan (if any) has been handed to the renderer.
#[derive(Clone, Copy, Debug, PartialEq, Eq, Structural)]
pub enum WindowStep {
    /// Leave the event loop.
    Exit,
    /// Nothing more for this event.
    Idle,
    /// Apply `configure` to the surface if it is given, then acquire the next
    /// surface texture and report the outcome with `acquire_outcome`.
    Redraw { configure: Option<SurfaceConfig> },
    /// Hand the event to the application.
    PassThrough,
}

/// The plan for one window event.
#[derive(Clone, Copy, Debug, PartialEq, Eq, Structural)]
pub struct WindowPlan {
    /// Tell the renderer the aspect ratio of this extent.
    pub aspect_ratio: Option<Extent>,
    pub step: WindowStep,
}

/// The outcome of acquiring the next surface texture.
#[derive(Clone, Copy, Debug, PartialEq, Eq, Structural)]
pub enum AcquireOutcome {
    Acquired,
    Timeout,
    Outdated,
    Lost,
    OutOfMemory,
    /// Any failure not listed above.
    Other,
}

/// Why the framework cannot go on.
#[derive(Clone, Copy, Debug, PartialEq, Eq, Structural)]
pub enum AbortReason {
    /// The surface was lost or memory ran out.
    SurfaceLostOrOutOfMemory,
    /// A failure the framework has no handling for.
    Unhandled,
}

/// What happens to the frame once the texture acquisition is known.
#[derive(Clone, Copy, Debug, PartialEq, Eq, Structural)]
pub enum FrameStep {
    /// Let the application draw into the texture, present it, then call the
    /// application's redraw-done hook.
    Draw,
    /// Drop this frame.
    Skip,
    /// Stop the program.
    Abort(AbortReason),
}

/// The control flow the event loop is switched to.
#[derive(Clone, Copy, Debug, PartialEq, Eq, Structural)]
pub enum ControlFlowRequest {
    Poll,
    Wait,
}

/// The answer to a suspend or a resume.
#[derive(Clone, Copy, Debug, PartialEq, Eq, Structural)]
pub struct LifecycleStep {
    pub control_flow: ControlFlowRequest,
    /// Ask the window for a redraw.
    pub request_redraw: bool,
    /// What to do to the surface (create it when the program resumes
    /// without one).
    pub surface_action: SurfaceAction,
}

/// The abstract state of the event handler.
pub struct HandlerModel {
    /// The program is suspended: nothing is drawn.
    pub suspended: bool,
    /// A presentation surface exists.
    pub has_surface: bool,
    pub info: StoredSurfaceInfo,
    /// The configuration last applied to the surface, if any.
    pub configured: Option<SurfaceConfig>,
    /// A texture acquisition was planned and its outcome is awaited.
    pub acquiring: bool,
}

/// The event handler's state.
pub struct HandlerState {
    suspended: bool,
    has_surface: bool,
    info: StoredSurfaceInfo,
    configured: Option<SurfaceConfig>,
    acquiring: bool,
}

impl View for HandlerState {
    type V = HandlerModel;

    closed spec fn view(&self) -> HandlerModel {
        HandlerModel {
            suspended: self.suspended,
            has_surface: self.has_surface,
            info: self.info,
            configured: self.configured,
            acquiring: self.acquiring,
        }
    }
}

/// The handler's invariant: whenever a surface exists and no reconfiguration
/// is pending, the surface is configured as the stored information says; and a
/// texture is only awaited from a configured surface of a running program.
pub open spec fn model_wf(m: HandlerModel) -> bool {
    &&& (m.has_surface && !m.info.requires_reconfigure) ==> m.configured == Some(config_of(m.info))
    &&& m.acquiring ==> (m.has_surface && !m.suspended && !m.info.requires_reconfigure)
}

/// The state right after start-up.  When the surface is deferred (it is only
/// created once the platform resumes the program) the program starts
/// suspended and without a surface; otherwise the surface exists and carries
/// its start-up configuration.
pub open spec fn initial_model(window_size: Extent, defer_surface: bool, settings: SurfaceSettings) -> HandlerModel {
    HandlerModel {
        suspended: defer_surface,
        has_surface: !defer_surface,
        info: StoredSurfaceInfo {
            size: window_size,
            sample_count: settings.sample_count,
            present_mode: settings.present_mode,
            requires_reconfigure: true,
        },
        configured: if defer_surface {
            None
        } else {
            Some(SurfaceConfig { size: window_size, present_mode: PresentMode::Fifo })
        },
        acquiring: false,
    }
}

/// The surface event a window event amounts to.
pub open spec fn surface_event_of(ev: WindowEventKind) -> SurfaceEvent {
    match ev {
        WindowEventKind::Resized { size, settings } => SurfaceEvent::Resized { size, settings },
        _ => SurfaceEvent::Other,
    }
}

/// The state after the surface part of a window event.  A window event
/// never changes the suspension: a suspended program stays suspended until
/// it is resumed, whatever the surface step answers.
pub open spec fn after_surface_part(m: HandlerModel, ev: WindowEventKind) -> HandlerModel {
    let sev = surface_event_of(ev);
    let resp = surface_response(sev, m.has_surface);
    HandlerModel {
        suspended: m.suspended,
        has_surface: has_surface_after(resp.action, m.has_surface),
        info: surface_info_after(sev, m.info),
        configured: m.configured,
        acquiring: m.acquiring,
    }
}

/// The aspect ratio a window event hands to the renderer.
pub open spec fn aspect_of(ev: WindowEventKind, has_surface: bool) -> Option<Extent> {
    match surface_response(surface_event_of(ev), has_surface).action {
        SurfaceAction::SetAspectRatio(e) => Some(e),
        _ => None,
    }
}

/// A window event: the new state and the plan.
///
/// A resize goes through the surface step first; the suspension is left
/// as it is.
/// A close request exits.  A redraw request does nothing while suspended or
/// without a surface; otherwise it configures the surface if a
/// reconfiguration is pending and then acquires a texture.  Every other
/// event is handed to the application.
pub open spec fn window_event_step(m: HandlerModel, ev: WindowEventKind) -> (HandlerModel, WindowPlan) {
    let m1 = after_surface_part(m, ev);
    let aspect_ratio = aspect_of(ev, m.has_surface);
    match ev {
        WindowEventKind::CloseRequested => (m1, WindowPlan { aspect_ratio, step: WindowStep::Exit }),
        WindowEventKind::RedrawRequested => if m1.suspended || !m1.has_surface {
            (m1, WindowPlan { aspect_ratio, step: WindowStep::Idle })
        } else if m1.info.requires_reconfigure {
            (
                HandlerModel {
                    info: StoredSurfaceInfo { requires_reconfigure: false, ..m1.info },
                    configured: Some(config_of(m1.info)),
                    acquiring: true,
                    ..m1
                },
                WindowPlan {
                    aspect_ratio,
                    step: WindowStep::Redraw { configure: Some(config_of(m1.info)) },
                },
            )
        } else {
            (
                HandlerModel { acquiring: true, ..m1 },
                WindowPlan { aspect_ratio, step: WindowStep::Redraw { configure: None } },
            )
        },
        _ => (m1, WindowPlan { aspect_ratio, step: WindowStep::PassThrough }),
    }
}

/// The outcome of a texture acquisition: an acquired texture is drawn; a
/// timeout drops the frame; an outdated surface drops the frame and asks
/// for a reconfiguration; a lost surface, exhausted memory or any other
/// failure stops the program.
pub open spec fn acquire_step(m: HandlerModel, outcome: AcquireOutcome) -> (HandlerModel, FrameStep) {
    let m0 = HandlerModel { acquiring: false, ..m };
    match outcome {
        AcquireOutcome::Acquired => (m0, FrameStep::Draw),
        AcquireOutcome::Timeout => (m0, FrameStep::Skip),
        AcquireOutcome::Outdated => (
            HandlerModel { info: StoredSurfaceInfo { requires_reconfigure: true, ..m.info }, ..m0 },
            FrameStep::Skip,
        ),
        AcquireOutcome::Lost => (m0, FrameStep::Abort(AbortReason::SurfaceLostOrOutOfMemory)),
        AcquireOutcome::OutOfMemory => (m0, FrameStep::Abort(AbortReason::SurfaceLostOrOutOfMemory)),
        AcquireOutcome::Other => (m0, FrameStep::Abort(AbortReason::Unhandled)),
    }
}

/// Suspending marks the program suspended and lets the event loop wait.
pub open spec fn suspend_step(m: HandlerModel) -> (HandlerModel, LifecycleStep) {
    (
        HandlerModel { suspended: true, ..m },
        LifecycleStep {
            control_flow: ControlFlowRequest::Wait,
            request_redraw: false,
            surface_action: SurfaceAction::Nothing,
        },
    )
}

/// Resuming clears the suspension, lets the event loop poll and asks for a
/// redraw.  It goes through the surface step: a program that has no surface
/// (it was deferred until now) gets one, which is new and so must be
/// configured before its first frame; a surface that exists is kept.
pub open spec fn resume_step(m: HandlerModel) -> (HandlerModel, LifecycleStep) {
    let resp = surface_response(SurfaceEvent::Resumed, m.has_surface);
    (
        HandlerModel {
            suspended: false,
            has_surface: has_surface_after(resp.action, m.has_surface),
            info: if m.has_surface {
                m.info
            } else {
                StoredSurfaceInfo { requires_reconfigure: true, ..m.info }
            },
            configured: if m.has_surface {
                m.configured
            } else {
                None
            },
            ..m
        },
        LifecycleStep {
            control_flow: ControlFlowRequest::Poll,
            request_redraw: true,
            surface_action: resp.action,
        },
    )
}

/// When the main events are cleared, the sample count the application
/// reports is compared with the stored one; if it changed, it is recorded
/// and the surface is remade before the next frame.  The result tells
/// whether it changed.
pub open spec fn main_events_cleared_step(m: HandlerModel, sample_count: SampleCount) -> (HandlerModel, bool) {
    if sample_count == m.info.sample_count {
        (m, false)
    } else {
        (
            HandlerModel {
                info: StoredSurfaceInfo { sample_count, requires_reconfigure: true, ..m.info },
                ..m
            },
            true,
        )
    }
}

pub proof fn lemma_window_event_step_wf(m: HandlerModel, ev: WindowEventKind)
    requires
        model_wf(m),
        !m.acquiring,
    ensures
        model_wf(window_event_step(m, ev).0),
        window_event_step(m, ev).0.acquiring <==> window_event_step(m, ev).1.step is Redraw,
{
}

pub proof fn lemma_acquire_step_wf(m: HandlerModel, outcome: AcquireOutcome)
    requires
        model_wf(m),
    ensures
        model_wf(acquire_step(m, outcome).0),
        !acquire_step(m, outcome).0.acquiring,
{
}

impl HandlerState {
    /// The handler's invariant holds.
    pub open spec fn wf(&self) -> bool {
        model_wf(self@)
    }

    /// The state at start-up, for a window of `window_size`; `defer_surface`
    /// tells whether the platform only provides a surface once it resumes the
    /// program, `settings` is what the application reports.
    pub fn new(window_size: Extent, defer_surface: bool, settings: SurfaceSettings) -> (res: Self)
        ensures
            res@ == initial_model(window_size, defer_surface, settings),
            res.wf(),
            res@.info == (StoredSurfaceInfo {
                size: window_size,
                sample_count: settings.sample_count,
                present_mode: settings.present_mode,
                requires_reconfigure: true,
            }),
            res@.suspended == defer_surface,
            res@.has_surface == !defer_surface,
    {
        let configured = if defer_surface {
            None
        } else {
            Some(initial_config(window_size))
        };
        HandlerState {
            suspended: defer_surface,
            has_surface: !defer_surface,
            info: StoredSurfaceInfo {
                size: window_size,
                sample_count: settings.sample_count,
                present_mode: settings.present_mode,
                requires_reconfigure: true,
            },
            configured,
            acquiring: false,
        }
    }

    pub fn is_suspended(&self) -> (res: bool)
        ensures
            res == self@.suspended,
    {
        self.suspended
    }

    pub fn has_surface(&self) -> (res: bool)
        ensures
            res == self@.has_surface,
    {
        self.has_surface
    }

    pub fn surface_info(&self) -> (res: StoredSurfaceInfo)
        ensures
            res == self@.info,
    {
        self.info
    }

    /// The current extent of the surface.
    pub fn resolution(&self) -> (res: Extent)
        ensures
            res == self@.info.size,
    {
        self.info.size
    }

    pub fn configured(&self) -> (res: Option<SurfaceConfig>)
        ensures
            res == self@.configured,
    {
        self.configured
    }

    pub fn is_acquiring(&self) -> (res: bool)
        ensures
            res == self@.acquiring,
    {
        self.acquiring
    }

    /// Handles a window event and returns the plan for the event loop.
    pub fn window_event(&mut self, ev: WindowEventKind) -> (plan: WindowPlan)
        requires
            old(self).wf(),
            !old(self)@.acquiring,
        ensures
            (final(self)@, plan) == window_event_step(old(self)@, ev),
            final(self).wf(),
            final(self)@.acquiring <==> plan.step is Redraw,
            final(self)@.suspended == old(self)@.suspended,
    {
        proof {
            lemma_window_event_step_wf(self@, ev);
        }
        let sev = match ev {
            WindowEventKind::Resized { size, settings } => SurfaceEvent::Resized { size, settings },
            _ => SurfaceEvent::Other,
        };
        let mut info = self.info;
        let resp = handle_surface(&sev, self.has_surface, &mut info);
        let has_surface = match resp.action {
            SurfaceAction::CreateSurface => true,
            SurfaceAction::DropSurface => false,
            _ => self.has_surface,
        };
        let aspect_ratio = match resp.action {
            SurfaceAction::SetAspectRatio(e) => Some(e),
            _ => None,
        };
        self.has_surface = has_surface;
        self.info = info;
        match ev {
            WindowEventKind::CloseRequested => WindowPlan { aspect_ratio, step: WindowStep::Exit },
            WindowEventKind::RedrawRequested => {
                if self.suspended || !self.has_surface {
                    return WindowPlan { aspect_ratio, step: WindowStep::Idle };
                }
                let configure = if self.info.requires_reconfigure {
                    let config = SurfaceConfig {
                        size: self.info.size,
                        present_mode: self.info.present_mode,
                    };
                    self.info.requires_reconfigure = false;
                    self.configured = Some(config);
                    Some(config)
                } else {
                    None
                };
                self.acquiring = true;
                WindowPlan { aspect_ratio, step: WindowStep::Redraw { configure } }
            },
            _ => WindowPlan { aspect_ratio, step: WindowStep::PassThrough },
        }
    }

    /// Takes the outcome of the texture acquisition a redraw plan asked for
    /// and decides what becomes of the frame.
    pub fn acquire_outcome(&mut self, outcome: AcquireOutcome) -> (step: FrameStep)
        requires
            old(self).wf(),
            old(self)@.acquiring,
        ensures
            (final(self)@, step) == acquire_step(old(self)@, outcome),
            final(self).wf(),
            !final(self)@.acquiring,
    {
        proof {
            lemma_acquire_step_wf(self@, outcome);
        }
        self.acquiring = false;
        match outcome {
            AcquireOutcome::Acquired => FrameStep::Draw,
            AcquireOutcome::Timeout => FrameStep::Skip,
            AcquireOutcome::Outdated => {
                self.info.requires_reconfigure = true;
                FrameStep::Skip
            },
            AcquireOutcome::Lost => FrameStep::Abort(AbortReason::SurfaceLostOrOutOfMemory),
            AcquireOutcome::OutOfMemory => FrameStep::Abort(AbortReason::SurfaceLostOrOutOfMemory),
            AcquireOutcome::Other => FrameStep::Abort(AbortReason::Unhandled),
        }
    }

    /// The main events were cleared; `sample_count` is what the application
    /// reports now.  Returns whether the sample count changed.
    pub fn main_events_cleared(&mut self, sample_count: SampleCount) -> (changed: bool)
        requires
            old(self).wf(),
            !old(self)@.acquiring,
        ensures
            (final(self)@, changed) == main_events_cleared_step(old(self)@, sample_count),
            final(self).wf(),
    {
        if sample_count == self.info.sample_count {
            false
        } else {
            self.info.sample_count = sample_count;
            self.info.requires_reconfigure = true;
            true
        }
    }

    /// The program is suspended.
    pub fn suspend(&mut self) -> (step: LifecycleStep)
        requires
            old(self).wf(),
            !old(self)@.acquiring,
        ensures
            (final(self)@, step) == suspend_step(old(self)@),
            final(self).wf(),
            final(self)@.suspended,
            step.control_flow == ControlFlowRequest::Wait,
            !step.request_redraw,
    {
        self.suspended = true;
        LifecycleStep {
            control_flow: ControlFlowRequest::Wait,
            request_redraw: false,
            surface_action: SurfaceAction::Nothing,
        }
    }

    /// The program is resumed.
    pub fn resume(&mut self) -> (step: LifecycleStep)
        requires
            old(self).wf(),
            !old(self)@.acquiring,
        ensures
            (final(self)@, step) == resume_step(old(self)@),
            final(self).wf(),
            !final(self)@.suspended,
            final(self)@.has_surface,
            step.control_flow == ControlFlowRequest::Poll,
            step.request_redraw,
    {
        let mut info = self.info;
        let resp = handle_surface(&SurfaceEvent::Resumed, self.has_surface, &mut info);
        if let SurfaceAction::CreateSurface = resp.action {
            info.requires_reconfigure = true;
            self.configured = None;
            self.has_surface = true;
        }
        self.info = info;
        self.suspended = false;
        LifecycleStep {
            control_flow: ControlFlowRequest::Poll,
            request_redraw: true,
            surface_action: resp.action,
        }
    }
}

} // verus!
