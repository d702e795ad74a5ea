use vstd::prelude::*;
use crate::surface::{
    Extent, PresentMode, SampleCount, StoredSurfaceInfo, SurfaceAction, SurfaceConfig,
    SurfaceEvent, SurfaceResponse, SurfaceSettings, has_surface_after, is_degenerate,
    surface_info_after, surface_response,
};
use crate::handler::{
    AbortReason, AcquireOutcome, ControlFlowRequest, FrameStep, HandlerModel, LifecycleStep,
    WindowEventKind, WindowPlan, WindowStep, acquire_step, initial_model,
    lemma_acquire_step_wf, lemma_window_event_step_wf, main_events_cleared_step, model_wf,
    resume_step, suspend_step, window_event_step,
};

verus! {

/// A frame is only ever drawn on a surface whose last configuration is the
/// one the stored surface information asks for: a redraw request whose
/// texture was acquired leads to drawing exactly when the surface is
/// configured with the current extent and present mode.
pub proof fn law_frames_drawn_on_current_configuration(
    m: HandlerModel,
    outcome: AcquireOutcome,
)
    requires
        model_wf(m),
        !m.acquiring,
    ensures
        ({
            let (m1, plan) = window_event_step(m, WindowEventKind::RedrawRequested);
            let (m2, frame) = acquire_step(m1, outcome);
            plan.step is Redraw && frame == FrameStep::Draw ==> m2.configured == Some(
                SurfaceConfig { size: m2.info.size, present_mode: m2.info.present_mode },
            )
        }),
{
    lemma_window_event_step_wf(m, WindowEventKind::RedrawRequested);
}

/// A reconfiguration is requested at most once: once a frame was drawn,
/// the next redraw request acquires a texture without configuring the
/// surface again.
pub proof fn law_configure_once(m: HandlerModel)
    requires
        model_wf(m),
        !m.acquiring,
    ensures
        ({
            let (m1, plan1) = window_event_step(m, WindowEventKind::RedrawRequested);
            let (m2, frame) = acquire_step(m1, AcquireOutcome::Acquired);
            let (m3, plan2) = window_event_step(m2, WindowEventKind::RedrawRequested);
            plan1.step is Redraw ==> (frame == FrameStep::Draw && plan2.step
                == WindowStep::Redraw { configure: None } && m3.info == (StoredSurfaceInfo { requires_reconfigure: false, ..m.info }))
        }),
{
}

/// A redraw request configures the surface exactly when a reconfiguration is
/// pending (and the program runs with a surface), and it configures it with
/// the stored extent and present mode.
pub proof fn law_redraw_configures_iff_pending(m: HandlerModel)
    requires
        model_wf(m),
        !m.acquiring,
        !m.suspended,
        m.has_surface,
    ensures
        window_event_step(m, WindowEventKind::RedrawRequested).1.step == (WindowStep::Redraw {
            configure: if m.info.requires_reconfigure {
                Some(SurfaceConfig { size: m.info.size, present_mode: m.info.present_mode })
            } else {
                None
            },
        }),
{
}

/// After a resize to an extent with area, the next redraw request configures
/// the surface with that extent and the present mode the application
/// reported with the resize.
pub proof fn law_resize_then_redraw_configures_new_extent(
    m: HandlerModel,
    size: Extent,
    settings: SurfaceSettings,
)
    requires
        model_wf(m),
        !m.acquiring,
        !m.suspended,
        m.has_surface,
        size.width != 0,
        size.height != 0,
    ensures
        ({
            let (m1, plan1) = window_event_step(
                m,
                WindowEventKind::Resized { size, settings },
            );
            let (m2, plan2) = window_event_step(m1, WindowEventKind::RedrawRequested);
            &&& plan1.aspect_ratio == Some(size)
            &&& plan1.step == WindowStep::PassThrough
            &&& plan2.step == (WindowStep::Redraw {
                configure: Some(SurfaceConfig { size, present_mode: settings.present_mode }),
            })
            &&& m2.info.size == size
            &&& m2.info.sample_count == settings.sample_count
        }),
{
    lemma_window_event_step_wf(m, WindowEventKind::Resized { size, settings });
}

/// A resize to an extent without area changes nothing, and the renderer is
/// not told any aspect ratio.
pub proof fn law_degenerate_resize_keeps_surface_info(
    m: HandlerModel,
    size: Extent,
    settings: SurfaceSettings,
)
    requires
        size.width == 0 || size.height == 0,
    ensures
        ({
            let (m1, plan) = window_event_step(m, WindowEventKind::Resized { size, settings });
            &&& m1 == m
            &&& plan.aspect_ratio is None
            &&& plan.step == WindowStep::PassThrough
        }),
{
}

/// An outdated surface is reconfigured, with the stored extent and present
/// mode, on the next redraw request.
pub proof fn law_outdated_surface_is_reconfigured(m: HandlerModel)
    requires
        model_wf(m),
        !m.acquiring,
    ensures
        ({
            let (m1, plan1) = window_event_step(m, WindowEventKind::RedrawRequested);
            let (m2, frame) = acquire_step(m1, AcquireOutcome::Outdated);
            let (m3, plan2) = window_event_step(m2, WindowEventKind::RedrawRequested);
            plan1.step is Redraw ==> (frame == FrameStep::Skip && plan2.step == (WindowStep::Redraw {
                configure: Some(SurfaceConfig { size: m.info.size, present_mode: m.info.present_mode }),
            }))
        }),
{
}

/// While the program is suspended, or has no surface, a redraw request does
/// nothing and changes nothing.
pub proof fn law_no_redraw_while_suspended(m: HandlerModel)
    requires
        m.suspended || !m.has_surface,
    ensures
        window_event_step(m, WindowEventKind::RedrawRequested).0 == m,
        window_event_step(m, WindowEventKind::RedrawRequested).1.step == WindowStep::Idle,
{
    assert(window_event_step(m, WindowEventKind::RedrawRequested).0 == m);
}

/// A close request always exits and leaves the state as it was; other
/// window events are handed to the application and leave the state as it
/// was.
pub proof fn law_close_exits_and_others_pass_through(m: HandlerModel)
    ensures
        window_event_step(m, WindowEventKind::CloseRequested).0 == m,
        window_event_step(m, WindowEventKind::CloseRequested).1.step == WindowStep::Exit,
        window_event_step(m, WindowEventKind::Other).0 == m,
        window_event_step(m, WindowEventKind::Other).1.step == WindowStep::PassThrough,
{
    assert(window_event_step(m, WindowEventKind::CloseRequested).0 == m);
    assert(window_event_step(m, WindowEventKind::Other).0 == m);
}

/// Suspending and then resuming a program that has a surface gives back the
/// state as it was, with the program running and the surface kept.
pub proof fn law_suspend_resume_roundtrip(m: HandlerModel)
    requires
        m.has_surface,
    ensures
        resume_step(suspend_step(m).0).0 == (HandlerModel { suspended: false, ..m }),
        !suspend_step(m).1.request_redraw,
        suspend_step(m).1.surface_action == SurfaceAction::Nothing,
        resume_step(suspend_step(m).0).1.request_redraw,
        resume_step(suspend_step(m).0).1.surface_action == SurfaceAction::Nothing,
{
}

/// A program whose surface was deferred gets one when it resumes, and the
/// next redraw request configures that new surface with the stored extent
/// and present mode before acquiring a texture.
pub proof fn law_resume_creates_deferred_surface(m: HandlerModel)
    requires
        model_wf(m),
        !m.acquiring,
        !m.has_surface,
    ensures
        ({
            let (m1, step) = resume_step(m);
            let (m2, plan) = window_event_step(m1, WindowEventKind::RedrawRequested);
            &&& step.surface_action == SurfaceAction::CreateSurface
            &&& m1.has_surface
            &&& !m1.suspended
            &&& model_wf(m1)
            &&& plan.step == (WindowStep::Redraw { configure: Some(SurfaceConfig { size: m.info.size, present_mode: m.info.present_mode }) })
        }),
{
}

/// Every step keeps the handler's invariant.
pub proof fn law_steps_keep_invariant(
    m: HandlerModel,
    ev: WindowEventKind,
    outcome: AcquireOutcome,
)
    requires
        model_wf(m),
    ensures
        !m.acquiring ==> model_wf(window_event_step(m, ev).0),
        model_wf(acquire_step(m, outcome).0),
        !m.acquiring ==> model_wf(suspend_step(m).0),
        model_wf(resume_step(m).0),
{
    if !m.acquiring {
        lemma_window_event_step_wf(m, ev);
    }
    lemma_acquire_step_wf(m, outcome);
}

/// A suspend drops the surface; the resume that follows creates one again,
/// and both settle the suspension.  Neither touches the stored surface
/// information.
pub proof fn law_surface_suspend_then_resume(has_surface: bool, info: StoredSurfaceInfo)
    ensures
        ({
            let r1 = surface_response(SurfaceEvent::Suspended, has_surface);
            let has1 = has_surface_after(r1.action, has_surface);
            let r2 = surface_response(SurfaceEvent::Resumed, has1);
            &&& r1.suspend == Some(true)
            &&& !has1
            &&& r2.suspend == Some(false)
            &&& r2.action == SurfaceAction::CreateSurface
            &&& has_surface_after(r2.action, has1)
            &&& surface_info_after(SurfaceEvent::Suspended, info) == info
            &&& surface_info_after(SurfaceEvent::Resumed, info) == info
        }),
{
}

/// A resume never creates a second surface.
pub proof fn law_resume_keeps_existing_surface()
    ensures
        surface_response(SurfaceEvent::Resumed, true).action == SurfaceAction::Nothing,
{
}

/// The state after a run of window events, each handled by the window step.
pub open spec fn after_window_events(m: HandlerModel, evs: Seq<WindowEventKind>) -> HandlerModel
    decreases evs.len(),
{
    if evs.len() == 0 {
        m
    } else {
        window_event_step(after_window_events(m, evs.drop_last()), evs.last()).0
    }
}

/// A suspended program does not draw: between a suspend and the next resume,
/// any run of window events (resizes of any extent included) keeps the
/// program suspended, and none of them plans a redraw.
pub proof fn law_suspended_program_never_redraws(m: HandlerModel, evs: Seq<WindowEventKind>)
    ensures
        after_window_events(suspend_step(m).0, evs).suspended,
        forall|i: int|
            0 <= i < evs.len() ==> !(#[trigger] window_event_step(
                after_window_events(suspend_step(m).0, evs.take(i)),
                evs[i],
            ).1.step is Redraw),
    decreases evs.len(),
{
    let s = suspend_step(m).0;
    if evs.len() > 0 {
        let prefix = evs.drop_last();
        law_suspended_program_never_redraws(m, prefix);
        assert forall|i: int| 0 <= i < evs.len() implies !(#[trigger] window_event_step(
            after_window_events(s, evs.take(i)),
            evs[i],
        ).1.step is Redraw) by {
            if i < evs.len() - 1 {
                assert(evs.take(i) =~= prefix.take(i));
                assert(evs[i] == prefix[i]);
            } else {
                assert(evs.take(i) =~= prefix);
            }
        }
    }
}

/// When the main events are cleared, a sample count that differs from the
/// stored one is recorded and makes the next redraw of a running program
/// with a surface configure the surface again; an unchanged one changes
/// nothing.
pub proof fn law_changed_sample_count_remakes_surface(m: HandlerModel, sample_count: SampleCount)
    requires
        model_wf(m),
        !m.acquiring,
    ensures
        ({
            let (m1, changed) = main_events_cleared_step(m, sample_count);
            &&& changed <==> sample_count != m.info.sample_count
            &&& !changed ==> m1 == m
            &&& changed ==> (m1.info.sample_count == sample_count && (!m.suspended && m.has_surface
                ==> window_event_step(m1, WindowEventKind::RedrawRequested).1.step == (WindowStep::Redraw {
                configure: Some(SurfaceConfig { size: m.info.size, present_mode: m.info.present_mode }),
            })))
        }),
{
}

/// An extent is ignored by a resize exactly when one of its sides is zero.
pub proof fn law_degenerate_means_a_zero_side(e: Extent)
    ensures
        is_degenerate(e) <==> (e.width == 0 || e.height == 0),
{
}

/// The surface step on a resize: with both sides nonzero the new extent and
/// the reported settings are recorded, a reconfiguration is asked for and
/// the renderer gets the new aspect ratio, whether a surface exists or not;
/// with a zero side nothing is recorded and nothing is done.  Either way the
/// answer is "running".
pub proof fn law_surface_step_on_resize(
    size: Extent,
    settings: SurfaceSettings,
    has_surface: bool,
    info: StoredSurfaceInfo,
)
    ensures
        ({
            let ev = SurfaceEvent::Resized { size, settings };
            if size.width != 0 && size.height != 0 {
                &&& surface_response(ev, has_surface) == (SurfaceResponse {
                    suspend: Some(false),
                    action: SurfaceAction::SetAspectRatio(size),
                })
                &&& surface_info_after(ev, info) == (StoredSurfaceInfo {
                    size,
                    sample_count: settings.sample_count,
                    present_mode: settings.present_mode,
                    requires_reconfigure: true,
                })
            } else {
                &&& surface_response(ev, has_surface) == (SurfaceResponse {
                    suspend: Some(false),
                    action: SurfaceAction::Nothing,
                })
                &&& surface_info_after(ev, info) == info
            }
        }),
{
}

/// The surface step on a resume, a suspend or any other event: a resume
/// answers "running" and creates a surface exactly when there is none; a
/// suspend answers "suspended" and drops the surface; any other event
/// decides nothing.  None of them touches the stored information.
pub proof fn law_surface_step_on_lifecycle(has_surface: bool, info: StoredSurfaceInfo)
    ensures
        surface_response(SurfaceEvent::Resumed, has_surface) == (SurfaceResponse {
            suspend: Some(false),
            action: if has_surface {
                SurfaceAction::Nothing
            } else {
                SurfaceAction::CreateSurface
            },
        }),
        surface_response(SurfaceEvent::Suspended, has_surface) == (SurfaceResponse {
            suspend: Some(true),
            action: SurfaceAction::DropSurface,
        }),
        surface_response(SurfaceEvent::Other, has_surface) == (SurfaceResponse {
            suspend: None,
            action: SurfaceAction::Nothing,
        }),
        surface_info_after(SurfaceEvent::Resumed, info) == info,
        surface_info_after(SurfaceEvent::Suspended, info) == info,
        surface_info_after(SurfaceEvent::Other, info) == info,
{
}

/// The start-up state records exactly the window's extent and the settings
/// the application reports, asks for a reconfiguration, and is suspended
/// and surfaceless exactly when the surface is deferred; a surface that
/// exists carries the window's extent presented first-in first-out.
pub proof fn law_start_up_state(window_size: Extent, defer_surface: bool, settings: SurfaceSettings)
    ensures
        ({
            let m = initial_model(window_size, defer_surface, settings);
            &&& m.info == (StoredSurfaceInfo {
                size: window_size,
                sample_count: settings.sample_count,
                present_mode: settings.present_mode,
                requires_reconfigure: true,
            })
            &&& m.suspended == defer_surface
            &&& m.has_surface == !defer_surface
            &&& m.configured == (if defer_surface {
                None
            } else {
                Some(SurfaceConfig { size: window_size, present_mode: PresentMode::Fifo })
            })
            &&& !m.acquiring
            &&& model_wf(m)
        }),
{
}

/// Every suspend, from any state, marks the program suspended, lets the
/// event loop wait, asks for no redraw and leaves the surface and all other
/// state as they were.
pub proof fn law_suspend_always_waits(m: HandlerModel)
    ensures
        suspend_step(m).1 == (LifecycleStep {
            control_flow: ControlFlowRequest::Wait,
            request_redraw: false,
            surface_action: SurfaceAction::Nothing,
        }),
        suspend_step(m).0 == (HandlerModel { suspended: true, ..m }),
{
}

/// Every resume, from any state (suspended or not), ends the suspension,
/// switches the event loop to polling and asks for a redraw.  A surface that
/// exists is kept with everything else as it was; when there is none, one is
/// created and must be configured before its first frame.
pub proof fn law_resume_always_polls_and_redraws(m: HandlerModel)
    ensures
        resume_step(m).1.request_redraw,
        resume_step(m).1.control_flow == ControlFlowRequest::Poll,
        !resume_step(m).0.suspended,
        resume_step(m).0.has_surface,
        resume_step(m).0.acquiring == m.acquiring,
        m.has_surface ==> resume_step(m).1.surface_action == SurfaceAction::Nothing,
        m.has_surface ==> resume_step(m).0 == (HandlerModel { suspended: false, ..m }),
        !m.has_surface ==> resume_step(m).1.surface_action == SurfaceAction::CreateSurface,
        !m.has_surface ==> resume_step(m).0.configured is None,
        !m.has_surface ==> resume_step(m).0.info == (StoredSurfaceInfo {
            requires_reconfigure: true,
            ..m.info
        }),
{
}

/// A window resize with both sides nonzero, suspended or not, records the
/// new extent and reported settings, asks for a reconfiguration, hands the
/// aspect ratio to the renderer and the event to the application, and
/// leaves the suspension, the surface and its last configuration alone.
pub proof fn law_window_resize_records_extent(
    m: HandlerModel,
    size: Extent,
    settings: SurfaceSettings,
)
    requires
        size.width != 0,
        size.height != 0,
    ensures
        ({
            let (m1, plan) = window_event_step(m, WindowEventKind::Resized { size, settings });
            &&& plan == (WindowPlan { aspect_ratio: Some(size), step: WindowStep::PassThrough })
            &&& m1.info == (StoredSurfaceInfo {
                size,
                sample_count: settings.sample_count,
                present_mode: settings.present_mode,
                requires_reconfigure: true,
            })
            &&& m1.suspended == m.suspended
            &&& m1.has_surface == m.has_surface
            &&& m1.configured == m.configured
            &&& m1.acquiring == m.acquiring
        }),
{
}

/// A resize received while suspended is not lost: once the program resumes,
/// the next redraw request configures the surface with the new extent and
/// the present mode reported with the resize.
pub proof fn law_resize_while_suspended_applies_after_resume(
    m: HandlerModel,
    size: Extent,
    settings: SurfaceSettings,
)
    requires
        model_wf(m),
        !m.acquiring,
        m.has_surface,
        size.width != 0,
        size.height != 0,
    ensures
        ({
            let (m1, _) = suspend_step(m);
            let (m2, _) = window_event_step(m1, WindowEventKind::Resized { size, settings });
            let (m3, _) = resume_step(m2);
            let (m4, plan) = window_event_step(m3, WindowEventKind::RedrawRequested);
            &&& plan.step == (WindowStep::Redraw {
                configure: Some(SurfaceConfig { size, present_mode: settings.present_mode }),
            })
            &&& m4.configured == Some(SurfaceConfig { size, present_mode: settings.present_mode })
            &&& !m4.info.requires_reconfigure
        }),
{
}

/// Window events other than a redraw request never change the surface's
/// last configuration, the surface's existence or the suspension.
pub proof fn law_non_redraw_events_keep_configuration(m: HandlerModel, ev: WindowEventKind)
    requires
        !(ev is RedrawRequested),
    ensures
        window_event_step(m, ev).0.configured == m.configured,
        window_event_step(m, ev).0.has_surface == m.has_surface,
        window_event_step(m, ev).0.suspended == m.suspended,
{
}

/// Each outcome of a texture acquisition: an acquired texture is drawn; a
/// timeout drops the frame and changes nothing else; an outdated surface
/// drops the frame and asks for a reconfiguration; a lost surface or
/// exhausted memory stops the program as such; any other failure stops it as
/// unhandled.  The acquisition is over in every case, and nothing but the
/// reconfiguration flag of an outdated surface changes.
pub proof fn law_acquire_outcomes(m: HandlerModel)
    ensures
        acquire_step(m, AcquireOutcome::Acquired) == (HandlerModel { acquiring: false, ..m }, FrameStep::Draw),
        acquire_step(m, AcquireOutcome::Timeout) == (HandlerModel { acquiring: false, ..m }, FrameStep::Skip),
        acquire_step(m, AcquireOutcome::Outdated) == (
            HandlerModel {
                acquiring: false,
                info: StoredSurfaceInfo { requires_reconfigure: true, ..m.info },
                ..m
            },
            FrameStep::Skip,
        ),
        acquire_step(m, AcquireOutcome::Lost) == (
            HandlerModel { acquiring: false, ..m },
            FrameStep::Abort(AbortReason::SurfaceLostOrOutOfMemory),
        ),
        acquire_step(m, AcquireOutcome::OutOfMemory) == (
            HandlerModel { acquiring: false, ..m },
            FrameStep::Abort(AbortReason::SurfaceLostOrOutOfMemory),
        ),
        acquire_step(m, AcquireOutcome::Other) == (
            HandlerModel { acquiring: false, ..m },
            FrameStep::Abort(AbortReason::Unhandled),
        ),
{
}

/// A redraw request of a running program with a surface plans a redraw,
/// configures with the stored extent and present mode exactly when a
/// reconfiguration is pending, afterwards has none pending, starts an
/// acquisition and hands no aspect ratio to the renderer.
pub proof fn law_redraw_request_plan(m: HandlerModel)
    requires
        !m.suspended,
        m.has_surface,
    ensures
        ({
            let (m1, plan) = window_event_step(m, WindowEventKind::RedrawRequested);
            let config = SurfaceConfig { size: m.info.size, present_mode: m.info.present_mode };
            &&& plan == (WindowPlan {
                aspect_ratio: None,
                step: WindowStep::Redraw {
                    configure: if m.info.requires_reconfigure { Some(config) } else { None },
                },
            })
            &&& m1.info == (StoredSurfaceInfo { requires_reconfigure: false, ..m.info })
            &&& m1.configured == (if m.info.requires_reconfigure { Some(config) } else { m.configured })
            &&& m1.acquiring
            &&& !m1.suspended
            &&& m1.has_surface
        }),
{
}

/// When the main events are cleared, a changed sample count is recorded and
/// asks for a reconfiguration, leaving everything else as it was; an
/// unchanged one changes nothing.
pub proof fn law_main_events_cleared(m: HandlerModel, sample_count: SampleCount)
    ensures
        sample_count == m.info.sample_count ==> main_events_cleared_step(m, sample_count) == (m, false),
        sample_count != m.info.sample_count ==> main_events_cleared_step(m, sample_count) == (
            HandlerModel {
                info: StoredSurfaceInfo { sample_count, requires_reconfigure: true, ..m.info },
                ..m
            },
            true,
        ),
{
}

} // verus!
