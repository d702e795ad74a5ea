use vstd::prelude::*;

verus! {

/// A two-dimensional size in physical pixels (width, height).
#[derive(Clone, Copy, Debug, PartialEq, Eq, Structural)]
pub struct Extent {
    pub width: u32,
    pub height: u32,
}

/// Multisampling used by the renderer.
#[derive(Clone, Copy, Debug, PartialEq, Eq, Structural)]
pub enum SampleCount {
    One,
    Four,
}

/// How frames are handed to the display.
#[derive(Clone, Copy, Debug, PartialEq, Eq, Structural)]
pub enum PresentMode {
    AutoVsync,
    AutoNoVsync,
    Fifo,
    FifoRelaxed,
    Immediate,
    Mailbox,
}

/// The rendering settings the application reports when the window changes.
#[derive(Clone, Copy, Debug, PartialEq, Eq, Structural)]
pub struct SurfaceSettings {
    pub sample_count: SampleCount,
    pub present_mode: PresentMode,
}

/// What the framework remembers about the surface between events.
#[derive(Clone, Copy, Debug, PartialEq, Eq, Structural)]
pub struct StoredSurfaceInfo {
    pub size: Extent,
    pub sample_count: SampleCount,
    pub present_mode: PresentMode,
    /// The surface must be configured again before the next frame.
    pub requires_reconfigure: bool,
}

/// A configuration applied to the presentation surface.
#[derive(Clone, Copy, Debug, PartialEq, Eq, Structural)]
pub struct SurfaceConfig {
    pub size: Extent,
    pub present_mode: PresentMode,
}

/// The events that concern the presentation surface.
#[derive(Clone, Copy, Debug, PartialEq, Eq, Structural)]
pub enum SurfaceEvent {
    /// The application was resumed.
    Resumed,
    /// The application was suspended.
    Suspended,
    /// The window was resized; `settings` is what the application reports now.
    Resized { size: Extent, settings: SurfaceSettings },
    /// Any other event.
    Other,
}

/// What the event loop must do to the surface or renderer after a surface event.
#[derive(Clone, Copy, Debug, PartialEq, Eq, Structural)]
pub enum SurfaceAction {
    Nothing,
    /// Create a surface for the window (there is none).
    CreateSurface,
    /// Drop the surface.
    DropSurface,
    /// Tell the renderer the aspect ratio `width / height` of this extent.
    SetAspectRatio(Extent),
}

/// The answer to a surface event: the new suspension state, if the event
/// decides one, and the action to perform.
#[derive(Clone, Copy, Debug, PartialEq, Eq, Structural)]
pub struct SurfaceResponse {
    pub suspend: Option<bool>,
    pub action: SurfaceAction,
}

/// An extent with no area: one of its sides is zero.
pub open spec fn is_degenerate(e: Extent) -> bool {
    e.width == 0 || e.height == 0
}

/// Whether an extent has no area; the framework ignores resizes to such
/// extents.
pub fn is_degenerate_extent(e: Extent) -> (res: bool)
    ensures
        res == is_degenerate(e),
        res == (e.width == 0 || e.height == 0),
{
    e.width == 0 || e.height == 0
}

/// The configuration that the stored information asks for.
pub open spec fn config_of(info: StoredSurfaceInfo) -> SurfaceConfig {
    SurfaceConfig { size: info.size, present_mode: info.present_mode }
}

/// The answer to a surface event, given whether a surface exists.
pub open spec fn surface_response(event: SurfaceEvent, has_surface: bool) -> SurfaceResponse {
    match event {
        SurfaceEvent::Resumed => SurfaceResponse {
            suspend: Some(false),
            action: if has_surface { SurfaceAction::Nothing } else { SurfaceAction::CreateSurface },
        },
        SurfaceEvent::Suspended => SurfaceResponse {
            suspend: Some(true),
            action: SurfaceAction::DropSurface,
        },
        SurfaceEvent::Resized { size, settings } => SurfaceResponse {
            suspend: Some(false),
            action: if is_degenerate(size) {
                SurfaceAction::Nothing
            } else {
                SurfaceAction::SetAspectRatio(size)
            },
        },
        SurfaceEvent::Other => SurfaceResponse { suspend: None, action: SurfaceAction::Nothing },
    }
}

/// The stored surface information after a surface event: a resize to an
/// extent with area records the new extent and settings and asks for a
/// reconfiguration; every other event leaves it as it was.
pub open spec fn surface_info_after(event: SurfaceEvent, info: StoredSurfaceInfo) -> StoredSurfaceInfo {
    match event {
        SurfaceEvent::Resized { size, settings } => if is_degenerate(size) {
            info
        } else {
            StoredSurfaceInfo {
                size,
                sample_count: settings.sample_count,
                present_mode: settings.present_mode,
                requires_reconfigure: true,
            }
        },
        _ => info,
    }
}

/// Whether a surface exists after the action was performed.
pub open spec fn has_surface_after(action: SurfaceAction, has_surface: bool) -> bool {
    match action {
        SurfaceAction::CreateSurface => true,
        SurfaceAction::DropSurface => false,
        _ => has_surface,
    }
}

/// The surface lifecycle step: decides what a resume, a suspend or a resize
/// does to the surface, and updates the stored surface information.
pub fn handle_surface(event: &SurfaceEvent, has_surface: bool, info: &mut StoredSurfaceInfo) -> (res:
    SurfaceResponse)
    ensures
        res == surface_response(*event, has_surface),
        *final(info) == surface_info_after(*event, *old(info)),
{
    match event {
        SurfaceEvent::Resumed => {
            let action = if has_surface {
                SurfaceAction::Nothing
            } else {
                SurfaceAction::CreateSurface
            };
            SurfaceResponse { suspend: Some(false), action }
        },
        SurfaceEvent::Suspended => SurfaceResponse {
            suspend: Some(true),
            action: SurfaceAction::DropSurface,
        },
        SurfaceEvent::Resized { size, settings } => {
            if is_degenerate_extent(*size) {
                return SurfaceResponse { suspend: Some(false), action: SurfaceAction::Nothing };
            }
            *info = StoredSurfaceInfo {
                size: *size,
                sample_count: settings.sample_count,
                present_mode: settings.present_mode,
                requires_reconfigure: true,
            };
            SurfaceResponse { suspend: Some(false), action: SurfaceAction::SetAspectRatio(*size) }
        },
        SurfaceEvent::Other => SurfaceResponse { suspend: None, action: SurfaceAction::Nothing },
    }
}

/// The format the surface is rendered in: the first (preferred) format the
/// surface supports when there is a surface, and `fallback` when there is none.
pub fn choose_surface_format<F: Copy>(supported: Option<&Vec<F>>, fallback: F) -> (res: F)
    requires
        supported matches Some(formats) ==> formats@.len() > 0,
    ensures
        res == (match supported {
            Some(formats) => formats@[0],
            None => fallback,
        }),
{
    match supported {
        Some(formats) => formats[0],
        None => fallback,
    }
}

/// The configuration a freshly created surface is given at start-up: the
/// window's extent, presented first-in first-out.
pub fn initial_config(window_size: Extent) -> (res: SurfaceConfig)
    ensures
        res == (SurfaceConfig { size: window_size, present_mode: PresentMode::Fifo }),
{
    SurfaceConfig { size: window_size, present_mode: PresentMode::Fifo }
}

} // verus!
