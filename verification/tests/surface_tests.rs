use rend3_framework::surface::{
    choose_surface_format, handle_surface, initial_config, is_degenerate_extent, Extent, PresentMode, SampleCount,
    StoredSurfaceInfo, SurfaceAction, SurfaceConfig, SurfaceEvent, SurfaceResponse,
    SurfaceSettings,
};

fn info() -> StoredSurfaceInfo {
    StoredSurfaceInfo {
        size: Extent { width: 800, height: 600 },
        sample_count: SampleCount::One,
        present_mode: PresentMode::Fifo,
        requires_reconfigure: false,
    }
}

fn settings() -> SurfaceSettings {
    SurfaceSettings { sample_count: SampleCount::Four, present_mode: PresentMode::Mailbox }
}

#[test]
fn resumed_without_surface_creates_one() {
    let mut i = info();
    let r = handle_surface(&SurfaceEvent::Resumed, false, &mut i);
    assert_eq!(r, SurfaceResponse { suspend: Some(false), action: SurfaceAction::CreateSurface });
    assert_eq!(i, info());
}

#[test]
fn resumed_with_surface_keeps_it() {
    let mut i = info();
    let r = handle_surface(&SurfaceEvent::Resumed, true, &mut i);
    assert_eq!(r, SurfaceResponse { suspend: Some(false), action: SurfaceAction::Nothing });
    assert_eq!(i, info());
}

#[test]
fn suspended_drops_surface() {
    let mut i = info();
    let r = handle_surface(&SurfaceEvent::Suspended, true, &mut i);
    assert_eq!(r, SurfaceResponse { suspend: Some(true), action: SurfaceAction::DropSurface });
    assert_eq!(i, info());
}

#[test]
fn resize_records_extent_and_settings() {
    let mut i = info();
    let size = Extent { width: 1024, height: 768 };
    let r = handle_surface(&SurfaceEvent::Resized { size, settings: settings() }, true, &mut i);
    assert_eq!(r, SurfaceResponse { suspend: Some(false), action: SurfaceAction::SetAspectRatio(size) });
    assert_eq!(
        i,
        StoredSurfaceInfo {
            size,
            sample_count: SampleCount::Four,
            present_mode: PresentMode::Mailbox,
            requires_reconfigure: true,
        }
    );
}

#[test]
fn resize_to_zero_width_is_ignored() {
    let mut i = info();
    let size = Extent { width: 0, height: 768 };
    let r = handle_surface(&SurfaceEvent::Resized { size, settings: settings() }, true, &mut i);
    assert_eq!(r, SurfaceResponse { suspend: Some(false), action: SurfaceAction::Nothing });
    assert_eq!(i, info());
}

#[test]
fn resize_to_zero_height_is_ignored() {
    let mut i = info();
    let size = Extent { width: 640, height: 0 };
    let r = handle_surface(&SurfaceEvent::Resized { size, settings: settings() }, false, &mut i);
    assert_eq!(r, SurfaceResponse { suspend: Some(false), action: SurfaceAction::Nothing });
    assert_eq!(i, info());
}

#[test]
fn other_event_decides_nothing() {
    let mut i = info();
    let r = handle_surface(&SurfaceEvent::Other, true, &mut i);
    assert_eq!(r, SurfaceResponse { suspend: None, action: SurfaceAction::Nothing });
    assert_eq!(i, info());
}

#[test]
fn preferred_format_is_the_first_supported() {
    let formats: Vec<u32> = vec![7, 3, 9];
    assert_eq!(choose_surface_format(Some(&formats), 42u32), 7);
}

#[test]
fn fallback_format_without_surface() {
    assert_eq!(choose_surface_format::<u32>(None, 42u32), 42);
}

#[test]
fn start_up_configuration_is_fifo() {
    let size = Extent { width: 320, height: 200 };
    assert_eq!(initial_config(size), SurfaceConfig { size, present_mode: PresentMode::Fifo });
}

#[test]
fn degenerate_extents_have_a_zero_side() {
    assert!(is_degenerate_extent(Extent { width: 0, height: 5 }));
    assert!(is_degenerate_extent(Extent { width: 5, height: 0 }));
    assert!(!is_degenerate_extent(Extent { width: 1, height: 1 }));
}
