use spotlight::controller::{Command, DispatchPlan, WindowController, WindowType};
use spotlight::drawing::Color;
use spotlight::errors::OverlayError;
use spotlight::renderer::FrameStep;
use spotlight::selection::SelectionRect;

#[test]
fn dispatch_on_an_unattached_role_is_a_successful_noop() {
    let c = WindowController::new();
    for role in [WindowType::Transparent, WindowType::Opaque, WindowType::Main] {
        let r = c.dispatch(role, Command::Show);
        assert!(matches!(r, Ok(None)));
        let r = c.dispatch(role, Command::DrawOverlay(None));
        assert!(matches!(r, Ok(None)));
        let r = c.dispatch(role, Command::FillBackground(Color::white()));
        assert!(matches!(r, Ok(None)));
    }
}

#[test]
fn dispatch_on_the_unassigned_placeholder_is_refused() {
    let c = WindowController::new();
    let r = c.dispatch(WindowType::Unassigned, Command::Show);
    assert!(matches!(r, Err(OverlayError::InvalidRole)));
}

#[test]
fn attach_on_the_unassigned_placeholder_is_refused() {
    let mut c = WindowController::new();
    let r = c.add_window(WindowType::Unassigned, 1, 800, 600, 96, 96);
    assert!(matches!(r, Err(OverlayError::InvalidRole)));
    assert!(!c.has_window(WindowType::Unassigned));
}

#[test]
fn show_routes_to_the_attached_window() {
    let mut c = WindowController::new();
    c.add_window(WindowType::Opaque, 7, 800, 600, 96, 96).unwrap();
    assert!(c.has_window(WindowType::Opaque));
    assert!(!c.has_window(WindowType::Transparent));
    match c.dispatch(WindowType::Opaque, Command::Show) {
        Ok(Some(DispatchPlan::ShowWindow { hwnd })) => assert_eq!(hwnd, 7),
        other => panic!("expected a show plan, got {:?}", other),
    }
}

#[test]
fn draw_overlay_command_renders_a_frame_on_the_overlay_window() {
    let mut c = WindowController::new();
    c.add_window(WindowType::Transparent, 11, 800, 600, 96, 96).unwrap();
    let sel = SelectionRect { left: 50, top: 50, right: 100, bottom: 100 };
    match c.dispatch(WindowType::Transparent, Command::DrawOverlay(Some(sel))) {
        Ok(Some(DispatchPlan::RenderFrame { hwnd, steps })) => {
            assert_eq!(hwnd, 11);
            // prologue, three masked-fill operations, end, present
            assert_eq!(steps.len(), 9);
            assert_eq!(steps[0], FrameStep::AcquireBackBuffer);
            assert_eq!(steps[3], FrameStep::ClearTransparent);
            assert!(matches!(steps[4], FrameStep::Draw(_)));
            assert_eq!(steps[8], FrameStep::Present { sync_interval: 1 });
        }
        other => panic!("expected a render plan, got {:?}", other),
    }
}

#[test]
fn draw_overlay_without_selection_plans_only_the_clear() {
    let mut c = WindowController::new();
    c.add_window(WindowType::Transparent, 11, 800, 600, 96, 96).unwrap();
    match c.dispatch(WindowType::Transparent, Command::DrawOverlay(None)) {
        Ok(Some(DispatchPlan::RenderFrame { hwnd: _, steps })) => {
            assert!(!steps.iter().any(|s| matches!(s, FrameStep::Draw(_))));
            assert!(steps.contains(&FrameStep::ClearTransparent));
        }
        other => panic!("expected a render plan, got {:?}", other),
    }
}

#[test]
fn fill_background_command_renders_a_solid_frame() {
    let mut c = WindowController::new();
    c.add_window(WindowType::Opaque, 5, 640, 480, 96, 96).unwrap();
    match c.dispatch(WindowType::Opaque, Command::FillBackground(Color::white())) {
        Ok(Some(DispatchPlan::RenderFrame { hwnd, steps })) => {
            assert_eq!(hwnd, 5);
            let draws: Vec<&FrameStep> =
                steps.iter().filter(|s| matches!(s, FrameStep::Draw(_))).collect();
            assert_eq!(draws.len(), 1);
        }
        other => panic!("expected a render plan, got {:?}", other),
    }
}

#[test]
fn replacing_an_entry_releases_the_prior_surface_exactly_once() {
    let mut c = WindowController::new();
    c.add_window(WindowType::Transparent, 1, 800, 600, 96, 96).unwrap();
    assert_eq!(c.released_ids().len(), 0);
    c.add_window(WindowType::Transparent, 2, 1024, 768, 96, 96).unwrap();
    assert_eq!(c.released_ids(), &vec![0u64]);
    c.add_window(WindowType::Transparent, 3, 1280, 720, 96, 96).unwrap();
    assert_eq!(c.released_ids(), &vec![0u64, 1u64]);
}

#[test]
fn attaching_distinct_roles_releases_nothing() {
    let mut c = WindowController::new();
    c.add_window(WindowType::Transparent, 1, 800, 600, 96, 96).unwrap();
    c.add_window(WindowType::Opaque, 2, 800, 600, 96, 96).unwrap();
    c.add_window(WindowType::Main, 3, 800, 600, 96, 96).unwrap();
    assert_eq!(c.released_ids().len(), 0);
}

#[test]
fn a_replaced_window_serves_later_commands() {
    let mut c = WindowController::new();
    c.add_window(WindowType::Main, 1, 800, 600, 96, 96).unwrap();
    c.add_window(WindowType::Main, 2, 800, 600, 96, 96).unwrap();
    match c.dispatch(WindowType::Main, Command::Show) {
        Ok(Some(DispatchPlan::ShowWindow { hwnd })) => assert_eq!(hwnd, 2),
        other => panic!("expected the replacement window, got {:?}", other),
    }
}
