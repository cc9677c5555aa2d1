use spotlight::controller::{Command, WindowType};
use spotlight::drawing::Color;
use spotlight::handler::{
    decode_message, opaque_response, overlay_response, x_from_packed_point, y_from_packed_point,
    HandlerAction, WindowMessage, KEY_ESCAPE, RESULT_BACKGROUND_ERASED, WM_CREATE, WM_DESTROY,
    WM_ERASEBKGND, WM_KEYDOWN, WM_LBUTTONDOWN, WM_LBUTTONUP, WM_MOUSEMOVE, WM_PAINT,
};
use spotlight::selection::{SelectionRect, SelectionTracker};

fn packed(x: i32, y: i32) -> u64 {
    let lx: u64 = (x as u16) as u64;
    let ly: u64 = (y as u16) as u64;
    (ly << 16) | lx
}

#[test]
fn packed_point_coordinates_are_sign_extended() {
    assert_eq!(x_from_packed_point(packed(10, 20)), 10);
    assert_eq!(y_from_packed_point(packed(10, 20)), 20);
    assert_eq!(x_from_packed_point(packed(-5, -7)), -5);
    assert_eq!(y_from_packed_point(packed(-5, -7)), -7);
    assert_eq!(x_from_packed_point(packed(-32768, 32767)), -32768);
    assert_eq!(y_from_packed_point(packed(-32768, 32767)), 32767);
}

#[test]
fn raw_messages_decode_to_their_model() {
    assert_eq!(decode_message(WM_CREATE, 0, 0), WindowMessage::Created);
    assert_eq!(decode_message(WM_DESTROY, 0, 0), WindowMessage::Destroyed);
    assert_eq!(decode_message(WM_PAINT, 0, 0), WindowMessage::Paint);
    assert_eq!(decode_message(WM_ERASEBKGND, 0, 0), WindowMessage::EraseBackground);
    assert_eq!(decode_message(WM_KEYDOWN, KEY_ESCAPE, 0), WindowMessage::KeyDown { key: 0x1B });
    assert_eq!(
        decode_message(WM_MOUSEMOVE, 1, packed(-5, 40)),
        WindowMessage::MouseMove { x: -5, y: 40, primary_down: true }
    );
    assert_eq!(
        decode_message(WM_MOUSEMOVE, 0, packed(3, 4)),
        WindowMessage::MouseMove { x: 3, y: 4, primary_down: false }
    );
    assert_eq!(
        decode_message(WM_LBUTTONDOWN, 1, packed(100, 100)),
        WindowMessage::PrimaryButtonDown { x: 100, y: 100 }
    );
    assert_eq!(
        decode_message(WM_LBUTTONUP, 0, packed(200, 200)),
        WindowMessage::PrimaryButtonUp { x: 200, y: 200 }
    );
    assert_eq!(decode_message(0x0400, 0, 0), WindowMessage::Other);
}

#[test]
fn overlay_quits_on_escape_at_any_state() {
    let mut t = SelectionTracker::new();
    let r = overlay_response(&mut t, WindowMessage::KeyDown { key: KEY_ESCAPE });
    assert!(r.handled);
    assert_eq!(r.action, Some(HandlerAction::Quit));
    t.on_press(1, 2);
    let r = overlay_response(&mut t, WindowMessage::KeyDown { key: KEY_ESCAPE });
    assert_eq!(r.action, Some(HandlerAction::Quit));
}

#[test]
fn overlay_ignores_other_keys() {
    let mut t = SelectionTracker::new();
    let r = overlay_response(&mut t, WindowMessage::KeyDown { key: 0x41 });
    assert!(r.handled);
    assert_eq!(r.action, None);
}

#[test]
fn overlay_drag_requests_flicker_free_repaints() {
    let mut t = SelectionTracker::new();
    let r = overlay_response(&mut t, WindowMessage::PrimaryButtonDown { x: 100, y: 100 });
    assert!(r.handled);
    assert_eq!(r.action, None);
    let r = overlay_response(&mut t, WindowMessage::MouseMove { x: 50, y: 50, primary_down: true });
    assert_eq!(r.action, Some(HandlerAction::RequestRepaint { internal_only: true }));
    assert_eq!(
        t.current_rect(),
        Some(SelectionRect { left: 50, top: 50, right: 100, bottom: 100 })
    );
}

#[test]
fn overlay_move_without_a_drag_requests_nothing() {
    let mut t = SelectionTracker::new();
    let r = overlay_response(&mut t, WindowMessage::MouseMove { x: 50, y: 50, primary_down: true });
    assert!(r.handled);
    assert_eq!(r.action, None);
}

#[test]
fn overlay_paint_dispatches_the_current_rect() {
    let mut t = SelectionTracker::new();
    t.on_press(10, 10);
    let _ = t.on_move(20, 30, true);
    let r = overlay_response(&mut t, WindowMessage::Paint);
    assert_eq!(
        r.action,
        Some(HandlerAction::Dispatch {
            target: WindowType::Transparent,
            command: Command::DrawOverlay(Some(SelectionRect {
                left: 10,
                top: 10,
                right: 20,
                bottom: 30,
            })),
        })
    );
}

#[test]
fn overlay_paint_without_selection_dispatches_the_clear() {
    let mut t = SelectionTracker::new();
    let r = overlay_response(&mut t, WindowMessage::Paint);
    assert_eq!(
        r.action,
        Some(HandlerAction::Dispatch {
            target: WindowType::Transparent,
            command: Command::DrawOverlay(None),
        })
    );
}

#[test]
fn overlay_created_clears_the_selection() {
    let mut t = SelectionTracker::new();
    t.on_press(5, 5);
    let r = overlay_response(&mut t, WindowMessage::Created);
    assert!(r.handled);
    assert_eq!(t.current_rect(), None);
}

#[test]
fn overlay_release_keeps_the_rect_for_later_paints() {
    let mut t = SelectionTracker::new();
    t.on_press(1, 1);
    let _ = t.on_move(4, 4, true);
    let r = overlay_response(&mut t, WindowMessage::PrimaryButtonUp { x: 4, y: 4 });
    assert!(r.handled);
    assert_eq!(t.current_rect(), Some(SelectionRect { left: 1, top: 1, right: 4, bottom: 4 }));
}

#[test]
fn overlay_leaves_background_erasure_to_the_default_procedure() {
    let mut t = SelectionTracker::new();
    let r = overlay_response(&mut t, WindowMessage::EraseBackground);
    assert!(!r.handled);
    let r = overlay_response(&mut t, WindowMessage::Other);
    assert!(!r.handled);
}

#[test]
fn overlay_destroyed_quits() {
    let mut t = SelectionTracker::new();
    let r = overlay_response(&mut t, WindowMessage::Destroyed);
    assert_eq!(r.action, Some(HandlerAction::Quit));
}

#[test]
fn opaque_paint_fills_the_background_white() {
    let r = opaque_response(WindowMessage::Paint);
    assert!(r.handled);
    assert_eq!(
        r.action,
        Some(HandlerAction::Dispatch {
            target: WindowType::Opaque,
            command: Command::FillBackground(Color::white()),
        })
    );
}

#[test]
fn opaque_reports_its_background_as_already_erased() {
    let r = opaque_response(WindowMessage::EraseBackground);
    assert!(r.handled);
    assert_eq!(r.result_code, RESULT_BACKGROUND_ERASED);
    assert_eq!(r.result_code, 1);
    assert_eq!(r.action, None);
}

#[test]
fn opaque_quits_on_escape_and_destruction() {
    let r = opaque_response(WindowMessage::KeyDown { key: KEY_ESCAPE });
    assert_eq!(r.action, Some(HandlerAction::Quit));
    let r = opaque_response(WindowMessage::Destroyed);
    assert_eq!(r.action, Some(HandlerAction::Quit));
    let r = opaque_response(WindowMessage::KeyDown { key: 0x41 });
    assert_eq!(r.action, None);
}

#[test]
fn opaque_leaves_pointer_messages_to_the_default_procedure() {
    let r = opaque_response(WindowMessage::MouseMove { x: 1, y: 2, primary_down: true });
    assert!(!r.handled);
    let r = opaque_response(WindowMessage::Created);
    assert!(!r.handled);
}
