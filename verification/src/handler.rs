//! Window-procedure logic: decoding raw messages and deciding what each
//! window does with them.
//!
//! The host's window procedures stay thin: they decode the raw message
//! triple through `decode_message`, hand the result to the overlay or opaque
//! response function, and then perform the returned action — quit, request a
//! repaint, or dispatch a render command through the registry.

use vstd::prelude::*;

use crate::controller::{Command, WindowType};
use crate::drawing::Color;
use crate::selection::SelectionTracker;

verus! {

pub const WM_CREATE: u32 = 0x0001;

pub const WM_DESTROY: u32 = 0x0002;

pub const WM_PAINT: u32 = 0x000F;

pub const WM_ERASEBKGND: u32 = 0x0014;

pub const WM_KEYDOWN: u32 = 0x0100;

pub const WM_MOUSEMOVE: u32 = 0x0200;

pub const WM_LBUTTONDOWN: u32 = 0x0201;

pub const WM_LBUTTONUP: u32 = 0x0202;

/// The virtual-key code of the escape key.
pub const KEY_ESCAPE: u64 = 0x1B;

/// The button-state flag set while the primary mouse button is held.
pub const MOUSE_PRIMARY_BUTTON: u64 = 0x0001;

/// The result a window procedure reports after erasing its background
/// itself.
pub const RESULT_BACKGROUND_ERASED: i64 = 1;

/// The low 16 bits of a packed point, sign-extended: coordinates are signed,
/// since a window may sit left of or above the primary monitor.
pub open spec fn spec_sign_extend_16(low: u64) -> int
    recommends
        low < 0x10000,
{
    if low < 0x8000 {
        low as int
    } else {
        low as int - 0x10000
    }
}

/// The x coordinate packed into the low 16 bits of a pointer message's
/// parameter.
pub fn x_from_packed_point(lparam: u64) -> (x: i32)
    ensures
        x == spec_sign_extend_16(lparam & 0xffff),
{
    let low: u64 = lparam & 0xffff;
    proof {
        assert(lparam & 0xffff < 0x10000) by (bit_vector);
    }
    if low < 0x8000 {
        low as i32
    } else {
        (low as i32) - 0x10000
    }
}

/// The y coordinate packed into the high 16 bits of a pointer message's
/// parameter.
pub fn y_from_packed_point(lparam: u64) -> (y: i32)
    ensures
        y == spec_sign_extend_16((lparam >> 16) & 0xffff),
{
    let low: u64 = (lparam >> 16) & 0xffff;
    proof {
        assert((lparam >> 16) & 0xffff < 0x10000) by (bit_vector);
    }
    if low < 0x8000 {
        low as i32
    } else {
        (low as i32) - 0x10000
    }
}

/// One raw window message, decoded into the values the handlers read.
#[derive(Clone, Copy, PartialEq, Eq, Structural, Debug)]
pub enum WindowMessage {
    /// The window was just created.
    Created,
    /// A key went down, with its virtual-key code.
    KeyDown { key: u64 },
    /// The pointer moved; `primary_down` tells whether the primary button
    /// was held.
    MouseMove { x: i32, y: i32, primary_down: bool },
    /// The primary mouse button went down at the given pixel.
    PrimaryButtonDown { x: i32, y: i32 },
    /// The primary mouse button was let go at the given pixel.
    PrimaryButtonUp { x: i32, y: i32 },
    /// The window must repaint.
    Paint,
    /// The window is asked to erase its background.
    EraseBackground,
    /// The window is being destroyed.
    Destroyed,
    /// Any message the handlers leave to the default window procedure.
    Other,
}

/// What `decode_message` makes of a raw message triple.
pub open spec fn spec_decode_message(msg: u32, wparam: u64, lparam: u64) -> WindowMessage {
    let x = spec_sign_extend_16(lparam & 0xffff) as i32;
    let y = spec_sign_extend_16((lparam >> 16) & 0xffff) as i32;
    if msg == WM_CREATE {
        WindowMessage::Created
    } else if msg == WM_DESTROY {
        WindowMessage::Destroyed
    } else if msg == WM_PAINT {
        WindowMessage::Paint
    } else if msg == WM_ERASEBKGND {
        WindowMessage::EraseBackground
    } else if msg == WM_KEYDOWN {
        WindowMessage::KeyDown { key: wparam }
    } else if msg == WM_MOUSEMOVE {
        WindowMessage::MouseMove { x, y, primary_down: wparam & MOUSE_PRIMARY_BUTTON != 0 }
    } else if msg == WM_LBUTTONDOWN {
        WindowMessage::PrimaryButtonDown { x, y }
    } else if msg == WM_LBUTTONUP {
        WindowMessage::PrimaryButtonUp { x, y }
    } else {
        WindowMessage::Other
    }
}

/// Decodes a raw message triple: the message number, and the key, button
/// flags and signed pixel coordinates packed into its two parameters.
pub fn decode_message(msg: u32, wparam: u64, lparam: u64) -> (m: WindowMessage)
    ensures
        m == spec_decode_message(msg, wparam, lparam),
{
    if msg == WM_CREATE {
        WindowMessage::Created
    } else if msg == WM_DESTROY {
        WindowMessage::Destroyed
    } else if msg == WM_PAINT {
        WindowMessage::Paint
    } else if msg == WM_ERASEBKGND {
        WindowMessage::EraseBackground
    } else if msg == WM_KEYDOWN {
        WindowMessage::KeyDown { key: wparam }
    } else if msg == WM_MOUSEMOVE {
        WindowMessage::MouseMove {
            x: x_from_packed_point(lparam),
            y: y_from_packed_point(lparam),
            primary_down: wparam & MOUSE_PRIMARY_BUTTON != 0,
        }
    } else if msg == WM_LBUTTONDOWN {
        WindowMessage::PrimaryButtonDown {
            x: x_from_packed_point(lparam),
            y: y_from_packed_point(lparam),
        }
    } else if msg == WM_LBUTTONUP {
        WindowMessage::PrimaryButtonUp {
            x: x_from_packed_point(lparam),
            y: y_from_packed_point(lparam),
        }
    } else {
        WindowMessage::Other
    }
}

/// What the host must do after a handler ran.
#[derive(Clone, Copy, PartialEq, Eq, Structural, Debug)]
pub enum HandlerAction {
    /// Post the application's quit request.
    Quit,
    /// Ask the window to repaint; with `internal_only`, invalidate without a
    /// forced erase, to avoid flicker during a drag.
    RequestRepaint { internal_only: bool },
    /// Route a command to a window role through the registry.
    Dispatch { target: WindowType, command: Command },
}

/// A handler's verdict on one message: whether it was handled at all (an
/// unhandled message goes to the default window procedure), the result the
/// window procedure reports, and the action the host performs.
#[derive(Clone, Copy, Debug)]
pub struct HandlerResponse {
    pub handled: bool,
    pub result_code: i64,
    pub action: Option<HandlerAction>,
}

impl HandlerResponse {
    /// Handled with nothing further to do.
    pub open spec fn spec_done() -> HandlerResponse {
        HandlerResponse { handled: true, result_code: 0, action: None }
    }

    /// Handled, with an action for the host.
    pub open spec fn spec_act(action: HandlerAction) -> HandlerResponse {
        HandlerResponse { handled: true, result_code: 0, action: Some(action) }
    }

    /// Left to the default window procedure.
    pub open spec fn spec_unhandled() -> HandlerResponse {
        HandlerResponse { handled: false, result_code: 0, action: None }
    }
}

/// The overlay window's state after one message: a fresh window clears the
/// selection, pointer messages drive the selection state machine, and
/// everything else leaves it alone.
pub open spec fn spec_overlay_state(s: SelectionTracker, m: WindowMessage) -> SelectionTracker {
    match m {
        WindowMessage::Created => SelectionTracker::spec_new(),
        WindowMessage::PrimaryButtonDown { x, y } => s.spec_press(x, y),
        WindowMessage::MouseMove { x, y, primary_down } => s.spec_move(x, y, primary_down),
        WindowMessage::PrimaryButtonUp { .. } => s.spec_release(),
        _ => s,
    }
}

/// The overlay window's verdict on one message.
pub open spec fn spec_overlay_response(s: SelectionTracker, m: WindowMessage) -> HandlerResponse {
    match m {
        WindowMessage::Created => HandlerResponse::spec_done(),
        WindowMessage::KeyDown { key } => if key == KEY_ESCAPE {
            HandlerResponse::spec_act(HandlerAction::Quit)
        } else {
            HandlerResponse::spec_done()
        },
        WindowMessage::PrimaryButtonDown { .. } => HandlerResponse::spec_done(),
        WindowMessage::MouseMove { x, y, primary_down } => if s.phase is Dragging && primary_down
            && s.rect is Some {
            HandlerResponse::spec_act(HandlerAction::RequestRepaint { internal_only: true })
        } else {
            HandlerResponse::spec_done()
        },
        WindowMessage::PrimaryButtonUp { .. } => HandlerResponse::spec_done(),
        WindowMessage::Paint => HandlerResponse::spec_act(
            HandlerAction::Dispatch {
                target: WindowType::Transparent,
                command: Command::DrawOverlay(s.rect),
            },
        ),
        WindowMessage::Destroyed => HandlerResponse::spec_act(HandlerAction::Quit),
        WindowMessage::EraseBackground => HandlerResponse::spec_unhandled(),
        WindowMessage::Other => HandlerResponse::spec_unhandled(),
    }
}

/// The overlay window's handler: drives the selection state machine, asks
/// for a flicker-free repaint while the drag grows, paints the mask for the
/// current rectangle, and quits on escape or destruction.
pub fn overlay_response(tracker: &mut SelectionTracker, m: WindowMessage) -> (r: HandlerResponse)
    ensures
        *final(tracker) == spec_overlay_state(*old(tracker), m),
        r == spec_overlay_response(*old(tracker), m),
        old(tracker).wf() ==> final(tracker).wf(),
{
    match m {
        WindowMessage::Created => {
            tracker.reset();
            HandlerResponse { handled: true, result_code: 0, action: None }
        },
        WindowMessage::KeyDown { key } => {
            if key == KEY_ESCAPE {
                HandlerResponse { handled: true, result_code: 0, action: Some(HandlerAction::Quit) }
            } else {
                HandlerResponse { handled: true, result_code: 0, action: None }
            }
        },
        WindowMessage::PrimaryButtonDown { x, y } => {
            tracker.on_press(x, y);
            HandlerResponse { handled: true, result_code: 0, action: None }
        },
        WindowMessage::MouseMove { x, y, primary_down } => {
            let updated = tracker.on_move(x, y, primary_down);
            if updated {
                HandlerResponse {
                    handled: true,
                    result_code: 0,
                    action: Some(HandlerAction::RequestRepaint { internal_only: true }),
                }
            } else {
                HandlerResponse { handled: true, result_code: 0, action: None }
            }
        },
        WindowMessage::PrimaryButtonUp { .. } => {
            tracker.on_release();
            HandlerResponse { handled: true, result_code: 0, action: None }
        },
        WindowMessage::Paint => {
            let rect = tracker.current_rect();
            HandlerResponse {
                handled: true,
                result_code: 0,
                action: Some(
                    HandlerAction::Dispatch {
                        target: WindowType::Transparent,
                        command: Command::DrawOverlay(rect),
                    },
                ),
            }
        },
        WindowMessage::Destroyed => {
            HandlerResponse { handled: true, result_code: 0, action: Some(HandlerAction::Quit) }
        },
        WindowMessage::EraseBackground => {
            HandlerResponse { handled: false, result_code: 0, action: None }
        },
        WindowMessage::Other => {
            HandlerResponse { handled: false, result_code: 0, action: None }
        },
    }
}

/// The opaque window's verdict on one message.
pub open spec fn spec_opaque_response(m: WindowMessage) -> HandlerResponse {
    match m {
        WindowMessage::KeyDown { key } => if key == KEY_ESCAPE {
            HandlerResponse::spec_act(HandlerAction::Quit)
        } else {
            HandlerResponse::spec_done()
        },
        WindowMessage::Destroyed => HandlerResponse::spec_act(HandlerAction::Quit),
        WindowMessage::Paint => HandlerResponse::spec_act(
            HandlerAction::Dispatch {
                target: WindowType::Opaque,
                command: Command::FillBackground(Color::spec_white()),
            },
        ),
        WindowMessage::EraseBackground => HandlerResponse {
            handled: true,
            result_code: RESULT_BACKGROUND_ERASED,
            action: None,
        },
        _ => HandlerResponse::spec_unhandled(),
    }
}

/// The opaque window's handler: repaints its background white on demand,
/// reports its background as already erased, and quits on escape or
/// destruction.
pub fn opaque_response(m: WindowMessage) -> (r: HandlerResponse)
    ensures
        r == spec_opaque_response(m),
{
    match m {
        WindowMessage::KeyDown { key } => {
            if key == KEY_ESCAPE {
                HandlerResponse { handled: true, result_code: 0, action: Some(HandlerAction::Quit) }
            } else {
                HandlerResponse { handled: true, result_code: 0, action: None }
            }
        },
        WindowMessage::Destroyed => {
            HandlerResponse { handled: true, result_code: 0, action: Some(HandlerAction::Quit) }
        },
        WindowMessage::Paint => {
            HandlerResponse {
                handled: true,
                result_code: 0,
                action: Some(
                    HandlerAction::Dispatch {
                        target: WindowType::Opaque,
                        command: Command::FillBackground(Color::white()),
                    },
                ),
            }
        },
        WindowMessage::EraseBackground => {
            HandlerResponse { handled: true, result_code: RESULT_BACKGROUND_ERASED, action: None }
        },
        _ => HandlerResponse { handled: false, result_code: 0, action: None },
    }
}

} // verus!
