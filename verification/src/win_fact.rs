//! Window-creation configuration, one tagged record per window role.
//!
//! Every role's window is created by one generic host routine from a
//! `WindowConfig` record: the style flags, class style, cursor, placement
//! and background of that role.  The overlay role must be layered and
//! composited so that the desktop shows through its transparent pixels, the
//! primary role must avoid the redirection bitmap so the compositor alone
//! carries its pixels, and the opaque role is a plain composited popup.

use vstd::prelude::*;

use crate::controller::WindowType;
use crate::errors::OverlayError;

verus! {

/// Popup window: no frame, no title bar.
pub const WS_POPUP: u32 = 0x8000_0000;

/// Double-buffered painting of the window and its descendants.
pub const WS_EX_COMPOSITED: u32 = 0x0200_0000;

/// Layered window: supports per-pixel transparency.
pub const WS_EX_LAYERED: u32 = 0x0008_0000;

/// The window gets no redirection bitmap: only the compositor carries its
/// pixels, as composition swap chains require.
pub const WS_EX_NOREDIRECTIONBITMAP: u32 = 0x0020_0000;

/// Redraw the whole window when its height changes.
pub const CS_VREDRAW: u32 = 0x0001;

/// Redraw the whole window when its width changes.
pub const CS_HREDRAW: u32 = 0x0002;

/// The window class gets its own device context.
pub const CS_OWNDC: u32 = 0x0020;

/// The cursor shown over a window.
#[derive(Clone, Copy, PartialEq, Eq, Structural, Debug)]
pub enum CursorShape {
    /// The ordinary arrow.
    Arrow,
    /// The crosshair, for aiming a selection.
    Cross,
}

/// Where the window is placed at creation.
#[derive(Clone, Copy, PartialEq, Eq, Structural, Debug)]
pub enum Placement {
    /// Spanning the whole virtual screen, across all monitors.
    VirtualScreen,
    /// A fixed position and size in pixels.
    Fixed { x: i32, y: i32, width: i32, height: i32 },
}

/// Everything the generic window-creation routine needs for one role.
#[derive(Clone, Copy, PartialEq, Eq, Structural, Debug)]
pub struct WindowConfig {
    pub ex_style: u32,
    pub style: u32,
    pub class_style: u32,
    pub cursor: CursorShape,
    pub placement: Placement,
    /// Register the class with a solid black background brush.
    pub black_background_brush: bool,
    /// Keep the window above every other window.
    pub topmost: bool,
}

/// The overlay window: a layered, composited popup without a redirection
/// bitmap — its composition swap chain alone carries its pixels — spanning
/// the virtual screen, kept topmost, aimed with the crosshair, on a black
/// class brush.
pub open spec fn spec_transparent_config() -> WindowConfig {
    WindowConfig {
        ex_style: WS_EX_NOREDIRECTIONBITMAP | WS_EX_COMPOSITED | WS_EX_LAYERED,
        style: WS_POPUP,
        class_style: CS_OWNDC | CS_HREDRAW | CS_VREDRAW,
        cursor: CursorShape::Cross,
        placement: Placement::VirtualScreen,
        black_background_brush: true,
        topmost: true,
    }
}

/// The opaque window: a composited popup spanning the virtual screen.
pub open spec fn spec_opaque_config() -> WindowConfig {
    WindowConfig {
        ex_style: WS_EX_COMPOSITED,
        style: WS_POPUP,
        class_style: CS_OWNDC | CS_HREDRAW | CS_VREDRAW,
        cursor: CursorShape::Arrow,
        placement: Placement::VirtualScreen,
        black_background_brush: false,
        topmost: false,
    }
}

/// The primary window: a popup without a redirection bitmap, so that its
/// composition swap chain alone feeds its pixels to the compositor.
pub open spec fn spec_main_config() -> WindowConfig {
    WindowConfig {
        ex_style: WS_EX_NOREDIRECTIONBITMAP,
        style: WS_POPUP,
        class_style: CS_OWNDC | CS_HREDRAW | CS_VREDRAW,
        cursor: CursorShape::Arrow,
        placement: Placement::Fixed { x: 100, y: 100, width: 800, height: 600 },
        black_background_brush: false,
        topmost: false,
    }
}

/// The configuration record of a window role; only the unassigned
/// placeholder has none.
pub fn window_config(window_type: WindowType) -> (r: Result<WindowConfig, OverlayError>)
    ensures
        window_type is Transparent ==> r == Ok::<WindowConfig, OverlayError>(
            spec_transparent_config(),
        ),
        window_type is Opaque ==> r == Ok::<WindowConfig, OverlayError>(spec_opaque_config()),
        window_type is Main ==> r == Ok::<WindowConfig, OverlayError>(spec_main_config()),
        window_type is Unassigned ==> r == Err::<WindowConfig, OverlayError>(
            OverlayError::InvalidRole,
        ),
{
    match window_type {
        WindowType::Transparent => Ok(
            WindowConfig {
                ex_style: WS_EX_NOREDIRECTIONBITMAP | WS_EX_COMPOSITED | WS_EX_LAYERED,
                style: WS_POPUP,
                class_style: CS_OWNDC | CS_HREDRAW | CS_VREDRAW,
                cursor: CursorShape::Cross,
                placement: Placement::VirtualScreen,
                black_background_brush: true,
                topmost: true,
            },
        ),
        WindowType::Opaque => Ok(
            WindowConfig {
                ex_style: WS_EX_COMPOSITED,
                style: WS_POPUP,
                class_style: CS_OWNDC | CS_HREDRAW | CS_VREDRAW,
                cursor: CursorShape::Arrow,
                placement: Placement::VirtualScreen,
                black_background_brush: false,
                topmost: false,
            },
        ),
        WindowType::Main => Ok(
            WindowConfig {
                ex_style: WS_EX_NOREDIRECTIONBITMAP,
                style: WS_POPUP,
                class_style: CS_OWNDC | CS_HREDRAW | CS_VREDRAW,
                cursor: CursorShape::Arrow,
                placement: Placement::Fixed { x: 100, y: 100, width: 800, height: 600 },
                black_background_brush: false,
                topmost: false,
            },
        ),
        WindowType::Unassigned => Err(OverlayError::InvalidRole),
    }
}

/// Names the overlay role's configuration.
pub struct TransparentWindowFactory;

impl TransparentWindowFactory {
    pub fn create_config(&self) -> (c: WindowConfig)
        ensures
            c == spec_transparent_config(),
    {
        window_config(WindowType::Transparent).unwrap()
    }
}

/// Names the opaque role's configuration.
pub struct OpaqueWindowFactory;

impl OpaqueWindowFactory {
    pub fn create_config(&self) -> (c: WindowConfig)
        ensures
            c == spec_opaque_config(),
    {
        window_config(WindowType::Opaque).unwrap()
    }
}

/// Names the primary role's configuration.
pub struct MainWindowFactory;

impl MainWindowFactory {
    pub fn create_config(&self) -> (c: WindowConfig)
        ensures
            c == spec_main_config(),
    {
        window_config(WindowType::Main).unwrap()
    }
}

} // verus!
