//! Error taxonomy of the overlay core.

use vstd::prelude::*;

verus! {

/// Every failure the core can report.
///
/// Construction-time failures (`DeviceCreation`, `SwapChain`, `Composition`)
/// abort the affected window's setup and propagate to the caller that
/// requested the window.  `RenderOperation` marks a single frame's draw calls
/// as failed: the frame is skipped and the next input-driven repaint retries.
/// `InvalidRole` reports a dispatch or attach against an unrecognized window
/// role, and `Lock` a failed mutual-exclusion acquisition.
#[derive(Clone, Copy, PartialEq, Eq, Structural, Debug)]
pub enum OverlayError {
    /// No compatible hardware GPU adapter is available.
    DeviceCreation,
    /// A composition-mode swap chain could not be created for the window.
    SwapChain,
    /// The compositor visual or target could not be bound to the window.
    Composition,
    /// A single frame's draw calls failed; the next repaint retries.
    RenderOperation,
    /// A command or attach named a window role that carries no registry slot.
    InvalidRole,
    /// A per-role mutual-exclusion lock could not be acquired.
    Lock,
}

impl OverlayError {
    /// True for the errors that end the affected window's setup for good,
    /// as opposed to a single skipped frame.
    pub open spec fn fatal_for_window(self) -> bool {
        self is DeviceCreation || self is SwapChain || self is Composition
    }
}

} // verus!
