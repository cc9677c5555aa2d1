//! The render surface and the per-frame presentation bracket.
//!
//! A `RenderSurface` records the fixed configuration of one window's GPU
//! surface: the swap-chain descriptor and the DPI snapshot taken once at
//! creation.  `compose_frame` lays out the steps of one presented frame:
//! acquire the back buffer, bind it as the draw target at the cached DPI,
//! begin the pass, clear to fully transparent, issue the draw operations,
//! end the pass, and present vsync-gated.  The host executes the steps in
//! order against the platform compositor.

use vstd::prelude::*;

use crate::drawing::DrawOp;
use crate::errors::OverlayError;

verus! {

/// 32-bit BGRA, 8 bits per channel, unsigned normalized.
pub const FORMAT_B8G8R8A8_UNORM: u32 = 87;

/// Premultiplied alpha, required for composition surfaces.
pub const ALPHA_MODE_PREMULTIPLIED: u32 = 1;

/// Stretch scaling.
pub const SCALING_STRETCH: u32 = 0;

/// Flip-sequential presentation.
pub const SWAP_EFFECT_FLIP_SEQUENTIAL: u32 = 3;

/// The buffer may be bound as a render-target output.
pub const USAGE_RENDER_TARGET_OUTPUT: u32 = 32;

/// Double buffering: the swap chain always holds exactly two buffers.
pub const SWAP_CHAIN_BUFFER_COUNT: u32 = 2;

/// Presentation waits for one vertical sync.
pub const PRESENT_SYNC_INTERVAL: u32 = 1;

/// The swap-chain configuration handed to the platform when the surface is
/// created, field for field.
#[derive(Clone, Copy, PartialEq, Eq, Structural, Debug)]
pub struct SwapChainDesc {
    pub width: u32,
    pub height: u32,
    pub format: u32,
    pub stereo: bool,
    pub sample_count: u32,
    pub sample_quality: u32,
    pub buffer_usage: u32,
    pub buffer_count: u32,
    pub scaling: u32,
    pub swap_effect: u32,
    pub alpha_mode: u32,
    pub flags: u32,
}

impl SwapChainDesc {
    /// The fixed parts of every composition swap chain this library creates:
    /// two buffers, 32-bit BGRA, premultiplied alpha, flip-sequential
    /// presentation, no multisampling, and a width and height that fit the
    /// signed pixel coordinates the draw plans use.
    pub open spec fn well_formed(self) -> bool {
        &&& self.format == FORMAT_B8G8R8A8_UNORM
        &&& !self.stereo
        &&& self.sample_count == 1
        &&& self.sample_quality == 0
        &&& self.buffer_usage == USAGE_RENDER_TARGET_OUTPUT
        &&& self.buffer_count == SWAP_CHAIN_BUFFER_COUNT
        &&& self.scaling == SCALING_STRETCH
        &&& self.swap_effect == SWAP_EFFECT_FLIP_SEQUENTIAL
        &&& self.alpha_mode == ALPHA_MODE_PREMULTIPLIED
        &&& self.flags == 0
        &&& self.width <= 0x7fff_ffff
        &&& self.height <= 0x7fff_ffff
    }

    /// The composition swap-chain descriptor for a client area of the given
    /// size.
    pub open spec fn spec_for_composition(width: u32, height: u32) -> SwapChainDesc {
        SwapChainDesc {
            width,
            height,
            format: FORMAT_B8G8R8A8_UNORM,
            stereo: false,
            sample_count: 1,
            sample_quality: 0,
            buffer_usage: USAGE_RENDER_TARGET_OUTPUT,
            buffer_count: SWAP_CHAIN_BUFFER_COUNT,
            scaling: SCALING_STRETCH,
            swap_effect: SWAP_EFFECT_FLIP_SEQUENTIAL,
            alpha_mode: ALPHA_MODE_PREMULTIPLIED,
            flags: 0,
        }
    }

    /// Builds the composition swap-chain descriptor for a client area
    /// measured in pixels.
    pub fn for_composition(width: i32, height: i32) -> (d: SwapChainDesc)
        requires
            0 <= width,
            0 <= height,
        ensures
            d == Self::spec_for_composition(width as u32, height as u32),
            d.well_formed(),
    {
        SwapChainDesc {
            width: width as u32,
            height: height as u32,
            format: FORMAT_B8G8R8A8_UNORM,
            stereo: false,
            sample_count: 1,
            sample_quality: 0,
            buffer_usage: USAGE_RENDER_TARGET_OUTPUT,
            buffer_count: SWAP_CHAIN_BUFFER_COUNT,
            scaling: SCALING_STRETCH,
            swap_effect: SWAP_EFFECT_FLIP_SEQUENTIAL,
            alpha_mode: ALPHA_MODE_PREMULTIPLIED,
            flags: 0,
        }
    }
}

/// The size of a window's client area, from its client rectangle.
/// A client rectangle has its origin at zero and must not be inverted.
pub fn client_extent(left: i32, top: i32, right: i32, bottom: i32) -> (wh: (i32, i32))
    requires
        0 <= left <= right,
        0 <= top <= bottom,
    ensures
        wh.0 == right - left,
        wh.1 == bottom - top,
{
    (right - left, bottom - top)
}

/// One window's GPU surface: the swap-chain configuration it was created
/// with, the DPI snapshot captured once at creation, and an identity under
/// which its release is accounted for.
#[derive(Clone, Copy, PartialEq, Eq, Structural, Debug)]
pub struct RenderSurface {
    pub id: u64,
    pub desc: SwapChainDesc,
    pub dpi_x: u32,
    pub dpi_y: u32,
}

impl RenderSurface {
    pub open spec fn wf(self) -> bool {
        self.desc.well_formed()
    }

    pub open spec fn spec_new(id: u64, width: u32, height: u32, dpi_x: u32, dpi_y: u32) -> RenderSurface {
        RenderSurface {
            id,
            desc: SwapChainDesc::spec_for_composition(width, height),
            dpi_x,
            dpi_y,
        }
    }

    /// A surface for a client area of the given size, with its DPI snapshot.
    pub fn new(id: u64, width: i32, height: i32, dpi_x: u32, dpi_y: u32) -> (s: RenderSurface)
        requires
            0 <= width,
            0 <= height,
        ensures
            s == Self::spec_new(id, width as u32, height as u32, dpi_x, dpi_y),
            s.wf(),
    {
        RenderSurface {
            id,
            desc: SwapChainDesc::for_composition(width, height),
            dpi_x,
            dpi_y,
        }
    }

    /// The surface width in pixels.
    pub fn width(&self) -> (w: i32)
        requires
            self.wf(),
        ensures
            w == self.desc.width,
    {
        self.desc.width as i32
    }

    /// The surface height in pixels.
    pub fn height(&self) -> (h: i32)
        requires
            self.wf(),
        ensures
            h == self.desc.height,
    {
        self.desc.height as i32
    }
}

/// Which step of surface setup failed, as the host reports it.
#[derive(Clone, Copy, PartialEq, Eq, Structural, Debug)]
pub enum SurfaceSetupStep {
    /// Creating the hardware GPU device.  There is no software fallback:
    /// hardware is required for composition to work.
    CreateDevice,
    /// Creating the composition-mode swap chain for the window.
    CreateSwapChain,
    /// Binding the compositor target and visual to the window and committing
    /// the compositor transaction.
    BindComposition,
}

/// Maps a failed setup step to the error the caller that requested the
/// window receives.
pub fn setup_failure(step: SurfaceSetupStep) -> (e: OverlayError)
    ensures
        e == (match step {
            SurfaceSetupStep::CreateDevice => OverlayError::DeviceCreation,
            SurfaceSetupStep::CreateSwapChain => OverlayError::SwapChain,
            SurfaceSetupStep::BindComposition => OverlayError::Composition,
        }),
        e.fatal_for_window(),
{
    match step {
        SurfaceSetupStep::CreateDevice => OverlayError::DeviceCreation,
        SurfaceSetupStep::CreateSwapChain => OverlayError::SwapChain,
        SurfaceSetupStep::BindComposition => OverlayError::Composition,
    }
}

/// One step of a presented frame, executed in order by the host.
#[derive(Clone, Copy, PartialEq, Eq, Structural, Debug)]
pub enum FrameStep {
    /// Acquire the swap chain's current back buffer.
    AcquireBackBuffer,
    /// Create a target bitmap view over the back buffer at the cached DPI
    /// and bind it as the draw target.
    BindTargetBitmap { dpi_x: u32, dpi_y: u32 },
    /// Begin the draw pass.
    BeginDraw,
    /// Clear the whole target to fully transparent.
    ClearTransparent,
    /// Issue one draw operation of the frame's plan.
    Draw(DrawOp),
    /// End the draw pass.  This runs whether or not the draws succeeded.
    EndDraw,
    /// Present the frame, gated on the given number of vertical syncs.
    Present { sync_interval: u32 },
}

/// The steps that open a frame on the given surface: acquire, bind at the
/// cached DPI, begin, clear.
pub open spec fn spec_frame_prologue(s: RenderSurface) -> Seq<FrameStep> {
    seq![
        FrameStep::AcquireBackBuffer,
        FrameStep::BindTargetBitmap { dpi_x: s.dpi_x, dpi_y: s.dpi_y },
        FrameStep::BeginDraw,
        FrameStep::ClearTransparent,
    ]
}

/// The steps that close a frame.  The pass is always ended; the frame is
/// presented only when every draw succeeded, so a failed frame is skipped
/// rather than shown half-drawn, and the next input-driven repaint retries.
pub open spec fn spec_frame_epilogue(draws_succeeded: bool) -> Seq<FrameStep> {
    if draws_succeeded {
        seq![FrameStep::EndDraw, FrameStep::Present { sync_interval: PRESENT_SYNC_INTERVAL }]
    } else {
        seq![FrameStep::EndDraw]
    }
}

/// A whole frame around the given draw operations, assuming they succeed.
pub open spec fn spec_frame_steps(s: RenderSurface, ops: Seq<DrawOp>) -> Seq<FrameStep> {
    spec_frame_prologue(s) + ops.map_values(|op: DrawOp| FrameStep::Draw(op))
        + spec_frame_epilogue(true)
}

impl RenderSurface {
    /// Lays out one whole frame on this surface around the given draw
    /// operations: the opening bracket, each operation in order, then end
    /// and present.
    pub fn compose_frame(&self, draw_ops: &Vec<DrawOp>) -> (steps: Vec<FrameStep>)
        ensures
            steps@ == spec_frame_steps(*self, draw_ops@),
    {
        let mut steps: Vec<FrameStep> = Vec::new();
        steps.push(FrameStep::AcquireBackBuffer);
        steps.push(FrameStep::BindTargetBitmap { dpi_x: self.dpi_x, dpi_y: self.dpi_y });
        steps.push(FrameStep::BeginDraw);
        steps.push(FrameStep::ClearTransparent);
        let ghost prologue = spec_frame_prologue(*self);
        assert(steps@ =~= prologue);
        let mut i: usize = 0;
        while i < draw_ops.len()
            invariant
                0 <= i <= draw_ops.len(),
                steps@.len() == prologue.len() + i,
                steps@.subrange(0, prologue.len() as int) =~= prologue,
                forall|j: int|
                    0 <= j < i ==> steps@[prologue.len() + j] == FrameStep::Draw(draw_ops@[j]),
            decreases draw_ops.len() - i,
        {
            steps.push(FrameStep::Draw(draw_ops[i]));
            i = i + 1;
        }
        steps.push(FrameStep::EndDraw);
        steps.push(FrameStep::Present { sync_interval: PRESENT_SYNC_INTERVAL });
        assert(steps@ =~= spec_frame_steps(*self, draw_ops@));
        steps
    }
}

/// The closing steps of a frame whose draws already ran, successful or not.
/// The host calls this when a draw operation failed mid-frame: the pass is
/// still ended, and nothing is presented.
pub fn frame_epilogue(draws_succeeded: bool) -> (steps: Vec<FrameStep>)
    ensures
        steps@ == spec_frame_epilogue(draws_succeeded),
{
    let mut steps: Vec<FrameStep> = Vec::new();
    steps.push(FrameStep::EndDraw);
    if draws_succeeded {
        steps.push(FrameStep::Present { sync_interval: PRESENT_SYNC_INTERVAL });
    }
    assert(steps@ =~= spec_frame_epilogue(draws_succeeded));
    steps
}

} // verus!
