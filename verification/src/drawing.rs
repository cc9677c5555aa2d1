//! The mask compositor: draw plans and their per-pixel meaning.
//!
//! A `Drawing` plans the draw operations of one frame as plain data.  The
//! overlay plan punches a hole in a full-surface darkening layer: it pushes a
//! clipped layer whose geometric mask is the full surface minus the selection
//! rectangle, fills the full surface through it, and pops the layer.  The
//! background plan fills the surface with one solid color.  A small
//! evaluator gives every plan an exact per-pixel meaning, over which the
//! plans' contracts are stated.

use vstd::prelude::*;

use crate::errors::OverlayError;
use crate::renderer::RenderSurface;
use crate::selection::SelectionRect;

verus! {

/// A color with 8-bit channels; 255 stands for a fully saturated channel.
#[derive(Clone, Copy, PartialEq, Eq, Structural, Debug)]
pub struct Color {
    pub r: u8,
    pub g: u8,
    pub b: u8,
    pub a: u8,
}

impl Color {
    /// Opaque black, the overlay's opacity brush.
    pub open spec fn spec_black() -> Color {
        Color { r: 0, g: 0, b: 0, a: 255 }
    }

    pub fn black() -> (c: Color)
        ensures
            c == Self::spec_black(),
    {
        Color { r: 0, g: 0, b: 0, a: 255 }
    }

    /// Opaque white, the opaque window's background.
    pub open spec fn spec_white() -> Color {
        Color { r: 255, g: 255, b: 255, a: 255 }
    }

    pub fn white() -> (c: Color)
        ensures
            c == Self::spec_white(),
    {
        Color { r: 255, g: 255, b: 255, a: 255 }
    }
}

/// The layer opacity of the overlay mask: everything outside the selection
/// is darkened to this percentage.
pub const OVERLAY_OPACITY_PERCENT: u8 = 60;

/// The flattening tolerance used when the two rectangle geometries are
/// combined, in thousandths of a device unit.
pub const GEOMETRY_TOLERANCE_THOUSANDTHS: u32 = 1;

/// The geometric mask of a clipped layer: the region of `bounds` not covered
/// by `hole` (a boolean exclude with winding fill), with the layer's opacity
/// and its opacity brush.
#[derive(Clone, Copy, PartialEq, Eq, Structural, Debug)]
pub struct ExcludeMask {
    pub bounds: SelectionRect,
    pub hole: SelectionRect,
    pub opacity_percent: u8,
    pub brush: Color,
}

impl ExcludeMask {
    /// The mask admits the pixel cell at `(x, y)`: inside the bounds and
    /// outside the hole.
    pub open spec fn admits(self, x: int, y: int) -> bool {
        self.bounds.covers(x, y) && !self.hole.covers(x, y)
    }
}

/// One draw operation of a frame plan, issued inside an open draw pass.
#[derive(Clone, Copy, PartialEq, Eq, Structural, Debug)]
pub enum DrawOp {
    /// Push a clipped layer: later fills reach only the pixels the mask
    /// admits, at the mask's opacity.
    PushExcludeLayer(ExcludeMask),
    /// Fill a rectangle with a solid color brush.
    FillRect { rect: SelectionRect, brush: Color },
    /// Pop the innermost layer, restoring unclipped drawing.
    PopLayer,
}

/// What one frame leaves at one pixel cell.
#[derive(Clone, Copy, PartialEq, Eq, Structural, Debug)]
pub enum PixelShade {
    /// Untouched since the clear: fully transparent, the desktop shows
    /// through.
    Transparent,
    /// Filled with a solid color, no layer in between.
    Solid(Color),
    /// Filled through a layer: the brush applied at the layer's opacity.
    Dimmed { brush: Color, opacity_percent: u8 },
}

/// The evaluator's state at one pixel cell: the shade so far and the stack
/// of layers currently pushed.
pub struct RasterState {
    pub shade: PixelShade,
    pub masks: Seq<ExcludeMask>,
}

/// Every pushed layer admits the pixel cell.
pub open spec fn masks_admit(masks: Seq<ExcludeMask>, x: int, y: int) -> bool {
    forall|i: int| 0 <= i < masks.len() ==> masks[i].admits(x, y)
}

/// The effect of one draw operation at one pixel cell.
pub open spec fn apply_op(st: RasterState, op: DrawOp, x: int, y: int) -> RasterState {
    match op {
        DrawOp::PushExcludeLayer(m) => RasterState { shade: st.shade, masks: st.masks.push(m) },
        DrawOp::PopLayer => RasterState {
            shade: st.shade,
            masks: if st.masks.len() > 0 {
                st.masks.drop_last()
            } else {
                st.masks
            },
        },
        DrawOp::FillRect { rect, brush } => {
            if rect.covers(x, y) && masks_admit(st.masks, x, y) {
                if st.masks.len() == 0 {
                    RasterState { shade: PixelShade::Solid(brush), masks: st.masks }
                } else {
                    RasterState {
                        shade: PixelShade::Dimmed {
                            brush,
                            opacity_percent: st.masks.last().opacity_percent,
                        },
                        masks: st.masks,
                    }
                }
            } else {
                st
            }
        },
    }
}

/// The evaluator's state after the first `n` operations, starting from the
/// cleared, fully transparent target.
pub open spec fn raster_after(ops: Seq<DrawOp>, n: int, x: int, y: int) -> RasterState
    decreases n,
{
    if n <= 0 {
        RasterState { shade: PixelShade::Transparent, masks: Seq::empty() }
    } else {
        apply_op(raster_after(ops, n - 1, x, y), ops[n - 1], x, y)
    }
}

/// What the whole plan leaves at the pixel cell `(x, y)`.
pub open spec fn shade_after(ops: Seq<DrawOp>, x: int, y: int) -> PixelShade {
    raster_after(ops, ops.len() as int, x, y).shade
}

/// The plan leaves no layer pushed: every pushed layer was popped.
pub open spec fn layers_balanced(ops: Seq<DrawOp>, x: int, y: int) -> bool {
    raster_after(ops, ops.len() as int, x, y).masks.len() == 0
}

/// The mask compositor of one window's surface.
#[derive(Clone, Copy, PartialEq, Eq, Structural, Debug)]
pub struct Drawing {
    pub surface: RenderSurface,
}

impl Drawing {
    pub open spec fn wf(self) -> bool {
        self.surface.wf()
    }

    pub fn new(surface: RenderSurface) -> (d: Drawing)
        ensures
            d.surface == surface,
    {
        Drawing { surface }
    }

    /// The rectangle spanning the whole surface.
    pub open spec fn spec_full_rect(self) -> SelectionRect {
        SelectionRect {
            left: 0,
            top: 0,
            right: self.surface.desc.width as i32,
            bottom: self.surface.desc.height as i32,
        }
    }

    pub fn full_rect(&self) -> (r: SelectionRect)
        requires
            self.wf(),
        ensures
            r == self.spec_full_rect(),
    {
        SelectionRect {
            left: 0,
            top: 0,
            right: self.surface.desc.width as i32,
            bottom: self.surface.desc.height as i32,
        }
    }

    /// The overlay plan: nothing at all without a selection (the frame's
    /// clear already erased any prior mask); with one, a single darkening
    /// fill through the excluding layer.
    pub open spec fn spec_overlay_ops(self, sel: Option<SelectionRect>) -> Seq<DrawOp> {
        match sel {
            Option::None => Seq::empty(),
            Option::Some(r) => seq![
                DrawOp::PushExcludeLayer(
                    ExcludeMask {
                        bounds: self.spec_full_rect(),
                        hole: r,
                        opacity_percent: OVERLAY_OPACITY_PERCENT,
                        brush: Color::spec_black(),
                    },
                ),
                DrawOp::FillRect { rect: self.spec_full_rect(), brush: Color::spec_black() },
                DrawOp::PopLayer,
            ],
        }
    }

    /// What the overlay frame must leave at each pixel cell: outside the
    /// selection the surface is darkened at the overlay opacity, inside it
    /// (and off the surface) it stays fully transparent.
    pub open spec fn spec_overlay_shade(
        self,
        sel: Option<SelectionRect>,
        x: int,
        y: int,
    ) -> PixelShade {
        if sel matches Some(r) && self.spec_full_rect().covers(x, y) && !r.covers(x, y) {
            PixelShade::Dimmed {
                brush: Color::spec_black(),
                opacity_percent: OVERLAY_OPACITY_PERCENT,
            }
        } else {
            PixelShade::Transparent
        }
    }

    /// Plans the overlay frame for the given selection.  Without a selection
    /// the plan is empty, so the frame performs only its clear.  The plan
    /// pops every layer it pushes.
    pub fn draw_overlay(&self, sel: Option<SelectionRect>) -> (ops: Vec<DrawOp>)
        requires
            self.wf(),
        ensures
            ops@ == self.spec_overlay_ops(sel),
            sel is None ==> ops@.len() == 0,
            forall|x: int, y: int| shade_after(ops@, x, y) == self.spec_overlay_shade(sel, x, y),
            forall|x: int, y: int| layers_balanced(ops@, x, y),
    {
        let mut ops: Vec<DrawOp> = Vec::new();
        match sel {
            Option::None => {},
            Option::Some(r) => {
                let full = self.full_rect();
                ops.push(
                    DrawOp::PushExcludeLayer(
                        ExcludeMask {
                            bounds: full,
                            hole: r,
                            opacity_percent: OVERLAY_OPACITY_PERCENT,
                            brush: Color::black(),
                        },
                    ),
                );
                ops.push(DrawOp::FillRect { rect: full, brush: Color::black() });
                ops.push(DrawOp::PopLayer);
            },
        }
        assert(ops@ =~= self.spec_overlay_ops(sel));
        proof {
            lemma_overlay_plan_shades(*self, sel);
        }
        ops
    }

    /// The background plan: one full-surface fill with a solid color brush,
    /// no masking.
    pub open spec fn spec_background_ops(self, color: Color) -> Seq<DrawOp> {
        seq![DrawOp::FillRect { rect: self.spec_full_rect(), brush: color }]
    }

    /// Plans a frame that fills the whole surface with the given color.
    pub fn fill_background(&self, color: Color) -> (ops: Vec<DrawOp>)
        requires
            self.wf(),
        ensures
            ops@ == self.spec_background_ops(color),
            forall|x: int, y: int|
                shade_after(ops@, x, y) == (if self.spec_full_rect().covers(x, y) {
                    PixelShade::Solid(color)
                } else {
                    PixelShade::Transparent
                }),
            forall|x: int, y: int| layers_balanced(ops@, x, y),
    {
        let mut ops: Vec<DrawOp> = Vec::new();
        ops.push(DrawOp::FillRect { rect: self.full_rect(), brush: color });
        assert(ops@ =~= self.spec_background_ops(color));
        proof {
            lemma_background_shades_all(*self, color);
        }
        ops
    }
}

/// Law: the overlay plan leaves a pixel darkened at the overlay opacity
/// exactly when it lies on the surface and outside the selection rectangle;
/// with no selection, or inside it, the pixel stays fully transparent.  The
/// plan leaves no layer pushed.
pub proof fn lemma_overlay_shades(d: Drawing, sel: Option<SelectionRect>, x: int, y: int)
    ensures
        shade_after(d.spec_overlay_ops(sel), x, y) == d.spec_overlay_shade(sel, x, y),
        layers_balanced(d.spec_overlay_ops(sel), x, y),
{
    lemma_overlay_plan_shades(d, sel);
}

/// Law: the background plan paints every pixel of the surface solid with the
/// given color, unmasked, and touches nothing off the surface.
pub proof fn lemma_background_shades(d: Drawing, color: Color, x: int, y: int)
    ensures
        shade_after(d.spec_background_ops(color), x, y) == (if d.spec_full_rect().covers(x, y) {
            PixelShade::Solid(color)
        } else {
            PixelShade::Transparent
        }),
        layers_balanced(d.spec_background_ops(color), x, y),
{
    lemma_background_shades_all(d, color);
}

/// The background plan's per-pixel meaning, proved once for all pixels.
proof fn lemma_background_shades_all(d: Drawing, color: Color)
    ensures
        forall|x: int, y: int|
            shade_after(d.spec_background_ops(color), x, y) == (if d.spec_full_rect().covers(
                x,
                y,
            ) {
                PixelShade::Solid(color)
            } else {
                PixelShade::Transparent
            }),
        forall|x: int, y: int| layers_balanced(d.spec_background_ops(color), x, y),
{
    let ops = d.spec_background_ops(color);
    assert forall|x: int, y: int|
        shade_after(ops, x, y) == (if d.spec_full_rect().covers(x, y) {
            PixelShade::Solid(color)
        } else {
            PixelShade::Transparent
        }) && layers_balanced(ops, x, y) by {
        reveal_with_fuel(raster_after, 3);
    }
}

/// The overlay plan's per-pixel meaning, proved once for every selection.
proof fn lemma_overlay_plan_shades(d: Drawing, sel: Option<SelectionRect>)
    ensures
        forall|x: int, y: int|
            shade_after(d.spec_overlay_ops(sel), x, y) == d.spec_overlay_shade(sel, x, y),
        forall|x: int, y: int| layers_balanced(d.spec_overlay_ops(sel), x, y),
{
    let ops = d.spec_overlay_ops(sel);
    assert forall|x: int, y: int|
        shade_after(ops, x, y) == d.spec_overlay_shade(sel, x, y) && layers_balanced(
            ops,
            x,
            y,
        ) by {
        reveal_with_fuel(raster_after, 5);
        match sel {
            Option::None => {},
            Option::Some(r) => {
                let mask = ExcludeMask {
                    bounds: d.spec_full_rect(),
                    hole: r,
                    opacity_percent: OVERLAY_OPACITY_PERCENT,
                    brush: Color::spec_black(),
                };
                let st1 = raster_after(ops, 1, x, y);
                assert(st1.masks =~= Seq::empty().push(mask));
                assert(st1.masks.len() == 1);
                assert(st1.masks[0] == mask);
                assert(st1.masks.last() == mask);
                if d.spec_full_rect().covers(x, y) && !r.covers(x, y) {
                    assert(masks_admit(st1.masks, x, y));
                } else {
                    assert(!(d.spec_full_rect().covers(x, y) && mask.admits(x, y)));
                }
            },
        }
    }
}

/// Law: a degenerate (zero-area) selection excludes nothing, so the overlay
/// darkens every pixel of the surface — a full-darken frame, not an error.
pub proof fn lemma_degenerate_selection_darkens_everything(
    d: Drawing,
    r: SelectionRect,
    x: int,
    y: int,
)
    requires
        r.degenerate(),
        d.spec_full_rect().covers(x, y),
    ensures
        d.spec_overlay_shade(Some(r), x, y) == (PixelShade::Dimmed {
            brush: Color::spec_black(),
            opacity_percent: OVERLAY_OPACITY_PERCENT,
        }),
{
}

/// Law: without a selection the plan is empty — the frame performs only its
/// clear, and every pixel of the surface is left fully transparent.
pub proof fn lemma_no_selection_leaves_surface_untouched(d: Drawing, x: int, y: int)
    ensures
        d.spec_overlay_ops(None) == Seq::<DrawOp>::empty(),
        d.spec_overlay_shade(None, x, y) == PixelShade::Transparent,
{
}

/// Maps a failed brush or geometry creation inside one frame's draw calls to
/// the error surfaced to the caller: fatal for that frame only.
pub fn draw_failure() -> (e: OverlayError)
    ensures
        e == OverlayError::RenderOperation,
        !e.fatal_for_window(),
{
    OverlayError::RenderOperation
}

} // verus!
