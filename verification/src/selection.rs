//! The pointer-driven selection state machine.
//!
//! A press anchors a fresh rectangle at the pointer; every move while the
//! primary button is held re-spans the rectangle between the anchor and the
//! pointer, so the drag may cross the anchor on either axis without ever
//! producing an inverted rectangle.  A release keeps the rectangle for later
//! paints; the next press discards it.

use vstd::prelude::*;

verus! {

/// A selection rectangle in device-independent pixel coordinates,
/// kept normalized (`left <= right`, `top <= bottom`) by every update.
#[derive(Clone, Copy, PartialEq, Eq, Structural, Debug)]
pub struct SelectionRect {
    pub left: i32,
    pub top: i32,
    pub right: i32,
    pub bottom: i32,
}

impl SelectionRect {
    /// The edges are ordered: the rectangle is not inverted on either axis.
    pub open spec fn normalized(self) -> bool {
        self.left <= self.right && self.top <= self.bottom
    }

    /// The rectangle covers the unit pixel cell at `(x, y)`: the cell whose
    /// centre lies strictly inside the rectangle.  A degenerate rectangle
    /// covers no cell at all.
    pub open spec fn covers(self, x: int, y: int) -> bool {
        self.left <= x < self.right && self.top <= y < self.bottom
    }

    /// Zero area: at least one axis has coinciding edges.
    pub open spec fn degenerate(self) -> bool {
        self.left == self.right || self.top == self.bottom
    }

    /// The normalized rectangle spanned by two corner points.
    pub open spec fn spec_between(ax: i32, ay: i32, x: i32, y: i32) -> SelectionRect {
        SelectionRect {
            left: if x < ax { x } else { ax },
            top: if y < ay { y } else { ay },
            right: if x < ax { ax } else { x },
            bottom: if y < ay { ay } else { y },
        }
    }

    /// The degenerate rectangle anchored at one point.
    pub open spec fn spec_at_point(x: i32, y: i32) -> SelectionRect {
        SelectionRect { left: x, top: y, right: x, bottom: y }
    }

    /// Builds the degenerate rectangle whose four edges all sit on `(x, y)`.
    pub fn at_point(x: i32, y: i32) -> (r: SelectionRect)
        ensures
            r == Self::spec_at_point(x, y),
            r.normalized(),
            r.degenerate(),
    {
        SelectionRect { left: x, top: y, right: x, bottom: y }
    }

    /// Builds the normalized rectangle spanned by the anchor `(ax, ay)` and
    /// the pointer `(x, y)`, flipping edges as the pointer crosses the anchor.
    pub fn between(ax: i32, ay: i32, x: i32, y: i32) -> (r: SelectionRect)
        ensures
            r == Self::spec_between(ax, ay, x, y),
            r.normalized(),
    {
        let (left, right): (i32, i32) = if x < ax { (x, ax) } else { (ax, x) };
        let (top, bottom): (i32, i32) = if y < ay { (y, ay) } else { (ay, y) };
        SelectionRect { left, top, right, bottom }
    }
}

/// A degenerate rectangle covers no pixel cell.
pub proof fn lemma_degenerate_covers_nothing(r: SelectionRect, x: int, y: int)
    requires
        r.normalized(),
        r.degenerate(),
    ensures
        !r.covers(x, y),
{
}

/// One normalized pointer event, as the host window delivers it.
#[derive(Clone, Copy, PartialEq, Eq, Structural, Debug)]
pub enum PointerEvent {
    /// The primary button went down at the given pixel.
    Press { x: i32, y: i32 },
    /// The pointer moved; `primary_down` tells whether the primary button
    /// was held during the move.
    Move { x: i32, y: i32, primary_down: bool },
    /// The primary button was let go.
    Release,
}

/// Whether a drag is in progress.
#[derive(Clone, Copy, PartialEq, Eq, Structural, Debug)]
pub enum DragPhase {
    /// No drag in progress; the last rectangle, if any, persists for paints.
    Idle,
    /// The rectangle is anchored at the press point and growing.
    Dragging,
}

/// The selection state machine: the anchor of the current drag, the phase,
/// and the rectangle that paints read.
///
/// The anchor fields are meaningful only while `rect` is present; they then
/// hold the press point the rectangle is spanned from.
pub struct SelectionTracker {
    pub phase: DragPhase,
    pub anchor_x: i32,
    pub anchor_y: i32,
    pub rect: Option<SelectionRect>,
}

impl SelectionTracker {
    /// The state machine's invariant: whenever a rectangle is present it is
    /// normalized, and a drag in progress always has a rectangle.
    pub open spec fn wf(self) -> bool {
        &&& (self.rect matches Some(r) ==> r.normalized())
        &&& (self.phase is Dragging ==> self.rect is Some)
    }

    /// The fresh state: no selection at all.
    pub open spec fn spec_new() -> SelectionTracker {
        SelectionTracker { phase: DragPhase::Idle, anchor_x: 0, anchor_y: 0, rect: None }
    }

    /// A press anchors a fresh degenerate rectangle and starts a drag,
    /// discarding any previous rectangle.
    pub open spec fn spec_press(self, x: i32, y: i32) -> SelectionTracker {
        SelectionTracker {
            phase: DragPhase::Dragging,
            anchor_x: x,
            anchor_y: y,
            rect: Some(SelectionRect::spec_at_point(x, y)),
        }
    }

    /// A move re-spans the rectangle between the anchor and the pointer, but
    /// only while a drag is in progress and the primary button is held.
    pub open spec fn spec_move(self, x: i32, y: i32, primary_down: bool) -> SelectionTracker {
        if self.phase is Dragging && primary_down && self.rect is Some {
            SelectionTracker {
                phase: self.phase,
                anchor_x: self.anchor_x,
                anchor_y: self.anchor_y,
                rect: Some(SelectionRect::spec_between(self.anchor_x, self.anchor_y, x, y)),
            }
        } else {
            self
        }
    }

    /// A release ends the drag; the rectangle persists for later paints.
    pub open spec fn spec_release(self) -> SelectionTracker {
        SelectionTracker {
            phase: DragPhase::Idle,
            anchor_x: self.anchor_x,
            anchor_y: self.anchor_y,
            rect: self.rect,
        }
    }

    /// One transition of the state machine.
    pub open spec fn spec_step(self, ev: PointerEvent) -> SelectionTracker {
        match ev {
            PointerEvent::Press { x, y } => self.spec_press(x, y),
            PointerEvent::Move { x, y, primary_down } => self.spec_move(x, y, primary_down),
            PointerEvent::Release => self.spec_release(),
        }
    }

    /// The state after a whole sequence of pointer events.
    pub open spec fn spec_run(self, evs: Seq<PointerEvent>) -> SelectionTracker
        decreases evs.len(),
    {
        if evs.len() == 0 {
            self
        } else {
            self.spec_step(evs[0]).spec_run(evs.subrange(1, evs.len() as int))
        }
    }

    /// Starts with no selection.
    pub fn new() -> (s: SelectionTracker)
        ensures
            s == Self::spec_new(),
            s.wf(),
    {
        SelectionTracker { phase: DragPhase::Idle, anchor_x: 0, anchor_y: 0, rect: None }
    }

    /// Clears the selection, as a freshly created host window does.
    pub fn reset(&mut self)
        ensures
            *final(self) == Self::spec_new(),
            final(self).wf(),
    {
        self.phase = DragPhase::Idle;
        self.anchor_x = 0;
        self.anchor_y = 0;
        self.rect = None;
    }

    /// Pointer press: anchor a fresh degenerate rectangle and enter the drag.
    pub fn on_press(&mut self, x: i32, y: i32)
        ensures
            *final(self) == old(self).spec_press(x, y),
            old(self).wf() ==> final(self).wf(),
    {
        self.phase = DragPhase::Dragging;
        self.anchor_x = x;
        self.anchor_y = y;
        self.rect = Some(SelectionRect::at_point(x, y));
    }

    /// Pointer move: while dragging with the primary button held, update the
    /// rectangle with the flip-aware extension rule.  Returns whether the
    /// rectangle changed, so that the host knows to request a repaint.
    pub fn on_move(&mut self, x: i32, y: i32, primary_down: bool) -> (updated: bool)
        ensures
            *final(self) == old(self).spec_move(x, y, primary_down),
            updated == (old(self).phase is Dragging && primary_down && old(self).rect is Some),
            old(self).wf() ==> final(self).wf(),
    {
        let dragging = match self.phase {
            DragPhase::Dragging => true,
            DragPhase::Idle => false,
        };
        if dragging && primary_down && self.rect.is_some() {
            self.rect = Some(SelectionRect::between(self.anchor_x, self.anchor_y, x, y));
            true
        } else {
            false
        }
    }

    /// Pointer release: back to idle; the rectangle is retained, not cleared.
    pub fn on_release(&mut self)
        ensures
            *final(self) == old(self).spec_release(),
            final(self).rect == old(self).rect,
            old(self).wf() ==> final(self).wf(),
    {
        self.phase = DragPhase::Idle;
    }

    /// The rectangle the paint path reads.
    pub fn current_rect(&self) -> (r: Option<SelectionRect>)
        ensures
            r == self.rect,
    {
        self.rect
    }
}

/// One transition preserves the invariant.
pub proof fn lemma_step_preserves_wf(s: SelectionTracker, ev: PointerEvent)
    requires
        s.wf(),
    ensures
        s.spec_step(ev).wf(),
{
}

/// Law: however the pointer is pressed, moved and released, the rectangle
/// held after every update is normalized (`left <= right`, `top <= bottom`).
pub proof fn lemma_rect_always_normalized(s: SelectionTracker, evs: Seq<PointerEvent>)
    requires
        s.wf(),
    ensures
        s.spec_run(evs).wf(),
        s.spec_run(evs).rect matches Some(r) ==> r.normalized(),
    decreases evs.len(),
{
    if evs.len() > 0 {
        lemma_step_preserves_wf(s, evs[0]);
        lemma_rect_always_normalized(s.spec_step(evs[0]), evs.subrange(1, evs.len() as int));
    }
}

} // verus!
