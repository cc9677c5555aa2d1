//! The window registry and command dispatcher.
//!
//! Each window role owns at most one live entry: the host window's handle and
//! the drawing context of its render surface.  Attaching a window replaces
//! the role's entry wholesale; the prior entry's surface is released exactly
//! once, which the controller accounts for by recording every released
//! surface identity.  Dispatching a command against a role with no entry is a
//! no-op that succeeds: the window simply has not been painted yet.

use vstd::prelude::*;

use crate::drawing::{Color, Drawing};
use crate::errors::OverlayError;
use crate::renderer::{spec_frame_steps, FrameStep, RenderSurface};
use crate::selection::SelectionRect;

verus! {

/// The window roles the registry can hold, one slot each, plus the
/// unassigned placeholder a builder starts from, which owns no slot.
#[derive(Clone, Copy, PartialEq, Eq, Structural, Debug)]
pub enum WindowType {
    /// The click-through overlay the selection mask is drawn on.
    Transparent,
    /// The opaque window that repaints its background on demand.
    Opaque,
    /// The primary window.
    Main,
    /// No role assigned; commands against it are a programmer error.
    Unassigned,
}

/// One command routed to a window role, carrying everything one frame needs.
#[derive(Clone, Copy, PartialEq, Eq, Structural, Debug)]
pub enum Command {
    /// Make the window visible.
    Show,
    /// Render the spotlight mask for the given selection, or clear it.
    DrawOverlay(Option<SelectionRect>),
    /// Fill the whole window with a solid color.
    FillBackground(Color),
}

/// One live registry entry: a host window handle and its drawing context.
#[derive(Clone, Copy, PartialEq, Eq, Structural, Debug)]
pub struct RegistryEntry {
    pub hwnd: u64,
    pub drawing: Drawing,
}

/// What the host must perform for one dispatched command.
#[derive(Debug)]
pub enum DispatchPlan {
    /// Show the window with the given handle.
    ShowWindow { hwnd: u64 },
    /// Render one frame on the window with the given handle, executing the
    /// steps in order.
    RenderFrame { hwnd: u64, steps: Vec<FrameStep> },
}

/// The registry's mathematical state: the three role slots, the next fresh
/// surface identity, and every surface identity released so far, in order.
pub struct ControllerView {
    pub transparent: Option<RegistryEntry>,
    pub opaque: Option<RegistryEntry>,
    pub main: Option<RegistryEntry>,
    pub next_surface_id: u64,
    pub released: Seq<u64>,
}

impl ControllerView {
    /// The entry of a role; the unassigned placeholder never has one.
    pub open spec fn entry(self, wt: WindowType) -> Option<RegistryEntry> {
        match wt {
            WindowType::Transparent => self.transparent,
            WindowType::Opaque => self.opaque,
            WindowType::Main => self.main,
            WindowType::Unassigned => None,
        }
    }

    /// Some live entry owns this surface identity.
    pub open spec fn owns_id(self, id: u64) -> bool {
        ||| (self.transparent matches Some(e) && e.drawing.surface.id == id)
        ||| (self.opaque matches Some(e) && e.drawing.surface.id == id)
        ||| (self.main matches Some(e) && e.drawing.surface.id == id)
    }

    /// The registry's invariant.
    ///
    /// Surface identities are handed out from a counter, so every identity
    /// in use or already released is below the counter; the live entries own
    /// pairwise distinct identities, none of which was ever released; and no
    /// identity was released twice.  Live entries are well formed.
    pub open spec fn wf(self) -> bool {
        &&& (self.transparent matches Some(e) ==> e.drawing.wf() && e.drawing.surface.id
            < self.next_surface_id && !self.released.contains(e.drawing.surface.id))
        &&& (self.opaque matches Some(e) ==> e.drawing.wf() && e.drawing.surface.id
            < self.next_surface_id && !self.released.contains(e.drawing.surface.id))
        &&& (self.main matches Some(e) ==> e.drawing.wf() && e.drawing.surface.id
            < self.next_surface_id && !self.released.contains(e.drawing.surface.id))
        &&& (self.transparent matches Some(a) ==> self.opaque matches Some(b) ==>
            a.drawing.surface.id != b.drawing.surface.id)
        &&& (self.transparent matches Some(a) ==> self.main matches Some(b) ==>
            a.drawing.surface.id != b.drawing.surface.id)
        &&& (self.opaque matches Some(a) ==> self.main matches Some(b) ==>
            a.drawing.surface.id != b.drawing.surface.id)
        &&& (forall|i: int| 0 <= i < self.released.len() ==> self.released[i]
            < self.next_surface_id)
        &&& (forall|i: int, j: int|
            0 <= i < j < self.released.len() ==> self.released[i] != self.released[j])
    }

    /// The registry after attaching a window of the given role: the role's
    /// slot is replaced wholesale by a fresh entry, the prior entry's
    /// surface, if any, is released, and the identity counter moves on.
    pub open spec fn spec_attach(
        self,
        wt: WindowType,
        hwnd: u64,
        width: u32,
        height: u32,
        dpi_x: u32,
        dpi_y: u32,
    ) -> ControllerView
        recommends
            !(wt is Unassigned),
    {
        let entry = RegistryEntry {
            hwnd,
            drawing: Drawing {
                surface: RenderSurface::spec_new(self.next_surface_id, width, height, dpi_x, dpi_y),
            },
        };
        ControllerView {
            transparent: if wt is Transparent {
                Some(entry)
            } else {
                self.transparent
            },
            opaque: if wt is Opaque {
                Some(entry)
            } else {
                self.opaque
            },
            main: if wt is Main {
                Some(entry)
            } else {
                self.main
            },
            next_surface_id: (self.next_surface_id + 1) as u64,
            released: match self.entry(wt) {
                Some(prior) => self.released.push(prior.drawing.surface.id),
                None => self.released,
            },
        }
    }
}

/// The window registry: one exclusive slot per role.
///
/// A single caller holds the registry exclusively while attaching or
/// dispatching, so a window can never be replaced while its paint is in
/// flight; the host wraps the registry in its mutual-exclusion primitive
/// when its message loop requires one.
pub struct WindowController {
    transparent_window: Option<RegistryEntry>,
    opaque_window: Option<RegistryEntry>,
    main_window: Option<RegistryEntry>,
    next_surface_id: u64,
    released: Vec<u64>,
}

impl View for WindowController {
    type V = ControllerView;

    closed spec fn view(&self) -> ControllerView {
        ControllerView {
            transparent: self.transparent_window,
            opaque: self.opaque_window,
            main: self.main_window,
            next_surface_id: self.next_surface_id,
            released: self.released@,
        }
    }
}

impl WindowController {
    /// An empty registry: no role attached, nothing released.
    pub fn new() -> (c: WindowController)
        ensures
            c@.wf(),
            c@.transparent is None,
            c@.opaque is None,
            c@.main is None,
            c@.released == Seq::<u64>::empty(),
            c@.next_surface_id == 0,
    {
        let c = WindowController {
            transparent_window: None,
            opaque_window: None,
            main_window: None,
            next_surface_id: 0,
            released: Vec::new(),
        };
        assert(c@.released =~= Seq::<u64>::empty());
        c
    }

    /// Attaches a window to its role: builds the drawing context of a fresh
    /// surface for the window's client area and DPI snapshot, and installs
    /// it in the role's slot, replacing any prior entry.  The prior entry's
    /// surface is released — recorded exactly once — so that peak GPU use
    /// stays bounded.
    pub fn add_window(
        &mut self,
        window_type: WindowType,
        hwnd: u64,
        width: i32,
        height: i32,
        dpi_x: u32,
        dpi_y: u32,
    ) -> (r: Result<(), OverlayError>)
        requires
            old(self)@.wf(),
            0 <= width,
            0 <= height,
            old(self)@.next_surface_id < u64::MAX,
        ensures
            final(self)@.wf(),
            window_type is Unassigned ==> r == Err::<(), OverlayError>(OverlayError::InvalidRole)
                && final(self)@ == old(self)@,
            !(window_type is Unassigned) ==> r is Ok && final(self)@ == old(self)@.spec_attach(
                window_type,
                hwnd,
                width as u32,
                height as u32,
                dpi_x,
                dpi_y,
            ),
    {
        if let WindowType::Unassigned = window_type {
            return Err(OverlayError::InvalidRole);
        }
        let surface = RenderSurface::new(self.next_surface_id, width, height, dpi_x, dpi_y);
        let drawing = Drawing::new(surface);
        let entry = RegistryEntry { hwnd, drawing };
        let prior: Option<RegistryEntry> = match window_type {
            WindowType::Transparent => {
                let p = self.transparent_window;
                self.transparent_window = Some(entry);
                p
            },
            WindowType::Opaque => {
                let p = self.opaque_window;
                self.opaque_window = Some(entry);
                p
            },
            WindowType::Main => {
                let p = self.main_window;
                self.main_window = Some(entry);
                p
            },
            WindowType::Unassigned => None,
        };
        if let Some(e) = prior {
            self.released.push(e.drawing.surface.id);
        }
        self.next_surface_id = self.next_surface_id + 1;
        Ok(())
    }

    /// Routes one command to the role's entry.  A role with no entry is not
    /// an error: the command is silently ignored, matching a window that has
    /// not been painted yet.  Only the unassigned placeholder is refused.
    pub fn dispatch(&self, window_type: WindowType, command: Command) -> (r: Result<
        Option<DispatchPlan>,
        OverlayError,
    >)
        requires
            self@.wf(),
        ensures
            window_type is Unassigned <==> r == Err::<Option<DispatchPlan>, OverlayError>(
                OverlayError::InvalidRole,
            ),
            !(window_type is Unassigned) && self@.entry(window_type) is None ==> r == Ok::<
                Option<DispatchPlan>,
                OverlayError,
            >(None),
            self@.entry(window_type) matches Some(e) ==> {
                &&& command is Show ==> (r matches Ok(Some(DispatchPlan::ShowWindow { hwnd }))
                    && hwnd == e.hwnd)
                &&& command matches Command::DrawOverlay(sel) ==> (r matches Ok(
                    Some(DispatchPlan::RenderFrame { hwnd, steps }),
                ) && hwnd == e.hwnd && steps@ == spec_frame_steps(
                    e.drawing.surface,
                    e.drawing.spec_overlay_ops(sel),
                ))
                &&& command matches Command::FillBackground(color) ==> (r matches Ok(
                    Some(DispatchPlan::RenderFrame { hwnd, steps }),
                ) && hwnd == e.hwnd && steps@ == spec_frame_steps(
                    e.drawing.surface,
                    e.drawing.spec_background_ops(color),
                ))
            },
    {
        let slot: Option<RegistryEntry> = match window_type {
            WindowType::Transparent => self.transparent_window,
            WindowType::Opaque => self.opaque_window,
            WindowType::Main => self.main_window,
            WindowType::Unassigned => {
                return Err(OverlayError::InvalidRole);
            },
        };
        match slot {
            None => Ok(None),
            Some(entry) => match command {
                Command::Show => Ok(Some(DispatchPlan::ShowWindow { hwnd: entry.hwnd })),
                Command::DrawOverlay(sel) => {
                    let ops = entry.drawing.draw_overlay(sel);
                    let steps = entry.drawing.surface.compose_frame(&ops);
                    Ok(Some(DispatchPlan::RenderFrame { hwnd: entry.hwnd, steps }))
                },
                Command::FillBackground(color) => {
                    let ops = entry.drawing.fill_background(color);
                    let steps = entry.drawing.surface.compose_frame(&ops);
                    Ok(Some(DispatchPlan::RenderFrame { hwnd: entry.hwnd, steps }))
                },
            },
        }
    }

    /// How many surfaces were ever created: the next fresh surface identity.
    pub fn surface_count(&self) -> (n: u64)
        ensures
            n == self@.next_surface_id,
    {
        self.next_surface_id
    }

    /// The identities of every surface released so far, in release order.
    pub fn released_ids(&self) -> (ids: &Vec<u64>)
        ensures
            ids@ == self@.released,
    {
        &self.released
    }

    /// Whether a role currently holds a live entry.
    pub fn has_window(&self, window_type: WindowType) -> (b: bool)
        ensures
            b == (self@.entry(window_type) is Some),
    {
        match window_type {
            WindowType::Transparent => self.transparent_window.is_some(),
            WindowType::Opaque => self.opaque_window.is_some(),
            WindowType::Main => self.main_window.is_some(),
            WindowType::Unassigned => false,
        }
    }
}

/// Law: replacing a window-role entry releases the previous surface exactly
/// once — it is appended to the release record, where it never stood before,
/// and no live entry owns it any more: no double release and no leak.
pub proof fn lemma_replacement_releases_prior_exactly_once(
    c: ControllerView,
    wt: WindowType,
    hwnd: u64,
    width: u32,
    height: u32,
    dpi_x: u32,
    dpi_y: u32,
)
    requires
        c.wf(),
        !(wt is Unassigned),
        c.entry(wt) is Some,
    ensures
        ({
            let prior = c.entry(wt)->0.drawing.surface.id;
            let after = c.spec_attach(wt, hwnd, width, height, dpi_x, dpi_y);
            &&& after.released == c.released.push(prior)
            &&& forall|i: int|
                0 <= i < after.released.len() ==> (after.released[i] == prior <==> i
                    == after.released.len() - 1)
            &&& !after.owns_id(prior)
        }),
{
    let prior = c.entry(wt)->0.drawing.surface.id;
    let after = c.spec_attach(wt, hwnd, width, height, dpi_x, dpi_y);
    assert(!c.released.contains(prior));
    assert forall|i: int| 0 <= i < after.released.len() implies (after.released[i] == prior <==> i
        == after.released.len() - 1) by {
        if i < after.released.len() - 1 {
            assert(after.released[i] == c.released[i]);
            assert(c.released.contains(c.released[i])) by {
                assert(c.released[i] == c.released[i]);
            }
        }
    }
}

/// Law: attaching to a free role releases nothing.
pub proof fn lemma_first_attach_releases_nothing(
    c: ControllerView,
    wt: WindowType,
    hwnd: u64,
    width: u32,
    height: u32,
    dpi_x: u32,
    dpi_y: u32,
)
    requires
        c.wf(),
        !(wt is Unassigned),
        c.entry(wt) is None,
    ensures
        c.spec_attach(wt, hwnd, width, height, dpi_x, dpi_y).released == c.released,
{
}

} // verus!
