//! Screen-overlay selection library.
//!
//! A layered, click-through window sits above the desktop while the user
//! drags out a rectangle; everything outside the rectangle is darkened by a
//! translucent mask ("spotlight" effect), and a separate opaque window can
//! repaint itself on demand.
//!
//! This crate holds the verified core: the pointer-driven selection state
//! machine, the window registry and command dispatcher, the mask-compositor
//! draw plans, and the frame-presentation bracket.  The plans are plain data;
//! a host executes each step against the platform's compositor and hands
//! normalized input events back.

pub mod controller;
pub mod drawing;
pub mod errors;
pub mod handler;
pub mod renderer;
pub mod selection;
pub mod win_fact;
