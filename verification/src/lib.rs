//! A retained-mode GUI core: a handle-addressed window registry, a synchronous
//! message dispatcher, an input event translator with capture and focus
//! routing, and a dirty-rect paint pipeline that defers drawing to a list of
//! backend-agnostic draw operations composited once per tick.

use vstd::prelude::*;

pub mod alignment;
pub mod color;
pub mod command;
pub mod controls;
pub mod drawop;
pub mod laws;
pub mod messages;
pub mod mouse;
pub mod point;
pub mod rect;
pub mod styles;
pub mod ugui;
pub mod util;
pub mod window;
pub mod writable;

verus! {

/// A window handle: an opaque, stable identifier assigned at creation and
/// never reused while the registry lives.
pub type HWND = usize;

} // verus!
