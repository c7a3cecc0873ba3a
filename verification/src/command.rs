use crate::alignment::Alignment;
use crate::color::Color;
use crate::messages::Message;
use crate::rect::Rect;
use crate::styles::StyleSet;
use crate::window::Procedure;
use crate::HWND;
use vstd::prelude::*;

verus! {

/// One effect a window procedure asks the registry to perform.
///
/// A procedure runs with a read-only snapshot of its window, so everything it
/// wants done to the rest of the system is returned as commands. Paint and
/// invalidation commands are applied as soon as the procedure returns (so a
/// paint command inherits the clip rectangle active at issuance); message
/// sends are queued for the next tick's drain; window creation and
/// destruction are queued as structural operations and performed between the
/// message drain and the paint pass of the tick.
pub enum Command {
    /// Queue a rectangle for repaint.
    InvalidateRect(Rect),
    /// Queue a window's current bounds for repaint.
    InvalidateWindow(HWND),
    /// Route all pointer input to this window, bypassing hit-testing.
    CaptureMouse(HWND),
    /// Resume normal pointer routing.
    UncaptureMouse,
    /// Enqueue a bordered quad draw operation under the active clip.
    PaintQuad { rect: Rect, back_color: Color, border_color: Color, border_size: i32 },
    /// Enqueue a text draw operation under the active clip.
    PaintText {
        text: String,
        rect: Rect,
        color: Color,
        h_align: Alignment,
        v_align: Alignment,
        size: i32,
        line_height: i32,
    },
    /// Queue a message for the next tick's drain. `Paint` is refused here:
    /// it is only ever sent directly by the paint pipeline.
    Send(HWND, Message),
    /// Create a window between this tick's message drain and paint pass.
    Create {
        class: String,
        caption: String,
        styles: StyleSet,
        rect: Rect,
        parent: Option<HWND>,
        procedure: Procedure,
    },
    /// Destroy a window between this tick's message drain and paint pass.
    Destroy(HWND),
}

/// A structural operation deferred to the tick loop: creating or destroying
/// a window while a dispatch is in flight would mutate the window list under
/// the iteration that is delivering messages, so these are queued and run
/// after the drain, over a stable snapshot.
pub enum StructuralOp {
    Create {
        class: String,
        caption: String,
        styles: StyleSet,
        rect: Rect,
        parent: Option<HWND>,
        procedure: Procedure,
    },
    Destroy(HWND),
}

} // verus!
