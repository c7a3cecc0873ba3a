use crate::HWND;
use vstd::prelude::*;

verus! {

/// A platform key code, carried through unchanged.
pub type Keycode = i32;

/// Messages sent to windows when application events happen.
#[derive(Clone, Copy, Debug, PartialEq, Eq, Structural)]
pub enum Message {
    /// The window has been created.
    Create,
    /// The window is being destroyed.
    Destroy,
    /// The primary mouse button was pushed down inside the window.
    LmbDown,
    /// The primary mouse button was released after a press inside the window.
    LmbUp,
    /// The mouse is moving inside the window.
    MouseMove,
    /// The mouse has entered the window's bounds.
    MouseEnter,
    /// The mouse has left the window's bounds.
    MouseLeave,
    /// A keyboard key was pushed while the window held focus.
    KeyDown(Keycode),
    /// A keyboard key was released while the window held focus.
    KeyUp(Keycode),
    /// Text was typed while the window held focus.
    TextInput,
    /// The window gained focus.
    Focus,
    /// The window lost focus.
    Unfocus,
    /// The window needs repainting. Never queued: only ever sent directly by
    /// the paint pipeline, inside a clip scope.
    Paint,
    /// The window's styles have changed.
    StylesChanged,
    /// A user-defined message: the source window's handle and an
    /// application-defined code.
    User(HWND, u64),
}

} // verus!
