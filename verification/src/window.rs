use crate::command::Command;
use crate::controls::button::ButtonState;
use crate::controls::textbox::TextboxState;
use crate::rect::Rect;
use crate::styles::StyleSet;
use crate::HWND;
use vstd::prelude::*;

verus! {

/// The behavioral class of a window: which procedure handles its messages.
///
/// The set of classes is closed; each variant's transition function lives in
/// the `controls` module and is dispatched by the registry.
#[derive(Clone, Copy, Debug, PartialEq, Eq, Structural)]
pub enum Procedure {
    /// Ignores every message and answers 0.
    Silent,
    /// A top-level window: paints a flat background.
    TopLevel,
    /// A push button with hover, active and disabled visual states.
    Button,
    /// A single-line text field that reflects focus in its border.
    Textbox,
}

/// Per-class state a procedure stashes on its window between messages.
#[derive(Clone, Copy, Debug, PartialEq, Eq, Structural)]
pub enum UserData {
    Button(ButtonState),
    Textbox(TextboxState),
}

/// What a window procedure returns: its numeric response, the user data to
/// store back on the window, and the effects it asks the registry to perform.
pub struct ProcResult {
    pub response: u64,
    pub data: Option<UserData>,
    pub commands: Vec<Command>,
}

/// One retained UI element, owned by the registry.
pub struct Window {
    /// Stable identifier, assigned at creation and never reassigned.
    pub hwnd: HWND,
    /// The control's class name: descriptive text naming the window's type.
    pub class: String,
    /// Descriptive text: a top-level window's title, a control's display text.
    pub caption: String,
    /// The window's style flags.
    pub styles: StyleSet,
    /// The window's bounds, in the root window's coordinate space.
    pub rect: Rect,
    /// The parent's handle; `None` only for a top-level window.
    pub parent: Option<HWND>,
    /// The window's behavioral class, fixed for its lifetime.
    pub procedure: Procedure,
    /// State the procedure keeps between messages.
    pub user_data: Option<UserData>,
}

} // verus!
