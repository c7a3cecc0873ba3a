use crate::alignment::Alignment;
use crate::color::Color;
use crate::command::Command;
use crate::controls::visual_state::VisualState;
use crate::messages::Message;
use crate::rect::Rect;
use crate::styles::StyleSet;
use crate::window::{ProcResult, UserData};
use crate::HWND;
use vstd::prelude::*;

verus! {

/// The user-defined message code a button sends to the root window when it
/// is pressed.
pub const BUTTON_CLICK: u64 = 50;

/// The state a button keeps between messages.
#[derive(Clone, Copy, Debug, Default, PartialEq, Eq, Structural)]
pub struct ButtonState {
    /// The current visual state.
    pub visual_state: VisualState,
}

/// The styles a button is normally created with.
pub fn button_style() -> (r: StyleSet)
    ensures
        r == (StyleSet { visible: true, enabled: true, focusable: true }),
{
    StyleSet { visible: true, enabled: true, focusable: true }
}

/// The background color a button is painted with in each visual state.
pub open spec fn button_back_color(vs: VisualState) -> Color {
    match vs {
        VisualState::Normal => Color { r: 225, g: 225, b: 225, a: 255 },
        VisualState::Hover => Color { r: 229, g: 241, b: 251, a: 255 },
        VisualState::Active => Color { r: 204, g: 228, b: 247, a: 255 },
        VisualState::Disabled => Color { r: 204, g: 204, b: 204, a: 255 },
    }
}

/// The border color a button is painted with in each visual state.
pub open spec fn button_border_color(vs: VisualState) -> Color {
    match vs {
        VisualState::Normal => Color { r: 173, g: 173, b: 173, a: 255 },
        VisualState::Hover => Color { r: 0, g: 120, b: 215, a: 255 },
        VisualState::Active => Color { r: 0, g: 84, b: 153, a: 255 },
        VisualState::Disabled => Color { r: 191, g: 191, b: 191, a: 255 },
    }
}

/// The button's visual state machine: the user data stored back on the
/// window after it handles `message`. A button without stored state ignores
/// every message but `StylesChanged`, which (re)initializes it.
pub open spec fn button_data_after(
    data: Option<UserData>,
    styles: StyleSet,
    message: Message,
) -> Option<UserData> {
    match message {
        Message::StylesChanged => Some(
            UserData::Button(
                ButtonState {
                    visual_state: if !styles.enabled {
                        VisualState::Disabled
                    } else {
                        VisualState::Normal
                    },
                },
            ),
        ),
        Message::LmbDown => match data {
            Some(UserData::Button(_)) => Some(
                UserData::Button(ButtonState { visual_state: VisualState::Active }),
            ),
            _ => data,
        },
        Message::LmbUp => match data {
            Some(UserData::Button(s)) => Some(
                UserData::Button(
                    ButtonState {
                        visual_state: if s.visual_state == VisualState::Hover {
                            VisualState::Normal
                        } else {
                            VisualState::Hover
                        },
                    },
                ),
            ),
            _ => data,
        },
        Message::MouseEnter => match data {
            Some(UserData::Button(s)) => Some(
                UserData::Button(
                    ButtonState {
                        visual_state: if s.visual_state == VisualState::Hover {
                            VisualState::Active
                        } else {
                            VisualState::Hover
                        },
                    },
                ),
            ),
            _ => data,
        },
        Message::MouseLeave => match data {
            Some(UserData::Button(s)) => Some(
                UserData::Button(
                    ButtonState {
                        visual_state: if s.visual_state == VisualState::Active {
                            VisualState::Hover
                        } else {
                            VisualState::Normal
                        },
                    },
                ),
            ),
            _ => data,
        },
        _ => data,
    }
}

/// The commands a button issues for `message`: invalidation of its own
/// bounds on every visual change, capture while the primary button is held,
/// a click notification to the root window, and its two paint operations. A
/// button without stored state issues nothing.
pub open spec fn button_commands(
    hwnd: HWND,
    root: HWND,
    rect: Rect,
    caption: String,
    data: Option<UserData>,
    message: Message,
) -> Seq<Command> {
    match message {
        Message::LmbDown => match data {
            Some(UserData::Button(_)) => seq![
                Command::InvalidateRect(rect),
                Command::CaptureMouse(hwnd),
                Command::Send(root, Message::User(hwnd, BUTTON_CLICK)),
            ],
            _ => Seq::empty(),
        },
        Message::LmbUp => match data {
            Some(UserData::Button(_)) => seq![
                Command::InvalidateRect(rect),
                Command::UncaptureMouse,
            ],
            _ => Seq::empty(),
        },
        Message::MouseEnter | Message::MouseLeave => match data {
            Some(UserData::Button(_)) => seq![Command::InvalidateRect(rect)],
            _ => Seq::empty(),
        },
        Message::Paint => match data {
            Some(UserData::Button(s)) => seq![
                Command::PaintQuad {
                    rect,
                    back_color: button_back_color(s.visual_state),
                    border_color: button_border_color(s.visual_state),
                    border_size: 1,
                },
                Command::PaintText {
                    text: caption,
                    rect,
                    color: Color { r: 0, g: 0, b: 0, a: 255 },
                    h_align: Alignment::Center,
                    v_align: Alignment::Center,
                    size: 11,
                    line_height: 4,
                },
            ],
            _ => Seq::empty(),
        },
        _ => Seq::empty(),
    }
}

fn button_colors(vs: VisualState) -> (r: (Color, Color))
    ensures
        r.0 == button_back_color(vs),
        r.1 == button_border_color(vs),
{
    match vs {
        VisualState::Normal => (Color::rgb(225, 225, 225), Color::rgb(173, 173, 173)),
        VisualState::Hover => (Color::rgb(229, 241, 251), Color::rgb(0, 120, 215)),
        VisualState::Active => (Color::rgb(204, 228, 247), Color::rgb(0, 84, 153)),
        VisualState::Disabled => (Color::rgb(204, 204, 204), Color::rgb(191, 191, 191)),
    }
}

/// The message procedure implementation for a button.
///
/// `hwnd` is the button's own handle, `root` the root window's handle (the
/// click notification goes there), `rect`, `styles`, `caption` and `data`
/// the button's current record, and `message` the message to handle.
pub fn button_proc(
    hwnd: HWND,
    root: HWND,
    rect: Rect,
    styles: StyleSet,
    caption: &String,
    data: Option<UserData>,
    message: Message,
) -> (r: ProcResult)
    ensures
        r.response == 0,
        r.data == button_data_after(data, styles, message),
        r.commands@ =~= button_commands(hwnd, root, rect, *caption, data, message),
{
    let state: Option<ButtonState> = match data {
        Some(UserData::Button(s)) => Some(s),
        _ => None,
    };
    match message {
        Message::StylesChanged => {
            let vs = if !styles.enabled {
                VisualState::Disabled
            } else {
                VisualState::Normal
            };
            ProcResult {
                response: 0,
                data: Some(UserData::Button(ButtonState { visual_state: vs })),
                commands: Vec::new(),
            }
        },
        Message::LmbDown => match state {
            Some(_) => {
                let mut commands: Vec<Command> = Vec::new();
                commands.push(Command::InvalidateRect(rect));
                commands.push(Command::CaptureMouse(hwnd));
                commands.push(Command::Send(root, Message::User(hwnd, BUTTON_CLICK)));
                ProcResult {
                    response: 0,
                    data: Some(UserData::Button(ButtonState { visual_state: VisualState::Active })),
                    commands,
                }
            },
            None => ProcResult { response: 0, data, commands: Vec::new() },
        },
        Message::LmbUp => match state {
            Some(s) => {
                let vs = if s.visual_state == VisualState::Hover {
                    VisualState::Normal
                } else {
                    VisualState::Hover
                };
                let mut commands: Vec<Command> = Vec::new();
                commands.push(Command::InvalidateRect(rect));
                commands.push(Command::UncaptureMouse);
                ProcResult {
                    response: 0,
                    data: Some(UserData::Button(ButtonState { visual_state: vs })),
                    commands,
                }
            },
            None => ProcResult { response: 0, data, commands: Vec::new() },
        },
        Message::MouseEnter => match state {
            Some(s) => {
                let vs = if s.visual_state == VisualState::Hover {
                    VisualState::Active
                } else {
                    VisualState::Hover
                };
                let mut commands: Vec<Command> = Vec::new();
                commands.push(Command::InvalidateRect(rect));
                ProcResult {
                    response: 0,
                    data: Some(UserData::Button(ButtonState { visual_state: vs })),
                    commands,
                }
            },
            None => ProcResult { response: 0, data, commands: Vec::new() },
        },
        Message::MouseLeave => match state {
            Some(s) => {
                let vs = if s.visual_state == VisualState::Active {
                    VisualState::Hover
                } else {
                    VisualState::Normal
                };
                let mut commands: Vec<Command> = Vec::new();
                commands.push(Command::InvalidateRect(rect));
                ProcResult {
                    response: 0,
                    data: Some(UserData::Button(ButtonState { visual_state: vs })),
                    commands,
                }
            },
            None => ProcResult { response: 0, data, commands: Vec::new() },
        },
        Message::Paint => match state {
            Some(s) => {
                let colors = button_colors(s.visual_state);
                let mut commands: Vec<Command> = Vec::new();
                commands.push(
                    Command::PaintQuad {
                        rect,
                        back_color: colors.0,
                        border_color: colors.1,
                        border_size: 1,
                    },
                );
                commands.push(
                    Command::PaintText {
                        text: caption.clone(),
                        rect,
                        color: Color::rgb(0, 0, 0),
                        h_align: Alignment::Center,
                        v_align: Alignment::Center,
                        size: 11,
                        line_height: 4,
                    },
                );
                ProcResult { response: 0, data, commands }
            },
            None => ProcResult { response: 0, data, commands: Vec::new() },
        },
        _ => ProcResult { response: 0, data, commands: Vec::new() },
    }
}

} // verus!
