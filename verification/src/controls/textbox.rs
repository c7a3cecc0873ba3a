use crate::color::Color;
use crate::command::Command;
use crate::controls::visual_state::VisualState;
use crate::messages::Message;
use crate::rect::Rect;
use crate::styles::StyleSet;
use crate::window::{ProcResult, UserData};
use crate::HWND;
use vstd::prelude::*;

verus! {

/// The user-defined message code a textbox sends when its text changes.
pub const TEXTBOX_CHANGED: u64 = 51;

/// The state a textbox keeps between messages.
#[derive(Clone, Copy, Debug, Default, PartialEq, Eq, Structural)]
pub struct TextboxState {
    /// The current visual state.
    pub visual_state: VisualState,
}

/// The styles a textbox is normally created with.
pub fn textbox_style() -> (r: StyleSet)
    ensures
        r == (StyleSet { visible: true, enabled: true, focusable: true }),
{
    StyleSet { visible: true, enabled: true, focusable: true }
}

/// The border color a textbox is painted with in each visual state; the face
/// is always white.
pub open spec fn textbox_border_color(vs: VisualState) -> Color {
    match vs {
        VisualState::Normal => Color { r: 122, g: 122, b: 122, a: 255 },
        VisualState::Hover => Color { r: 23, g: 23, b: 23, a: 255 },
        VisualState::Active => Color { r: 0, g: 120, b: 215, a: 255 },
        VisualState::Disabled => Color { r: 204, g: 204, b: 204, a: 255 },
    }
}

/// The textbox's visual state machine: focus holds it active, hovering
/// highlights it only from its normal state, and a style change
/// (re)initializes it.
pub open spec fn textbox_data_after(
    data: Option<UserData>,
    styles: StyleSet,
    message: Message,
) -> Option<UserData> {
    match message {
        Message::StylesChanged => Some(
            UserData::Textbox(
                TextboxState {
                    visual_state: if !styles.enabled {
                        VisualState::Disabled
                    } else {
                        VisualState::Normal
                    },
                },
            ),
        ),
        Message::Focus => match data {
            Some(UserData::Textbox(_)) => Some(
                UserData::Textbox(TextboxState { visual_state: VisualState::Active }),
            ),
            _ => data,
        },
        Message::Unfocus => match data {
            Some(UserData::Textbox(_)) => Some(
                UserData::Textbox(TextboxState { visual_state: VisualState::Normal }),
            ),
            _ => data,
        },
        Message::MouseEnter => match data {
            Some(UserData::Textbox(s)) => if s.visual_state == VisualState::Normal {
                Some(UserData::Textbox(TextboxState { visual_state: VisualState::Hover }))
            } else {
                data
            },
            _ => data,
        },
        Message::MouseLeave => match data {
            Some(UserData::Textbox(s)) => if s.visual_state == VisualState::Hover {
                Some(UserData::Textbox(TextboxState { visual_state: VisualState::Normal }))
            } else {
                data
            },
            _ => data,
        },
        _ => data,
    }
}

/// The commands a textbox issues: its bounds are invalidated exactly when
/// its visual state changed, the primary button holds the capture while
/// down, and painting is one white quad with a state-dependent border.
pub open spec fn textbox_commands(
    hwnd: HWND,
    rect: Rect,
    data: Option<UserData>,
    message: Message,
) -> Seq<Command> {
    match message {
        Message::Focus | Message::Unfocus => match data {
            Some(UserData::Textbox(_)) => seq![Command::InvalidateRect(rect)],
            _ => Seq::empty(),
        },
        Message::MouseEnter => match data {
            Some(UserData::Textbox(s)) => if s.visual_state == VisualState::Normal {
                seq![Command::InvalidateRect(rect)]
            } else {
                Seq::empty()
            },
            _ => Seq::empty(),
        },
        Message::MouseLeave => match data {
            Some(UserData::Textbox(s)) => if s.visual_state == VisualState::Hover {
                seq![Command::InvalidateRect(rect)]
            } else {
                Seq::empty()
            },
            _ => Seq::empty(),
        },
        Message::LmbDown => seq![Command::CaptureMouse(hwnd)],
        Message::LmbUp => seq![Command::UncaptureMouse],
        Message::Paint => match data {
            Some(UserData::Textbox(s)) => seq![
                Command::PaintQuad {
                    rect,
                    back_color: Color { r: 255, g: 255, b: 255, a: 255 },
                    border_color: textbox_border_color(s.visual_state),
                    border_size: 1,
                },
            ],
            _ => Seq::empty(),
        },
        _ => Seq::empty(),
    }
}

/// The message procedure implementation for a textbox.
pub fn textbox_proc(
    hwnd: HWND,
    rect: Rect,
    styles: StyleSet,
    data: Option<UserData>,
    message: Message,
) -> (r: ProcResult)
    ensures
        r.response == 0,
        r.data == textbox_data_after(data, styles, message),
        r.commands@ =~= textbox_commands(hwnd, rect, data, message),
{
    let state: Option<TextboxState> = match data {
        Some(UserData::Textbox(s)) => Some(s),
        _ => None,
    };
    match message {
        Message::StylesChanged => {
            let vs = if !styles.enabled {
                VisualState::Disabled
            } else {
                VisualState::Normal
            };
            ProcResult {
                response: 0,
                data: Some(UserData::Textbox(TextboxState { visual_state: vs })),
                commands: Vec::new(),
            }
        },
        Message::Focus => match state {
            Some(_) => {
                let mut commands: Vec<Command> = Vec::new();
                commands.push(Command::InvalidateRect(rect));
                ProcResult {
                    response: 0,
                    data: Some(
                        UserData::Textbox(TextboxState { visual_state: VisualState::Active }),
                    ),
                    commands,
                }
            },
            None => ProcResult { response: 0, data, commands: Vec::new() },
        },
        Message::Unfocus => match state {
            Some(_) => {
                let mut commands: Vec<Command> = Vec::new();
                commands.push(Command::InvalidateRect(rect));
                ProcResult {
                    response: 0,
                    data: Some(
                        UserData::Textbox(TextboxState { visual_state: VisualState::Normal }),
                    ),
                    commands,
                }
            },
            None => ProcResult { response: 0, data, commands: Vec::new() },
        },
        Message::MouseEnter => match state {
            Some(s) => {
                if s.visual_state == VisualState::Normal {
                    let mut commands: Vec<Command> = Vec::new();
                    commands.push(Command::InvalidateRect(rect));
                    ProcResult {
                        response: 0,
                        data: Some(
                            UserData::Textbox(TextboxState { visual_state: VisualState::Hover }),
                        ),
                        commands,
                    }
                } else {
                    ProcResult { response: 0, data, commands: Vec::new() }
                }
            },
            None => ProcResult { response: 0, data, commands: Vec::new() },
        },
        Message::MouseLeave => match state {
            Some(s) => {
                if s.visual_state == VisualState::Hover {
                    let mut commands: Vec<Command> = Vec::new();
                    commands.push(Command::InvalidateRect(rect));
                    ProcResult {
                        response: 0,
                        data: Some(
                            UserData::Textbox(TextboxState { visual_state: VisualState::Normal }),
                        ),
                        commands,
                    }
                } else {
                    ProcResult { response: 0, data, commands: Vec::new() }
                }
            },
            None => ProcResult { response: 0, data, commands: Vec::new() },
        },
        Message::LmbDown => {
            let mut commands: Vec<Command> = Vec::new();
            commands.push(Command::CaptureMouse(hwnd));
            ProcResult { response: 0, data, commands }
        },
        Message::LmbUp => {
            let mut commands: Vec<Command> = Vec::new();
            commands.push(Command::UncaptureMouse);
            ProcResult { response: 0, data, commands }
        },
        Message::Paint => match state {
            Some(s) => {
                let border = match s.visual_state {
                    VisualState::Normal => Color::rgb(122, 122, 122),
                    VisualState::Hover => Color::rgb(23, 23, 23),
                    VisualState::Active => Color::rgb(0, 120, 215),
                    VisualState::Disabled => Color::rgb(204, 204, 204),
                };
                let mut commands: Vec<Command> = Vec::new();
                commands.push(
                    Command::PaintQuad {
                        rect,
                        back_color: Color::rgb(255, 255, 255),
                        border_color: border,
                        border_size: 1,
                    },
                );
                ProcResult { response: 0, data, commands }
            },
            None => ProcResult { response: 0, data, commands: Vec::new() },
        },
        _ => ProcResult { response: 0, data, commands: Vec::new() },
    }
}

} // verus!
