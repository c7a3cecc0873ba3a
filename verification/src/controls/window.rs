use crate::color::Color;
use crate::command::Command;
use crate::messages::Message;
use crate::rect::Rect;
use crate::styles::StyleSet;
use crate::window::{ProcResult, UserData};
use vstd::prelude::*;

verus! {

/// The styles a top-level window is normally created with.
pub fn window_style() -> (r: StyleSet)
    ensures
        r == (StyleSet { visible: true, enabled: true, focusable: false }),
{
    StyleSet { visible: true, enabled: true, focusable: false }
}

/// The commands a top-level window issues: exactly one flat background quad
/// on `Paint`, nothing on any other message.
pub open spec fn window_commands(rect: Rect, message: Message) -> Seq<Command> {
    match message {
        Message::Paint => seq![
            Command::PaintQuad {
                rect,
                back_color: Color { r: 240, g: 240, b: 240, a: 255 },
                border_color: Color { r: 240, g: 240, b: 240, a: 255 },
                border_size: 1,
            },
        ],
        _ => Seq::empty(),
    }
}

/// The message procedure implementation for a top-level window: it paints a
/// flat background over its bounds and ignores everything else.
pub fn window_proc(rect: Rect, data: Option<UserData>, message: Message) -> (r: ProcResult)
    ensures
        r.response == 0,
        r.data == data,
        r.commands@ =~= window_commands(rect, message),
{
    match message {
        Message::Paint => {
            let mut commands: Vec<Command> = Vec::new();
            commands.push(
                Command::PaintQuad {
                    rect,
                    back_color: Color::rgb(240, 240, 240),
                    border_color: Color::rgb(240, 240, 240),
                    border_size: 1,
                },
            );
            ProcResult { response: 0, data, commands }
        },
        _ => ProcResult { response: 0, data, commands: Vec::new() },
    }
}

} // verus!
