//! The application context and its three engines: the window registry
//! (handle-addressed records, created in z-order and never renumbered), the
//! message dispatcher (a synchronous call into the window's procedure, whose
//! requested effects are applied as commands), and the input translator and
//! paint pipeline that feed it. Procedures never borrow the context: they
//! return commands, so a dispatch in flight never has the window list change
//! size under it, and everything a delivery may do is captured by one frame
//! relation (`dispatch_frame`) and pinned exactly by one step relation
//! (`delivered`). One visible consequence of the command form: a message a
//! procedure sends is delivered at the next tick's drain, not mid-dispatch,
//! and a window a procedure asks to create exists only after the drain runs
//! the queued creation.

use crate::command::{Command, StructuralOp};
use crate::controls::button::button_proc;
use crate::controls::textbox::textbox_proc;
use crate::controls::window::window_proc;
use crate::drawop::{QuadDrawOp, TextDrawOp};
use crate::messages::Message;
use crate::mouse::MouseState;
use crate::point::Point;
use crate::rect::Rect;
use crate::styles::StyleSet;
use crate::util::{
    capture_ok, capture_ok_opt, focus_ok_opt, handles_unique, has_hwnd, hit_index, idx_of,
    index_of_hwnd, no_paint_queued, win_of, window_at_point,
};
use crate::window::{ProcResult, Procedure, UserData, Window};
use crate::HWND;
use vstd::prelude::*;

verus! {

/// `b` extends the message queue `a`, and nothing appended is `Paint`.
pub open spec fn queue_extended(a: Seq<(HWND, Message)>, b: Seq<(HWND, Message)>) -> bool {
    &&& a.is_prefix_of(b)
    &&& forall|k: int| a.len() <= k < b.len() ==> (#[trigger] b[k]).1 != Message::Paint
}

/// The transition function of the closed procedure set: the user data a
/// window of class `procedure` stores after handling `message`, given its
/// current data and styles. Only the button keeps state; every class
/// answers the neutral response.
pub open spec fn proc_data_after(
    procedure: Procedure,
    data: Option<UserData>,
    styles: StyleSet,
    message: Message,
) -> Option<UserData> {
    match procedure {
        Procedure::Silent => data,
        Procedure::TopLevel => data,
        Procedure::Button => crate::controls::button::button_data_after(data, styles, message),
        Procedure::Textbox => crate::controls::textbox::textbox_data_after(data, styles, message),
    }
}

/// The command classes, used to state what a batch of commands leaves
/// untouched: a batch with no send queues no message, one with no structural
/// command queues no creation or destruction, and so on.
pub open spec fn cmd_queues_message(c: Command) -> bool {
    c matches Command::Send(_, _)
}

pub open spec fn cmd_structural(c: Command) -> bool {
    c matches Command::Create { .. } || c matches Command::Destroy(_)
}

pub open spec fn cmd_moves_capture(c: Command) -> bool {
    c matches Command::CaptureMouse(_) || c matches Command::UncaptureMouse
}

pub open spec fn cmd_invalidates(c: Command) -> bool {
    c matches Command::InvalidateRect(_) || c matches Command::InvalidateWindow(_)
}

pub open spec fn cmd_paints(c: Command) -> bool {
    c matches Command::PaintQuad { .. } || c matches Command::PaintText { .. }
}

/// The clip rectangle a draw operation issued now inherits: the top of the
/// clip stack, if any.
pub open spec fn clip_top(clips: Seq<Rect>) -> Option<Rect> {
    if clips.len() > 0 {
        Some(clips.last())
    } else {
        None
    }
}

/// The quad draw operations the first `upto` commands enqueue, each tagged
/// with `clip`.
pub open spec fn quads_of_commands(cmds: Seq<Command>, upto: int, clip: Option<Rect>) -> Seq<
    QuadDrawOp,
>
    decreases upto,
{
    if upto <= 0 {
        Seq::empty()
    } else {
        quads_of_commands(cmds, upto - 1, clip) + match cmds[upto - 1] {
            Command::PaintQuad { rect, back_color, border_color, border_size } => seq![
                QuadDrawOp { rect, clip_rect: clip, back_color, border_color, border_size },
            ],
            _ => Seq::empty(),
        }
    }
}

/// The text draw operations the first `upto` commands enqueue, each tagged
/// with `clip`.
pub open spec fn texts_of_commands(cmds: Seq<Command>, upto: int, clip: Option<Rect>) -> Seq<
    TextDrawOp,
>
    decreases upto,
{
    if upto <= 0 {
        Seq::empty()
    } else {
        texts_of_commands(cmds, upto - 1, clip) + match cmds[upto - 1] {
            Command::PaintText { text, rect, color, h_align, v_align, size, line_height } => seq![
                TextDrawOp {
                    rect,
                    clip_rect: clip,
                    color,
                    text,
                    h_align,
                    v_align,
                    size,
                    line_height,
                },
            ],
            _ => Seq::empty(),
        }
    }
}

/// The messages the first `upto` commands put on the deferred queue. A
/// `Paint` send is refused: only the paint pass may deliver `Paint`.
pub open spec fn sends_of_commands(cmds: Seq<Command>, upto: int) -> Seq<(HWND, Message)>
    decreases upto,
{
    if upto <= 0 {
        Seq::empty()
    } else {
        sends_of_commands(cmds, upto - 1) + match cmds[upto - 1] {
            Command::Send(h, m) => if m == Message::Paint {
                Seq::empty()
            } else {
                seq![(h, m)]
            },
            _ => Seq::empty(),
        }
    }
}

/// The structural operations the first `upto` commands queue for the tick.
pub open spec fn structurals_of_commands(cmds: Seq<Command>, upto: int) -> Seq<StructuralOp>
    decreases upto,
{
    if upto <= 0 {
        Seq::empty()
    } else {
        structurals_of_commands(cmds, upto - 1) + match cmds[upto - 1] {
            Command::Create { class, caption, styles, rect, parent, procedure } => seq![
                StructuralOp::Create { class, caption, styles, rect, parent, procedure },
            ],
            Command::Destroy(h) => seq![StructuralOp::Destroy(h)],
            _ => Seq::empty(),
        }
    }
}

/// The rectangles the first `upto` commands queue for repaint, resolved
/// against the window list `ws` (an invalidation of a vanished window is
/// dropped).
pub open spec fn invalidates_of_commands(ws: Seq<Window>, cmds: Seq<Command>, upto: int) -> Seq<
    Rect,
>
    decreases upto,
{
    if upto <= 0 {
        Seq::empty()
    } else {
        invalidates_of_commands(ws, cmds, upto - 1) + match cmds[upto - 1] {
            Command::InvalidateRect(r) => seq![r],
            Command::InvalidateWindow(h) => if has_hwnd(ws, h) {
                seq![win_of(ws, h).rect]
            } else {
                Seq::empty()
            },
            _ => Seq::empty(),
        }
    }
}

/// Where the capture stands after the first `upto` commands: the last
/// capture command wins, and a capture of a window that may not hold it
/// clears the capture instead.
pub open spec fn captured_after_commands(
    ws: Seq<Window>,
    cmds: Seq<Command>,
    upto: int,
    cap: Option<HWND>,
) -> Option<HWND>
    decreases upto,
{
    if upto <= 0 {
        cap
    } else {
        match cmds[upto - 1] {
            Command::CaptureMouse(h) => if capture_ok(ws, h) {
                Some(h)
            } else {
                None
            },
            Command::UncaptureMouse => None,
            _ => captured_after_commands(ws, cmds, upto - 1, cap),
        }
    }
}

/// Messages on which no procedure of the closed set issues any command: the
/// lifecycle notifications, plain pointer movement, and the key, text and
/// user messages. (Focus, press and hover messages make widgets invalidate,
/// capture or notify; `Paint` makes them enqueue draw operations.)
pub open spec fn command_silent_message(m: Message) -> bool {
    match m {
        Message::Create => true,
        Message::Destroy => true,
        Message::MouseMove => true,
        Message::KeyDown(_) => true,
        Message::KeyUp(_) => true,
        Message::TextInput => true,
        Message::StylesChanged => true,
        Message::User(_, _) => true,
        _ => false,
    }
}

/// The commands the closed procedure set issues: which effects a window of
/// class `procedure` asks for on `message`, given its current record.
pub open spec fn proc_commands(
    procedure: Procedure,
    hwnd: HWND,
    root: HWND,
    rect: Rect,
    caption: String,
    data: Option<UserData>,
    message: Message,
) -> Seq<Command> {
    match procedure {
        Procedure::Silent => Seq::empty(),
        Procedure::TopLevel => crate::controls::window::window_commands(rect, message),
        Procedure::Button => crate::controls::button::button_commands(
            hwnd,
            root,
            rect,
            caption,
            data,
            message,
        ),
        Procedure::Textbox => crate::controls::textbox::textbox_commands(
            hwnd,
            rect,
            data,
            message,
        ),
    }
}

/// The commands window `w` issues on `message`, with `root` the root
/// window's handle.
pub open spec fn window_commands_on(w: Window, root: HWND, message: Message) -> Seq<Command> {
    proc_commands(w.procedure, w.hwnd, root, w.rect, w.caption, w.user_data, message)
}

/// The commands a delivery of `message` to `hwnd` in context `u` runs:
/// those of the target window, with the first window as root. Meaningful
/// when the target is live.
pub open spec fn deliver_commands(u: Ugui, hwnd: HWND, message: Message) -> Seq<Command> {
    window_commands_on(win_of(u.windows@, hwnd), u.windows@[0].hwnd, message)
}

/// The root window's handle: the first window's. The value for an empty
/// registry is immaterial; every use guards on a live target, which implies
/// a first window.
pub open spec fn root_of(ws: Seq<Window>) -> HWND {
    if ws.len() > 0 {
        ws[0].hwnd
    } else {
        0
    }
}

/// The quad draw operations one paint pass over `rect` collects from the
/// first `upto` windows: each visible window whose bounds intersect the clip
/// contributes its class's paint quads, in creation order, tagged with
/// `rect` as clip.
pub open spec fn paint_pass_quads(ws: Seq<Window>, root: HWND, upto: int, rect: Rect) -> Seq<
    QuadDrawOp,
>
    decreases upto,
{
    if upto <= 0 {
        Seq::empty()
    } else {
        paint_pass_quads(ws, root, upto - 1, rect) + (if ws[upto - 1].styles.visible && ws[upto
            - 1].rect.spec_intersects(rect) {
            quads_of_commands(
                window_commands_on(ws[upto - 1], root, Message::Paint),
                window_commands_on(ws[upto - 1], root, Message::Paint).len() as int,
                Some(rect),
            )
        } else {
            Seq::empty()
        })
    }
}

/// The text draw operations one paint pass over `rect` collects from the
/// first `upto` windows.
pub open spec fn paint_pass_texts(ws: Seq<Window>, root: HWND, upto: int, rect: Rect) -> Seq<
    TextDrawOp,
>
    decreases upto,
{
    if upto <= 0 {
        Seq::empty()
    } else {
        paint_pass_texts(ws, root, upto - 1, rect) + (if ws[upto - 1].styles.visible && ws[upto
            - 1].rect.spec_intersects(rect) {
            texts_of_commands(
                window_commands_on(ws[upto - 1], root, Message::Paint),
                window_commands_on(ws[upto - 1], root, Message::Paint).len() as int,
                Some(rect),
            )
        } else {
            Seq::empty()
        })
    }
}

/// The quad draw operations a whole end-of-tick paint pass collects: the
/// first `upto` queued dirty rectangles, in insertion order, each a full
/// pass over the window list.
pub open spec fn frame_quads(ws: Seq<Window>, root: HWND, rects: Seq<Rect>, upto: int) -> Seq<
    QuadDrawOp,
>
    decreases upto,
{
    if upto <= 0 {
        Seq::empty()
    } else {
        frame_quads(ws, root, rects, upto - 1) + paint_pass_quads(
            ws,
            root,
            ws.len() as int,
            rects[upto - 1],
        )
    }
}

/// The text draw operations a whole end-of-tick paint pass collects.
pub open spec fn frame_texts(ws: Seq<Window>, root: HWND, rects: Seq<Rect>, upto: int) -> Seq<
    TextDrawOp,
>
    decreases upto,
{
    if upto <= 0 {
        Seq::empty()
    } else {
        frame_texts(ws, root, rects, upto - 1) + paint_pass_texts(
            ws,
            root,
            ws.len() as int,
            rects[upto - 1],
        )
    }
}

/// The exact effect of delivering `message` to the live window `hwnd`: the
/// target's stored state steps by its class's transition function, and every
/// queue and the capture receive precisely the fold of the class's commands.
/// Nothing else of the context moves.
pub open spec fn delivered(u: Ugui, v: Ugui, hwnd: HWND, message: Message) -> bool {
    let w = win_of(u.windows@, hwnd);
    let cmds = deliver_commands(u, hwnd, message);
    &&& v.windows@ == u.windows@.update(
        idx_of(u.windows@, hwnd),
        Window {
            user_data: proc_data_after(w.procedure, w.user_data, w.styles, message),
            ..w
        },
    )
    &&& v.message_queue@ == u.message_queue@ + sends_of_commands(cmds, cmds.len() as int)
    &&& v.pending_ops@ == u.pending_ops@ + structurals_of_commands(cmds, cmds.len() as int)
    &&& v.dirty_rects@ == u.dirty_rects@ + invalidates_of_commands(
        u.windows@,
        cmds,
        cmds.len() as int,
    )
    &&& v.quad_draw_ops@ == u.quad_draw_ops@ + quads_of_commands(
        cmds,
        cmds.len() as int,
        clip_top(u.clip_rects@),
    )
    &&& v.text_draw_ops@ == u.text_draw_ops@ + texts_of_commands(
        cmds,
        cmds.len() as int,
        clip_top(u.clip_rects@),
    )
    &&& v.captured_hwnd == captured_after_commands(
        u.windows@,
        cmds,
        cmds.len() as int,
        u.captured_hwnd,
    )
    &&& v.clip_rects == u.clip_rects
    &&& v.focused_hwnd == u.focused_hwnd
    &&& v.mouse_state == u.mouse_state
    &&& v.next_hwnd == u.next_hwnd
    &&& v.last_text_input == u.last_text_input
}

/// A ghost snapshot of everything a tick's drain can touch, over
/// mathematical sequences: the model the drain's fold is stated on. The
/// pointer state, the typed text and the clip stack never move during a
/// drain; the clip active at entry is carried for the draw operations queued
/// messages may enqueue.
pub struct DrainState {
    pub windows: Seq<Window>,
    pub next_hwnd: HWND,
    pub message_queue: Seq<(HWND, Message)>,
    pub pending_ops: Seq<StructuralOp>,
    pub captured_hwnd: Option<HWND>,
    pub focused_hwnd: Option<HWND>,
    pub dirty_rects: Seq<Rect>,
    pub quad_draw_ops: Seq<QuadDrawOp>,
    pub text_draw_ops: Seq<TextDrawOp>,
    pub clip: Option<Rect>,
}

/// One delivery, on the model: exactly `delivered`, and a no-op on a
/// vanished target.
pub open spec fn step_deliver(m: DrainState, hwnd: HWND, message: Message) -> DrainState {
    if !has_hwnd(m.windows, hwnd) {
        m
    } else {
        let w = win_of(m.windows, hwnd);
        let cmds = window_commands_on(w, root_of(m.windows), message);
        DrainState {
            windows: m.windows.update(
                idx_of(m.windows, hwnd),
                Window {
                    user_data: proc_data_after(w.procedure, w.user_data, w.styles, message),
                    ..w
                },
            ),
            message_queue: m.message_queue + sends_of_commands(cmds, cmds.len() as int),
            pending_ops: m.pending_ops + structurals_of_commands(cmds, cmds.len() as int),
            dirty_rects: m.dirty_rects + invalidates_of_commands(
                m.windows,
                cmds,
                cmds.len() as int,
            ),
            quad_draw_ops: m.quad_draw_ops + quads_of_commands(cmds, cmds.len() as int, m.clip),
            text_draw_ops: m.text_draw_ops + texts_of_commands(cmds, cmds.len() as int, m.clip),
            captured_hwnd: captured_after_commands(
                m.windows,
                cmds,
                cmds.len() as int,
                m.captured_hwnd,
            ),
            ..m
        }
    }
}

/// One window creation, on the model: exactly `create_window`'s effect.
pub open spec fn step_create(
    m: DrainState,
    class: String,
    caption: String,
    styles: StyleSet,
    rect: Rect,
    parent: Option<HWND>,
    procedure: Procedure,
) -> DrainState {
    if parent matches Some(p) && !has_hwnd(m.windows, p) {
        m
    } else {
        DrainState {
            windows: m.windows.push(
                Window {
                    hwnd: m.next_hwnd,
                    class,
                    caption,
                    styles,
                    rect,
                    parent,
                    procedure,
                    user_data: proc_data_after(
                        procedure,
                        proc_data_after(procedure, None, styles, Message::StylesChanged),
                        styles,
                        Message::Create,
                    ),
                },
            ),
            next_hwnd: (m.next_hwnd + 1) as HWND,
            dirty_rects: m.dirty_rects.push(rect),
            ..m
        }
    }
}

/// One window destruction, on the model: exactly `destroy_window`'s effect,
/// and a no-op on a vanished target.
pub open spec fn step_destroy(m: DrainState, hwnd: HWND) -> DrainState {
    if !has_hwnd(m.windows, hwnd) {
        m
    } else {
        let w = win_of(m.windows, hwnd);
        let cleared = StyleSet { visible: false, enabled: false, focusable: false };
        let hidden = m.windows.update(
            idx_of(m.windows, hwnd),
            Window {
                styles: cleared,
                user_data: proc_data_after(
                    w.procedure,
                    w.user_data,
                    cleared,
                    Message::StylesChanged,
                ),
                ..w
            },
        );
        DrainState {
            windows: m.windows.remove(idx_of(m.windows, hwnd)),
            focused_hwnd: if m.focused_hwnd == Some(hwnd) {
                None
            } else {
                m.focused_hwnd
            },
            captured_hwnd: if m.captured_hwnd == Some(hwnd) {
                None
            } else {
                m.captured_hwnd
            },
            dirty_rects: m.dirty_rects.push(w.rect),
            quad_draw_ops: m.quad_draw_ops + paint_pass_quads(
                hidden,
                root_of(m.windows),
                m.windows.len() as int,
                w.rect,
            ),
            text_draw_ops: m.text_draw_ops + paint_pass_texts(
                hidden,
                root_of(m.windows),
                m.windows.len() as int,
                w.rect,
            ),
            ..m
        }
    }
}

/// Delivering the first `upto` messages of `batch`, in order.
pub open spec fn run_messages(m: DrainState, batch: Seq<(HWND, Message)>, upto: int) -> DrainState
    decreases upto,
{
    if upto <= 0 {
        m
    } else {
        step_deliver(run_messages(m, batch, upto - 1), batch[upto - 1].0, batch[upto - 1].1)
    }
}

/// Running the first `upto` structural operations of `ops`, in order. A
/// creation is skipped when the handle counter is exhausted; a destruction
/// of a window that vanished earlier in the drain is skipped.
pub open spec fn run_structural_ops(m: DrainState, ops: Seq<StructuralOp>, upto: int) -> DrainState
    decreases upto,
{
    if upto <= 0 {
        m
    } else {
        let prev = run_structural_ops(m, ops, upto - 1);
        match ops[upto - 1] {
            StructuralOp::Create { class, caption, styles, rect, parent, procedure } => if prev.next_hwnd
                < usize::MAX {
                step_create(prev, class, caption, styles, rect, parent, procedure)
            } else {
                prev
            },
            StructuralOp::Destroy(h) => step_destroy(prev, h),
        }
    }
}

/// One whole drain: the queued messages are taken as a stable snapshot and
/// delivered in FIFO order (messages they queue wait for the next tick),
/// then the structural operations queued so far are taken the same way and
/// run in order.
pub open spec fn drained(m: DrainState) -> DrainState {
    let m1 = run_messages(
        DrainState { message_queue: Seq::empty(), ..m },
        m.message_queue,
        m.message_queue.len() as int,
    );
    run_structural_ops(
        DrainState { pending_ops: Seq::empty(), ..m1 },
        m1.pending_ops,
        m1.pending_ops.len() as int,
    )
}

/// The composite decision, on the model: with nothing dirty, nothing moves;
/// otherwise the dirty queue and both draw-operation queues are cleared.
pub open spec fn composited(m: DrainState) -> DrainState {
    if m.dirty_rects.len() == 0 {
        m
    } else {
        DrainState {
            dirty_rects: Seq::empty(),
            quad_draw_ops: Seq::empty(),
            text_draw_ops: Seq::empty(),
            ..m
        }
    }
}

/// The quad operations a composite of `m` flushes.
pub open spec fn frame_quads_of(m: DrainState) -> Seq<QuadDrawOp> {
    m.quad_draw_ops + frame_quads(
        m.windows,
        root_of(m.windows),
        m.dirty_rects,
        m.dirty_rects.len() as int,
    )
}

/// The text operations a composite of `m` flushes.
pub open spec fn frame_texts_of(m: DrainState) -> Seq<TextDrawOp> {
    m.text_draw_ops + frame_texts(
        m.windows,
        root_of(m.windows),
        m.dirty_rects,
        m.dirty_rects.len() as int,
    )
}

/// Whether `w`'s parent, if any, was created before `w`. Creation order
/// guarantees this, and it bounds every walk up a parent chain.
pub open spec fn parent_below(w: Window) -> bool {
    match w.parent {
        None => true,
        Some(p) => p < w.hwnd,
    }
}

/// Everything of a window but the user data its procedure stores between
/// messages: delivering a message may change that data, nothing else.
pub open spec fn shape_eq(a: Window, b: Window) -> bool {
    &&& a.hwnd == b.hwnd
    &&& a.class == b.class
    &&& a.caption == b.caption
    &&& a.styles == b.styles
    &&& a.rect == b.rect
    &&& a.parent == b.parent
    &&& a.procedure == b.procedure
}

/// The two window lists hold the same windows, in the same order, with the
/// same shape; only user data may differ.
pub open spec fn same_shape(a: Seq<Window>, b: Seq<Window>) -> bool {
    &&& b.len() == a.len()
    &&& forall|i: int| 0 <= i < a.len() ==> shape_eq(a[i], #[trigger] b[i])
}

/// The application context: the window registry, the deferred message queue,
/// the input translator's state, and the paint pipeline's queues.
pub struct Ugui {
    /// The live windows, in creation order; creation order is z-order.
    pub windows: Vec<Window>,
    /// The handle the next created window receives; handles are never reused.
    pub next_hwnd: HWND,
    /// Messages queued for the next tick's drain. Never holds `Paint`.
    pub message_queue: Vec<(HWND, Message)>,
    /// Window creations and destructions queued by procedures, run between
    /// the message drain and the paint pass of a tick.
    pub pending_ops: Vec<StructuralOp>,
    /// The window all pointer input is routed to, bypassing hit-testing.
    pub captured_hwnd: Option<HWND>,
    /// The window key and text input is routed to.
    pub focused_hwnd: Option<HWND>,
    /// The text most recently typed by the user.
    pub last_text_input: String,
    /// Regions of the root window's space queued for repaint.
    pub dirty_rects: Vec<Rect>,
    /// The pointer state, as the event translator keeps it.
    pub mouse_state: MouseState,
    /// Quad draw operations accumulated since the last composite.
    pub quad_draw_ops: Vec<QuadDrawOp>,
    /// Text draw operations accumulated since the last composite.
    pub text_draw_ops: Vec<TextDrawOp>,
    /// The stack of clip rectangles; draw operations inherit the top.
    pub clip_rects: Vec<Rect>,
}

impl Ugui {
    /// The registry's invariant: handles are unique and below the allocation
    /// counter, parents were created before their children, the capture and
    /// focus handles point at windows that may hold them, and `Paint` is
    /// never in the deferred queue.
    pub open spec fn wf(self) -> bool {
        &&& handles_unique(self.windows@)
        &&& forall|i: int|
            0 <= i < self.windows@.len() ==> (#[trigger] self.windows@[i]).hwnd < self.next_hwnd
        &&& forall|i: int| 0 <= i < self.windows@.len() ==> parent_below(#[trigger] self.windows@[i])
        &&& focus_ok_opt(self.windows@, self.focused_hwnd)
        &&& capture_ok_opt(self.windows@, self.captured_hwnd)
        &&& no_paint_queued(self.message_queue@)
    }

    /// The context's drain model: the views of everything a tick's drain can
    /// touch, plus the clip a draw operation issued now would inherit.
    pub open spec fn drain_state(self) -> DrainState {
        DrainState {
            windows: self.windows@,
            next_hwnd: self.next_hwnd,
            message_queue: self.message_queue@,
            pending_ops: self.pending_ops@,
            captured_hwnd: self.captured_hwnd,
            focused_hwnd: self.focused_hwnd,
            dirty_rects: self.dirty_rects@,
            quad_draw_ops: self.quad_draw_ops@,
            text_draw_ops: self.text_draw_ops@,
            clip: clip_top(self.clip_rects@),
        }
    }

    /// A context with no windows, empty queues, and no capture or focus.
    pub open spec fn is_fresh(self) -> bool {
        &&& self.windows@.len() == 0
        &&& self.next_hwnd == 0
        &&& self.message_queue@.len() == 0
        &&& self.pending_ops@.len() == 0
        &&& self.captured_hwnd is None
        &&& self.focused_hwnd is None
        &&& self.last_text_input@ == Seq::<char>::empty()
        &&& self.dirty_rects@.len() == 0
        &&& self.mouse_state == (MouseState {
            pos: Point { x: 0, y: 0 },
            last_pos: Point { x: 0, y: 0 },
            lmb_down_pos: Point { x: 0, y: 0 },
            lmb: false,
            rmb: false,
            mmb: false,
        })
        &&& self.quad_draw_ops@.len() == 0
        &&& self.text_draw_ops@.len() == 0
        &&& self.clip_rects@.len() == 0
    }

    pub fn new() -> (r: Ugui)
        ensures
            r.wf(),
            r.is_fresh(),
    {
        Ugui {
            windows: Vec::new(),
            next_hwnd: 0,
            message_queue: Vec::new(),
            pending_ops: Vec::new(),
            captured_hwnd: None,
            focused_hwnd: None,
            last_text_input: String::new(),
            dirty_rects: Vec::new(),
            mouse_state: MouseState {
                pos: Point { x: 0, y: 0 },
                last_pos: Point { x: 0, y: 0 },
                lmb_down_pos: Point { x: 0, y: 0 },
                lmb: false,
                rmb: false,
                mmb: false,
            },
            quad_draw_ops: Vec::new(),
            text_draw_ops: Vec::new(),
            clip_rects: Vec::new(),
        }
    }

    /// Gets the current mouse state.
    pub fn mouse_state(&self) -> (r: MouseState)
        ensures
            r == self.mouse_state,
    {
        self.mouse_state
    }

    /// Gets the focused window.
    pub fn get_focus(&self) -> (r: Option<HWND>)
        ensures
            r == self.focused_hwnd,
    {
        self.focused_hwnd
    }

    /// Gets the captured window.
    pub fn get_capture(&self) -> (r: Option<HWND>)
        ensures
            r == self.captured_hwnd,
    {
        self.captured_hwnd
    }

    /// Gets the most recent typed text.
    pub fn typed_text(&self) -> (r: &str)
        ensures
            r@ == self.last_text_input@,
    {
        self.last_text_input.as_str()
    }

    /// Gets the top-level window's handle: the first window created.
    pub fn root_hwnd(&self) -> (r: HWND)
        requires
            self.windows@.len() > 0,
        ensures
            r == self.windows@[0].hwnd,
    {
        self.windows[0].hwnd
    }

    /// The messages waiting for the next tick's drain. `Paint` is never
    /// among them.
    pub fn queued_messages(&self) -> (r: &Vec<(HWND, Message)>)
        requires
            self.wf(),
        ensures
            r == self.message_queue,
            no_paint_queued(r@),
    {
        &self.message_queue
    }

    /// The handle of the topmost visible window containing `point`, if any.
    pub fn window_at(&self, point: Point) -> (r: Option<HWND>)
        ensures
            match r {
                Some(h) => hit_index(self.windows@, point) >= 0 && h == self.windows@[hit_index(
                    self.windows@,
                    point,
                )].hwnd,
                None => hit_index(self.windows@, point) == -1,
            },
    {
        match window_at_point(&self.windows, point) {
            Some(w) => Some(w.hwnd),
            None => None,
        }
    }

    /// Invalidates a rectangle, queueing everything inside it for repaint at
    /// the end of the tick.
    pub fn invalidate_rect(&mut self, rect: Rect)
        requires
            old(self).wf(),
        ensures
            final(self).wf(),
            *final(self) == (Ugui { dirty_rects: final(self).dirty_rects, ..*old(self) }),
            final(self).dirty_rects@ == old(self).dirty_rects@.push(rect),
    {
        self.dirty_rects.push(rect);
    }

    /// Invalidates a window's current bounds.
    pub fn invalidate_hwnd(&mut self, hwnd: HWND)
        requires
            old(self).wf(),
            has_hwnd(old(self).windows@, hwnd),
        ensures
            final(self).wf(),
            *final(self) == (Ugui { dirty_rects: final(self).dirty_rects, ..*old(self) }),
            final(self).dirty_rects@ == old(self).dirty_rects@.push(
                win_of(old(self).windows@, hwnd).rect,
            ),
    {
        let i = match index_of_hwnd(&self.windows, hwnd) {
            Some(i) => i,
            None => {
                proof {
                    assert(false);
                }
                unreached()
            },
        };
        let rect = self.windows[i].rect;
        self.dirty_rects.push(rect);
    }

    /// Captures the mouse for `hwnd`: all pointer input is routed there
    /// until capture is released. A handle that may not hold the capture
    /// (not live, not visible, or not enabled) clears it instead.
    pub fn capture_mouse(&mut self, hwnd: HWND)
        requires
            old(self).wf(),
        ensures
            final(self).wf(),
            *final(self) == (Ugui { captured_hwnd: final(self).captured_hwnd, ..*old(self) }),
            final(self).captured_hwnd == (if capture_ok(old(self).windows@, hwnd) {
                Some(hwnd)
            } else {
                None::<HWND>
            }),
    {
        let valid = match crate::util::window_from_hwnd_safe(&self.windows, hwnd) {
            Some(w) => w.styles.visible && w.styles.enabled,
            None => false,
        };
        self.captured_hwnd = if valid {
            Some(hwnd)
        } else {
            None
        };
    }

    /// Releases mouse capture, resuming normal pointer routing.
    pub fn uncapture_mouse(&mut self, _hwnd: HWND)
        requires
            old(self).wf(),
        ensures
            final(self).wf(),
            *final(self) == (Ugui { captured_hwnd: None, ..*old(self) }),
    {
        self.captured_hwnd = None;
    }

    /// Gets a window's styles.
    pub fn get_window_style(&self, hwnd: HWND) -> (r: StyleSet)
        requires
            self.wf(),
            has_hwnd(self.windows@, hwnd),
        ensures
            r == win_of(self.windows@, hwnd).styles,
    {
        let w = crate::util::window_from_hwnd(&self.windows, hwnd);
        w.styles
    }

    /// Gets a window's styles.
    pub fn get_styles(&self, hwnd: HWND) -> (r: StyleSet)
        requires
            self.wf(),
            has_hwnd(self.windows@, hwnd),
        ensures
            r == win_of(self.windows@, hwnd).styles,
    {
        let w = crate::util::window_from_hwnd(&self.windows, hwnd);
        w.styles
    }

    /// Gets a window's bounds.
    pub fn get_window_rect(&self, hwnd: HWND) -> (r: Rect)
        requires
            self.wf(),
            has_hwnd(self.windows@, hwnd),
        ensures
            r == win_of(self.windows@, hwnd).rect,
    {
        let w = crate::util::window_from_hwnd(&self.windows, hwnd);
        w.rect
    }

    /// Gets a window's parent, `None` for a top-level window.
    pub fn get_parent(&self, hwnd: HWND) -> (r: Option<HWND>)
        requires
            self.wf(),
            has_hwnd(self.windows@, hwnd),
        ensures
            r == win_of(self.windows@, hwnd).parent,
    {
        let w = crate::util::window_from_hwnd(&self.windows, hwnd);
        w.parent
    }

    /// Gets a window's caption.
    pub fn get_caption(&self, hwnd: HWND) -> (r: String)
        requires
            self.wf(),
            has_hwnd(self.windows@, hwnd),
        ensures
            r == win_of(self.windows@, hwnd).caption,
    {
        let w = crate::util::window_from_hwnd(&self.windows, hwnd);
        w.caption.clone()
    }

    /// Gets the user data stored on a window.
    pub fn get_data(&self, hwnd: HWND) -> (r: Option<UserData>)
        requires
            self.wf(),
            has_hwnd(self.windows@, hwnd),
        ensures
            r == win_of(self.windows@, hwnd).user_data,
    {
        let w = crate::util::window_from_hwnd(&self.windows, hwnd);
        w.user_data
    }

    /// Stores user data on a window.
    pub fn set_data(&mut self, hwnd: HWND, value: Option<UserData>)
        requires
            old(self).wf(),
            has_hwnd(old(self).windows@, hwnd),
        ensures
            final(self).wf(),
            *final(self) == (Ugui { windows: final(self).windows, ..*old(self) }),
            final(self).windows@ == old(self).windows@.update(
                idx_of(old(self).windows@, hwnd),
                Window { user_data: value, ..old(self).windows@[idx_of(old(self).windows@, hwnd)] },
            ),
    {
        let i = match index_of_hwnd(&self.windows, hwnd) {
            Some(i) => i,
            None => {
                proof {
                    assert(false);
                }
                unreached()
            },
        };
        self.windows[i].user_data = value;
        proof {
            lemma_user_data_update_wf(*old(self), *self, i as int);
        }
    }
}

/// What one message delivery may do to the context besides answering: it may
/// change user data on windows (never their shape), append non-`Paint`
/// messages to the queue, queue structural operations and dirty rectangles,
/// enqueue draw operations, and move the capture. It never touches the clip
/// stack, focus, the mouse state, the handle counter, or the typed text.
pub open spec fn dispatch_frame(a: Ugui, b: Ugui) -> bool {
    &&& same_shape(a.windows@, b.windows@)
    &&& queue_extended(a.message_queue@, b.message_queue@)
    &&& a.dirty_rects@.is_prefix_of(b.dirty_rects@)
    &&& a.pending_ops@.is_prefix_of(b.pending_ops@)
    &&& a.quad_draw_ops@.is_prefix_of(b.quad_draw_ops@)
    &&& a.text_draw_ops@.is_prefix_of(b.text_draw_ops@)
    &&& b.clip_rects == a.clip_rects
    &&& b.focused_hwnd == a.focused_hwnd
    &&& b.mouse_state == a.mouse_state
    &&& b.next_hwnd == a.next_hwnd
    &&& b.last_text_input == a.last_text_input
}

/// What a whole paint pass or tick phase may do: like a dispatch, but stated
/// over the clip stack's contents (the pass pushes and pops its clip, ending
/// where it began) and allowing the handle counter to grow (queued creations
/// run during a tick).
pub open spec fn pump_frame(a: Ugui, b: Ugui) -> bool {
    &&& a.dirty_rects@.is_prefix_of(b.dirty_rects@)
    &&& a.quad_draw_ops@.is_prefix_of(b.quad_draw_ops@)
    &&& a.text_draw_ops@.is_prefix_of(b.text_draw_ops@)
    &&& b.clip_rects@ == a.clip_rects@
    &&& b.mouse_state == a.mouse_state
    &&& b.next_hwnd >= a.next_hwnd
    &&& b.last_text_input == a.last_text_input
}

proof fn lemma_prefix_refl<T>(s: Seq<T>)
    ensures
        s.is_prefix_of(s),
{
    assert(s =~= s.subrange(0, s.len() as int));
}

proof fn lemma_prefix_push<T>(a: Seq<T>, b: Seq<T>, x: T)
    requires
        a.is_prefix_of(b),
    ensures
        a.is_prefix_of(b.push(x)),
{
    assert(a =~= b.push(x).subrange(0, a.len() as int));
}

proof fn lemma_prefix_concat<T>(a: Seq<T>, b: Seq<T>)
    ensures
        a.is_prefix_of(a + b),
{
    assert(a =~= (a + b).subrange(0, a.len() as int));
}

proof fn lemma_prefix_trans<T>(a: Seq<T>, b: Seq<T>, c: Seq<T>)
    requires
        a.is_prefix_of(b),
        b.is_prefix_of(c),
    ensures
        a.is_prefix_of(c),
{
    assert(a =~= c.subrange(0, a.len() as int));
}

proof fn lemma_pump_frame_refl(a: Ugui)
    ensures
        pump_frame(a, a),
{
    lemma_prefix_refl(a.dirty_rects@);
    lemma_prefix_refl(a.quad_draw_ops@);
    lemma_prefix_refl(a.text_draw_ops@);
}

proof fn lemma_pump_frame_trans(a: Ugui, b: Ugui, c: Ugui)
    requires
        pump_frame(a, b),
        pump_frame(b, c),
    ensures
        pump_frame(a, c),
{
    lemma_prefix_trans(a.dirty_rects@, b.dirty_rects@, c.dirty_rects@);
    lemma_prefix_trans(a.quad_draw_ops@, b.quad_draw_ops@, c.quad_draw_ops@);
    lemma_prefix_trans(a.text_draw_ops@, b.text_draw_ops@, c.text_draw_ops@);
}

/// A dispatch keeps everything a pump phase keeps.
proof fn lemma_dispatch_to_pump_frame(a: Ugui, b: Ugui)
    requires
        dispatch_frame(a, b),
    ensures
        pump_frame(a, b),
{
}

proof fn lemma_dispatch_frame_refl(a: Ugui)
    ensures
        dispatch_frame(a, a),
{
    lemma_prefix_refl(a.message_queue@);
    lemma_prefix_refl(a.dirty_rects@);
    lemma_prefix_refl(a.pending_ops@);
    lemma_prefix_refl(a.quad_draw_ops@);
    lemma_prefix_refl(a.text_draw_ops@);
}

proof fn lemma_dispatch_frame_trans(a: Ugui, b: Ugui, c: Ugui)
    requires
        dispatch_frame(a, b),
        dispatch_frame(b, c),
    ensures
        dispatch_frame(a, c),
{
    lemma_prefix_trans(a.message_queue@, b.message_queue@, c.message_queue@);
    lemma_prefix_trans(a.dirty_rects@, b.dirty_rects@, c.dirty_rects@);
    lemma_prefix_trans(a.pending_ops@, b.pending_ops@, c.pending_ops@);
    lemma_prefix_trans(a.quad_draw_ops@, b.quad_draw_ops@, c.quad_draw_ops@);
    lemma_prefix_trans(a.text_draw_ops@, b.text_draw_ops@, c.text_draw_ops@);
    assert forall|k: int|
        a.message_queue@.len() <= k < c.message_queue@.len() implies (#[trigger] c.message_queue@[k]).1
        != Message::Paint by {
        if k < b.message_queue@.len() {
            assert(b.message_queue@ =~= c.message_queue@.subrange(
                0,
                b.message_queue@.len() as int,
            ));
            assert(c.message_queue@[k] == b.message_queue@[k]);
        }
    }
}

impl Ugui {
    /// Applies the commands a procedure returned: paint and invalidation
    /// effects immediately (paint operations inherit the clip active now),
    /// message sends onto the deferred queue (`Paint` is refused there),
    /// creations and destructions onto the structural queue. The new state is
    /// fixed exactly: each queue receives precisely the fold of the command
    /// list, and the capture moves as the last capture command says.
    fn apply_commands(&mut self, commands: Vec<Command>)
        requires
            old(self).wf(),
        ensures
            final(self).wf(),
            dispatch_frame(*old(self), *final(self)),
            final(self).windows == old(self).windows,
            final(self).message_queue@ == old(self).message_queue@ + sends_of_commands(
                commands@,
                commands@.len() as int,
            ),
            final(self).pending_ops@ == old(self).pending_ops@ + structurals_of_commands(
                commands@,
                commands@.len() as int,
            ),
            final(self).dirty_rects@ == old(self).dirty_rects@ + invalidates_of_commands(
                old(self).windows@,
                commands@,
                commands@.len() as int,
            ),
            final(self).quad_draw_ops@ == old(self).quad_draw_ops@ + quads_of_commands(
                commands@,
                commands@.len() as int,
                clip_top(old(self).clip_rects@),
            ),
            final(self).text_draw_ops@ == old(self).text_draw_ops@ + texts_of_commands(
                commands@,
                commands@.len() as int,
                clip_top(old(self).clip_rects@),
            ),
            final(self).captured_hwnd == captured_after_commands(
                old(self).windows@,
                commands@,
                commands@.len() as int,
                old(self).captured_hwnd,
            ),
            (forall|j: int| 0 <= j < commands@.len() ==> !cmd_queues_message(#[trigger] commands@[j]))
                ==> final(self).message_queue == old(self).message_queue,
            (forall|j: int| 0 <= j < commands@.len() ==> !cmd_structural(#[trigger] commands@[j]))
                ==> final(self).pending_ops == old(self).pending_ops,
            (forall|j: int| 0 <= j < commands@.len() ==> !cmd_moves_capture(#[trigger] commands@[j]))
                ==> final(self).captured_hwnd == old(self).captured_hwnd,
            (forall|j: int| 0 <= j < commands@.len() ==> !cmd_invalidates(#[trigger] commands@[j]))
                ==> final(self).dirty_rects == old(self).dirty_rects,
            (forall|j: int| 0 <= j < commands@.len() ==> !cmd_paints(#[trigger] commands@[j]))
                ==> final(self).quad_draw_ops == old(self).quad_draw_ops
                && final(self).text_draw_ops == old(self).text_draw_ops,
    {
        proof {
            lemma_dispatch_frame_refl(*self);
        }
        let mut k: usize = 0;
        while k < commands.len()
            invariant
                k <= commands@.len(),
                old(self).wf(),
                self.wf(),
                dispatch_frame(*old(self), *self),
                self.windows == old(self).windows,
                self.message_queue@ == old(self).message_queue@ + sends_of_commands(
                    commands@,
                    k as int,
                ),
                self.pending_ops@ == old(self).pending_ops@ + structurals_of_commands(
                    commands@,
                    k as int,
                ),
                self.dirty_rects@ == old(self).dirty_rects@ + invalidates_of_commands(
                    old(self).windows@,
                    commands@,
                    k as int,
                ),
                self.quad_draw_ops@ == old(self).quad_draw_ops@ + quads_of_commands(
                    commands@,
                    k as int,
                    clip_top(old(self).clip_rects@),
                ),
                self.text_draw_ops@ == old(self).text_draw_ops@ + texts_of_commands(
                    commands@,
                    k as int,
                    clip_top(old(self).clip_rects@),
                ),
                self.captured_hwnd == captured_after_commands(
                    old(self).windows@,
                    commands@,
                    k as int,
                    old(self).captured_hwnd,
                ),
                (forall|j: int| 0 <= j < k ==> !cmd_queues_message(#[trigger] commands@[j]))
                    ==> self.message_queue == old(self).message_queue,
                (forall|j: int| 0 <= j < k ==> !cmd_structural(#[trigger] commands@[j]))
                    ==> self.pending_ops == old(self).pending_ops,
                (forall|j: int| 0 <= j < k ==> !cmd_moves_capture(#[trigger] commands@[j]))
                    ==> self.captured_hwnd == old(self).captured_hwnd,
                (forall|j: int| 0 <= j < k ==> !cmd_invalidates(#[trigger] commands@[j]))
                    ==> self.dirty_rects == old(self).dirty_rects,
                (forall|j: int| 0 <= j < k ==> !cmd_paints(#[trigger] commands@[j]))
                    ==> self.quad_draw_ops == old(self).quad_draw_ops
                    && self.text_draw_ops == old(self).text_draw_ops,
            decreases commands@.len() - k,
        {
            let ghost before = *self;
            match &commands[k] {
                Command::InvalidateRect(rect) => {
                    self.dirty_rects.push(*rect);
                    proof {
                        lemma_prefix_push(old(self).dirty_rects@, before.dirty_rects@, *rect);
                        assert(self.dirty_rects@ =~= old(self).dirty_rects@
                            + invalidates_of_commands(
                            old(self).windows@,
                            commands@,
                            k + 1,
                        ));
                    }
                },
                Command::InvalidateWindow(h) => {
                    match index_of_hwnd(&self.windows, *h) {
                        Some(i) => {
                            let rc = self.windows[i].rect;
                            self.dirty_rects.push(rc);
                            proof {
                                lemma_prefix_push(old(self).dirty_rects@, before.dirty_rects@, rc);
                                assert(self.dirty_rects@ =~= old(self).dirty_rects@
                                    + invalidates_of_commands(
                                    old(self).windows@,
                                    commands@,
                                    k + 1,
                                ));
                            }
                        },
                        None => {
                            proof {
                                assert(self.dirty_rects@ =~= old(self).dirty_rects@
                                    + invalidates_of_commands(
                                    old(self).windows@,
                                    commands@,
                                    k + 1,
                                ));
                            }
                        },
                    }
                },
                Command::CaptureMouse(h) => {
                    let valid = match crate::util::window_from_hwnd_safe(&self.windows, *h) {
                        Some(w) => w.styles.visible && w.styles.enabled,
                        None => false,
                    };
                    self.captured_hwnd = if valid {
                        Some(*h)
                    } else {
                        None
                    };
                },
                Command::UncaptureMouse => {
                    self.captured_hwnd = None;
                },
                Command::PaintQuad { rect, back_color, border_color, border_size } => {
                    let clip = if self.clip_rects.len() > 0 {
                        Some(self.clip_rects[self.clip_rects.len() - 1])
                    } else {
                        None
                    };
                    let op = QuadDrawOp {
                        rect: *rect,
                        clip_rect: clip,
                        back_color: *back_color,
                        border_color: *border_color,
                        border_size: *border_size,
                    };
                    self.quad_draw_ops.push(op);
                    proof {
                        lemma_prefix_push(old(self).quad_draw_ops@, before.quad_draw_ops@, op);
                        assert(clip == clip_top(old(self).clip_rects@));
                        assert(self.quad_draw_ops@ =~= old(self).quad_draw_ops@
                            + quads_of_commands(
                            commands@,
                            k + 1,
                            clip_top(old(self).clip_rects@),
                        ));
                    }
                },
                Command::PaintText { text, rect, color, h_align, v_align, size, line_height } => {
                    let clip = if self.clip_rects.len() > 0 {
                        Some(self.clip_rects[self.clip_rects.len() - 1])
                    } else {
                        None
                    };
                    let op = TextDrawOp {
                        rect: *rect,
                        clip_rect: clip,
                        color: *color,
                        text: text.clone(),
                        h_align: *h_align,
                        v_align: *v_align,
                        size: *size,
                        line_height: *line_height,
                    };
                    self.text_draw_ops.push(op);
                    proof {
                        lemma_prefix_push(
                            old(self).text_draw_ops@,
                            before.text_draw_ops@,
                            self.text_draw_ops@.last(),
                        );
                        assert(clip == clip_top(old(self).clip_rects@));
                        assert(self.text_draw_ops@ =~= old(self).text_draw_ops@
                            + texts_of_commands(
                            commands@,
                            k + 1,
                            clip_top(old(self).clip_rects@),
                        ));
                    }
                },
                Command::Send(h, m) => {
                    match m {
                        Message::Paint => {
                            proof {
                                assert(self.message_queue@ =~= old(self).message_queue@
                                    + sends_of_commands(commands@, k + 1));
                            }
                        },
                        _ => {
                            self.message_queue.push((*h, *m));
                            proof {
                                lemma_prefix_push(
                                    old(self).message_queue@,
                                    before.message_queue@,
                                    (*h, *m),
                                );
                                assert(self.message_queue@ =~= old(self).message_queue@
                                    + sends_of_commands(commands@, k + 1));
                            }
                        },
                    }
                },
                Command::Create { class, caption, styles, rect, parent, procedure } => {
                    let op = StructuralOp::Create {
                        class: class.clone(),
                        caption: caption.clone(),
                        styles: *styles,
                        rect: *rect,
                        parent: *parent,
                        procedure: *procedure,
                    };
                    self.pending_ops.push(op);
                    proof {
                        lemma_prefix_push(
                            old(self).pending_ops@,
                            before.pending_ops@,
                            self.pending_ops@.last(),
                        );
                        assert(self.pending_ops@ =~= old(self).pending_ops@
                            + structurals_of_commands(commands@, k + 1));
                    }
                },
                Command::Destroy(h) => {
                    self.pending_ops.push(StructuralOp::Destroy(*h));
                    proof {
                        lemma_prefix_push(
                            old(self).pending_ops@,
                            before.pending_ops@,
                            StructuralOp::Destroy(*h),
                        );
                        assert(self.pending_ops@ =~= old(self).pending_ops@
                            + structurals_of_commands(commands@, k + 1));
                    }
                },
            }
            k = k + 1;
        }
        proof {
            assert(self.message_queue@ =~= old(self).message_queue@ + sends_of_commands(
                commands@,
                commands@.len() as int,
            ));
        }
    }

    /// Looks the window up, invokes its procedure with `message`, stores the
    /// user data back, and applies the returned commands. Delivering to a
    /// vanished window is a no-op answering 0.
    fn deliver(&mut self, hwnd: HWND, message: Message) -> (r: u64)
        requires
            old(self).wf(),
        ensures
            final(self).wf(),
            dispatch_frame(*old(self), *final(self)),
            forall|i: int|
                0 <= i < old(self).windows@.len() && (#[trigger] old(self).windows@[i]).hwnd != hwnd
                    ==> final(self).windows@[i] == old(self).windows@[i],
            r == 0,
            !has_hwnd(old(self).windows@, hwnd) ==> *final(self) == *old(self),
            has_hwnd(old(self).windows@, hwnd) ==> final(self).windows@[idx_of(
                old(self).windows@,
                hwnd,
            )].user_data == proc_data_after(
                win_of(old(self).windows@, hwnd).procedure,
                win_of(old(self).windows@, hwnd).user_data,
                win_of(old(self).windows@, hwnd).styles,
                message,
            ),
            command_silent_message(message) || message == Message::Paint ==> {
                &&& final(self).message_queue == old(self).message_queue
                &&& final(self).pending_ops == old(self).pending_ops
                &&& final(self).captured_hwnd == old(self).captured_hwnd
                &&& final(self).dirty_rects == old(self).dirty_rects
            },
            command_silent_message(message) ==> final(self).quad_draw_ops == old(self).quad_draw_ops
                && final(self).text_draw_ops == old(self).text_draw_ops,
            message == Message::Paint ==> final(self).windows@ == old(self).windows@,
            has_hwnd(old(self).windows@, hwnd) ==> delivered(
                *old(self),
                *final(self),
                hwnd,
                message,
            ),
    {
        let i = match index_of_hwnd(&self.windows, hwnd) {
            Some(i) => i,
            None => {
                proof {
                    lemma_dispatch_frame_refl(*self);
                }
                return 0;
            },
        };
        let rect = self.windows[i].rect;
        let styles = self.windows[i].styles;
        let data = self.windows[i].user_data;
        let procedure = self.windows[i].procedure;
        let caption = self.windows[i].caption.clone();
        let root = self.windows[0].hwnd;
        let result: ProcResult = match procedure {
            Procedure::Silent => ProcResult { response: 0, data, commands: Vec::new() },
            Procedure::TopLevel => window_proc(rect, data, message),
            Procedure::Button => button_proc(hwnd, root, rect, styles, &caption, data, message),
            Procedure::Textbox => textbox_proc(hwnd, rect, styles, data, message),
        };
        let response = result.response;
        proof {
            assert(result.commands@ =~= deliver_commands(*old(self), hwnd, message));
            if command_silent_message(message) || message == Message::Paint {
                assert(forall|j: int|
                    0 <= j < result.commands@.len() ==> !cmd_queues_message(
                        #[trigger] result.commands@[j],
                    ) && !cmd_structural(result.commands@[j]) && !cmd_moves_capture(
                        result.commands@[j],
                    ) && !cmd_invalidates(result.commands@[j]));
            }
            if command_silent_message(message) {
                assert(result.commands@.len() == 0);
            }
            if message == Message::Paint {
                assert(result.data == data);
            }
        }
        self.apply_commands(result.commands);
        let ghost mid = *self;
        self.windows[i].user_data = result.data;
        proof {
            lemma_user_data_update_wf(mid, *self, i as int);
            assert(same_shape(mid.windows@, self.windows@));
            lemma_dispatch_frame_refl(mid);
            assert(dispatch_frame(mid, *self));
            lemma_dispatch_frame_trans(*old(self), mid, *self);
            if message == Message::Paint {
                assert(self.windows@ =~= old(self).windows@);
            }
            assert(self.windows@ =~= old(self).windows@.update(
                i as int,
                Window {
                    user_data: result.data,
                    ..old(self).windows@[i as int]
                },
            ));
        }
        response
    }

    /// Sends a message to the specified window and processes it immediately,
    /// returning the procedure's response. Sending to a non-existent window
    /// is not fatal: producers may race with destruction, so it is a no-op
    /// returning the neutral response 0.
    pub fn send_message(&mut self, hwnd: HWND, message: Message) -> (r: u64)
        requires
            old(self).wf(),
        ensures
            final(self).wf(),
            dispatch_frame(*old(self), *final(self)),
            forall|i: int|
                0 <= i < old(self).windows@.len() && (#[trigger] old(self).windows@[i]).hwnd != hwnd
                    ==> final(self).windows@[i] == old(self).windows@[i],
            r == 0,
            !has_hwnd(old(self).windows@, hwnd) ==> *final(self) == *old(self),
            has_hwnd(old(self).windows@, hwnd) ==> final(self).windows@[idx_of(
                old(self).windows@,
                hwnd,
            )].user_data == proc_data_after(
                win_of(old(self).windows@, hwnd).procedure,
                win_of(old(self).windows@, hwnd).user_data,
                win_of(old(self).windows@, hwnd).styles,
                message,
            ),
            has_hwnd(old(self).windows@, hwnd) ==> delivered(
                *old(self),
                *final(self),
                hwnd,
                message,
            ),
    {
        self.deliver(hwnd, message)
    }
}

impl Ugui {
    /// Creates a window and appends it to the live set. The new handle is
    /// fresh: handles are allocated from a counter that is never reused (and
    /// so, as the precondition says, must not be exhausted). Fails only when
    /// `parent` is given but refers to no live window. On success the
    /// creation notification sequence (`StylesChanged`, then `Create`) is
    /// delivered before this returns, so the window is fully initialized
    /// before any other code observes it, and the new bounds are queued for
    /// repaint.
    pub fn create_window(
        &mut self,
        class: String,
        caption: String,
        styles: StyleSet,
        rect: Rect,
        parent: Option<HWND>,
        procedure: Procedure,
    ) -> (r: Option<HWND>)
        requires
            old(self).wf(),
            old(self).next_hwnd < usize::MAX,
        ensures
            final(self).wf(),
            r is None <==> (parent matches Some(p) && !has_hwnd(old(self).windows@, p)),
            r is None ==> *final(self) == *old(self),
            r matches Some(h) ==> {
                &&& h == old(self).next_hwnd
                &&& !has_hwnd(old(self).windows@, h)
                &&& final(self).next_hwnd == old(self).next_hwnd + 1
                &&& final(self).windows@.len() == old(self).windows@.len() + 1
                &&& forall|i: int|
                    0 <= i < old(self).windows@.len() ==> final(self).windows@[i] == old(
                        self,
                    ).windows@[i]
                &&& final(self).windows@.last().hwnd == h
                &&& final(self).windows@.last().class == class
                &&& final(self).windows@.last().caption == caption
                &&& final(self).windows@.last().styles == styles
                &&& final(self).windows@.last().rect == rect
                &&& final(self).windows@.last().parent == parent
                &&& final(self).windows@.last().procedure == procedure
                &&& final(self).windows@.last().user_data == proc_data_after(
                    procedure,
                    proc_data_after(procedure, None, styles, Message::StylesChanged),
                    styles,
                    Message::Create,
                )
                &&& final(self).message_queue == old(self).message_queue
                &&& final(self).dirty_rects@ == old(self).dirty_rects@.push(rect)
                &&& final(self).pending_ops == old(self).pending_ops
                &&& final(self).quad_draw_ops == old(self).quad_draw_ops
                &&& final(self).text_draw_ops == old(self).text_draw_ops
                &&& final(self).clip_rects == old(self).clip_rects
                &&& final(self).focused_hwnd == old(self).focused_hwnd
                &&& final(self).captured_hwnd == old(self).captured_hwnd
                &&& final(self).mouse_state == old(self).mouse_state
                &&& final(self).last_text_input == old(self).last_text_input
            },
    {
        match parent {
            Some(p) => {
                match index_of_hwnd(&self.windows, p) {
                    Some(_) => {},
                    None => {
                        return None;
                    },
                }
            },
            None => {},
        }
        let hwnd = self.next_hwnd;
        self.next_hwnd = self.next_hwnd + 1;
        let w = Window {
            hwnd,
            class,
            caption,
            styles,
            rect,
            parent,
            procedure,
            user_data: None,
        };
        let ghost wspec = w;
        self.windows.push(w);
        proof {
            lemma_push_fresh(old(self).windows@, wspec);
            assert(self.windows@ == old(self).windows@.push(wspec));
            match old(self).focused_hwnd {
                Some(f) => {
                    assert(has_hwnd(old(self).windows@, f));
                    assert(has_hwnd(old(self).windows@.push(wspec), f));
                    assert(win_of(old(self).windows@.push(wspec), f) == win_of(
                        old(self).windows@,
                        f,
                    ));
                    assert(crate::util::focus_ok(self.windows@, f));
                },
                None => {},
            }
            match old(self).captured_hwnd {
                Some(c) => {
                    assert(has_hwnd(old(self).windows@, c));
                    assert(has_hwnd(old(self).windows@.push(wspec), c));
                    assert(win_of(old(self).windows@.push(wspec), c) == win_of(
                        old(self).windows@,
                        c,
                    ));
                    assert(capture_ok(self.windows@, c));
                },
                None => {},
            }
            assert(self.wf());
        }
        let ghost mid = *self;
        proof {
            crate::util::lemma_win_at_index(mid.windows@, old(self).windows@.len() as int);
        }
        let _ = self.deliver(hwnd, Message::StylesChanged);
        let ghost mid2 = *self;
        proof {
            crate::util::lemma_win_at_index(mid2.windows@, old(self).windows@.len() as int);
        }
        let _ = self.deliver(hwnd, Message::Create);
        proof {
            lemma_dispatch_frame_trans(mid, mid2, *self);
            crate::util::lemma_win_at_index(self.windows@, old(self).windows@.len() as int);
        }
        self.dirty_rects.push(rect);
        proof {
            assert(forall|i: int|
                0 <= i < old(self).windows@.len() ==> mid.windows@[i] == old(self).windows@[i]);
            assert(forall|i: int|
                0 <= i < old(self).windows@.len() ==> (#[trigger] mid.windows@[i]).hwnd != hwnd);
        }
        Some(hwnd)
    }

    /// Sets a window's styles, re-validates the capture and focus handles,
    /// notifies the window with `StylesChanged`, and queues its bounds for
    /// repaint.
    pub fn set_window_style(&mut self, hwnd: HWND, styles: StyleSet)
        requires
            old(self).wf(),
            has_hwnd(old(self).windows@, hwnd),
        ensures
            final(self).wf(),
            final(self).windows@.len() == old(self).windows@.len(),
            forall|i: int|
                0 <= i < old(self).windows@.len() && (#[trigger] old(self).windows@[i]).hwnd != hwnd
                    ==> final(self).windows@[i] == old(self).windows@[i],
            shape_eq(
                final(self).windows@[idx_of(old(self).windows@, hwnd)],
                Window { styles, ..win_of(old(self).windows@, hwnd) },
            ),
            final(self).focused_hwnd == crate::util::spec_fix_focus(
                old(self).windows@.update(
                    idx_of(old(self).windows@, hwnd),
                    Window { styles, ..win_of(old(self).windows@, hwnd) },
                ),
                old(self).focused_hwnd,
            ),
            final(self).windows@[idx_of(old(self).windows@, hwnd)].user_data == proc_data_after(
                win_of(old(self).windows@, hwnd).procedure,
                win_of(old(self).windows@, hwnd).user_data,
                styles,
                Message::StylesChanged,
            ),
            final(self).captured_hwnd == crate::util::spec_fix_capture(
                old(self).windows@.update(
                    idx_of(old(self).windows@, hwnd),
                    Window { styles, ..win_of(old(self).windows@, hwnd) },
                ),
                old(self).captured_hwnd,
            ),
            final(self).message_queue == old(self).message_queue,
            final(self).dirty_rects@ == old(self).dirty_rects@.push(
                win_of(old(self).windows@, hwnd).rect,
            ),
            final(self).pending_ops == old(self).pending_ops,
            final(self).quad_draw_ops == old(self).quad_draw_ops,
            final(self).text_draw_ops == old(self).text_draw_ops,
            final(self).clip_rects == old(self).clip_rects,
            final(self).mouse_state == old(self).mouse_state,
            final(self).next_hwnd == old(self).next_hwnd,
            final(self).last_text_input == old(self).last_text_input,
    {
        let i = match index_of_hwnd(&self.windows, hwnd) {
            Some(i) => i,
            None => {
                proof {
                    assert(false);
                }
                unreached()
            },
        };
        let rect = self.windows[i].rect;
        self.windows[i].styles = styles;
        self.focused_hwnd = crate::util::fix_dependent_focus_handle(
            &self.windows,
            self.focused_hwnd,
        );
        self.captured_hwnd = crate::util::fix_dependent_visual_handle(
            &self.windows,
            self.captured_hwnd,
        );
        proof {
            assert(handles_unique(self.windows@));
            assert(self.wf());
        }
        let ghost mid = *self;
        proof {
            crate::util::lemma_win_at_index(mid.windows@, i as int);
        }
        let _ = self.deliver(hwnd, Message::StylesChanged);
        self.dirty_rects.push(rect);
    }

    /// Sets a window's bounds and queues its prior bounds for repaint.
    pub fn set_window_rect(&mut self, hwnd: HWND, rect: Rect)
        requires
            old(self).wf(),
            has_hwnd(old(self).windows@, hwnd),
        ensures
            final(self).wf(),
            *final(self) == (Ugui {
                windows: final(self).windows,
                dirty_rects: final(self).dirty_rects,
                ..*old(self)
            }),
            final(self).windows@ == old(self).windows@.update(
                idx_of(old(self).windows@, hwnd),
                Window { rect, ..win_of(old(self).windows@, hwnd) },
            ),
            final(self).dirty_rects@ == old(self).dirty_rects@.push(
                win_of(old(self).windows@, hwnd).rect,
            ),
    {
        let i = match index_of_hwnd(&self.windows, hwnd) {
            Some(i) => i,
            None => {
                proof {
                    assert(false);
                }
                unreached()
            },
        };
        let prior = self.windows[i].rect;
        self.windows[i].rect = rect;
        self.dirty_rects.push(prior);
        proof {
            lemma_holders_same_handles_styles(old(self).windows@, self.windows@);
            assert(self.wf());
        }
    }

    /// Sets a window's caption. A top-level window's caption is its title and
    /// needs no repaint; a control's caption shows in its bounds, which are
    /// queued for repaint.
    pub fn set_caption(&mut self, hwnd: HWND, value: String)
        requires
            old(self).wf(),
            has_hwnd(old(self).windows@, hwnd),
        ensures
            final(self).wf(),
            *final(self) == (Ugui {
                windows: final(self).windows,
                dirty_rects: final(self).dirty_rects,
                ..*old(self)
            }),
            final(self).windows@ == old(self).windows@.update(
                idx_of(old(self).windows@, hwnd),
                Window { caption: value, ..win_of(old(self).windows@, hwnd) },
            ),
            final(self).dirty_rects@ == (if win_of(old(self).windows@, hwnd).parent is None {
                old(self).dirty_rects@
            } else {
                old(self).dirty_rects@.push(win_of(old(self).windows@, hwnd).rect)
            }),
    {
        let i = match index_of_hwnd(&self.windows, hwnd) {
            Some(i) => i,
            None => {
                proof {
                    assert(false);
                }
                unreached()
            },
        };
        let rect = self.windows[i].rect;
        let is_top_level = match self.windows[i].parent {
            None => true,
            Some(_) => false,
        };
        self.windows[i].caption = value;
        if !is_top_level {
            self.dirty_rects.push(rect);
        }
        proof {
            lemma_holders_same_handles_styles(old(self).windows@, self.windows@);
            assert(self.wf());
        }
    }

    /// Resizes the root window (the first created) to fill `width` by
    /// `height` from the origin, and queues its full new area for repaint.
    pub fn root_resized(&mut self, width: i32, height: i32)
        requires
            old(self).wf(),
            old(self).windows@.len() > 0,
        ensures
            final(self).wf(),
            *final(self) == (Ugui {
                windows: final(self).windows,
                dirty_rects: final(self).dirty_rects,
                ..*old(self)
            }),
            final(self).windows@ == old(self).windows@.update(
                0,
                Window { rect: Rect { x: 0, y: 0, w: width, h: height }, ..old(self).windows@[0] },
            ),
            final(self).dirty_rects@ == old(self).dirty_rects@.push(
                Rect { x: 0, y: 0, w: width, h: height },
            ),
    {
        let rect = Rect { x: 0, y: 0, w: width, h: height };
        self.windows[0].rect = rect;
        self.dirty_rects.push(rect);
        proof {
            lemma_holders_same_handles_styles(old(self).windows@, self.windows@);
            assert(self.wf());
        }
    }
}

impl Ugui {
    /// Drains the deferred message queue over a stable snapshot, delivering
    /// in FIFO order (messages queued while draining wait for the next
    /// tick), then runs the structural operations procedures queued: window
    /// creations and destructions deferred so that the registry never
    /// changes size under an iteration that is delivering messages. The
    /// whole effect is the fold `drained` over the model: every queued
    /// message is delivered, in order, before any paint.
    pub fn pump_messages(&mut self)
        requires
            old(self).wf(),
        ensures
            final(self).wf(),
            final(self).drain_state() == drained(old(self).drain_state()),
            pump_frame(*old(self), *final(self)),
            final(self).clip_rects@ == old(self).clip_rects@,
            final(self).mouse_state == old(self).mouse_state,
            final(self).last_text_input == old(self).last_text_input,
    {
        let mut batch: Vec<(HWND, Message)> = Vec::new();
        core::mem::swap(&mut batch, &mut self.message_queue);
        let ghost all_msgs = batch@;
        let ghost m0 = self.drain_state();
        proof {
            lemma_pump_frame_refl(*old(self));
            assert(pump_frame(*old(self), *self));
            assert(self.message_queue@ =~= Seq::<(HWND, Message)>::empty());
            assert(m0 == (DrainState {
                message_queue: Seq::<(HWND, Message)>::empty(),
                ..old(self).drain_state()
            }));
            assert(all_msgs == old(self).drain_state().message_queue);
            assert(batch@ =~= all_msgs.subrange(all_msgs.len() - batch@.len(), all_msgs.len() as int));
        }
        while batch.len() > 0
            invariant
                self.wf(),
                batch@.len() <= all_msgs.len(),
                batch@ == all_msgs.subrange(all_msgs.len() - batch@.len(), all_msgs.len() as int),
                self.drain_state() == run_messages(m0, all_msgs, all_msgs.len() - batch@.len()),
                pump_frame(*old(self), *self),
                self.clip_rects@ == old(self).clip_rects@,
                self.mouse_state == old(self).mouse_state,
                self.last_text_input == old(self).last_text_input,
            decreases batch@.len(),
        {
            let ghost j = all_msgs.len() - batch@.len();
            let (hwnd, message) = batch.remove(0);
            proof {
                assert((hwnd, message) == all_msgs[j]);
                assert(batch@ =~= all_msgs.subrange(
                    all_msgs.len() - batch@.len(),
                    all_msgs.len() as int,
                ));
            }
            let ghost pre = *self;
            let _ = self.deliver(hwnd, message);
            proof {
                lemma_dispatch_to_pump_frame(pre, *self);
                lemma_pump_frame_trans(*old(self), pre, *self);
                if has_hwnd(pre.windows@, hwnd) {
                    assert(self.drain_state() == step_deliver(pre.drain_state(), hwnd, message));
                } else {
                    assert(*self == pre);
                    assert(self.drain_state() == step_deliver(pre.drain_state(), hwnd, message));
                }
                assert(self.drain_state() == run_messages(m0, all_msgs, j + 1));
            }
        }
        let ghost m1 = self.drain_state();
        proof {
            assert(m1 == run_messages(m0, all_msgs, all_msgs.len() as int));
        }
        let mut ops: Vec<StructuralOp> = Vec::new();
        core::mem::swap(&mut ops, &mut self.pending_ops);
        let ghost all_ops = ops@;
        let ghost m2 = self.drain_state();
        proof {
            assert(self.pending_ops@ =~= Seq::<StructuralOp>::empty());
            assert(m2 == (DrainState { pending_ops: Seq::<StructuralOp>::empty(), ..m1 }));
            assert(all_ops == m1.pending_ops);
            assert(ops@ =~= all_ops.subrange(all_ops.len() - ops@.len(), all_ops.len() as int));
        }
        while ops.len() > 0
            invariant
                self.wf(),
                ops@.len() <= all_ops.len(),
                ops@ == all_ops.subrange(all_ops.len() - ops@.len(), all_ops.len() as int),
                self.drain_state() == run_structural_ops(m2, all_ops, all_ops.len() - ops@.len()),
                pump_frame(*old(self), *self),
                self.clip_rects@ == old(self).clip_rects@,
                self.mouse_state == old(self).mouse_state,
                self.last_text_input == old(self).last_text_input,
            decreases ops@.len(),
        {
            let ghost j = all_ops.len() - ops@.len();
            let op = ops.remove(0);
            let ghost opg = op;
            proof {
                assert(opg == all_ops[j]);
                assert(ops@ =~= all_ops.subrange(
                    all_ops.len() - ops@.len(),
                    all_ops.len() as int,
                ));
            }
            let ghost pre = *self;
            match op {
                StructuralOp::Create { class, caption, styles, rect, parent, procedure } => {
                    if self.next_hwnd < usize::MAX {
                        let created = self.create_window(
                            class,
                            caption,
                            styles,
                            rect,
                            parent,
                            procedure,
                        );
                        proof {
                            match created {
                                Some(_) => {
                                    assert(self.windows@ =~= pre.windows@.push(
                                        self.windows@.last(),
                                    ));
                                },
                                None => {},
                            }
                            lemma_pump_frame_refl(pre);
                            if self.next_hwnd != pre.next_hwnd {
                                lemma_prefix_push(
                                    pre.dirty_rects@,
                                    pre.dirty_rects@,
                                    self.dirty_rects@.last(),
                                );
                            }
                            lemma_pump_frame_trans(*old(self), pre, *self);
                        }
                    } else {
                        proof {
                            lemma_pump_frame_refl(pre);
                            lemma_pump_frame_trans(*old(self), pre, *self);
                        }
                    }
                },
                StructuralOp::Destroy(hwnd) => {
                    match index_of_hwnd(&self.windows, hwnd) {
                        Some(_) => {
                            self.destroy_window(hwnd);
                            proof {
                                lemma_pump_frame_trans(*old(self), pre, *self);
                            }
                        },
                        None => {
                            proof {
                                lemma_pump_frame_refl(pre);
                                lemma_pump_frame_trans(*old(self), pre, *self);
                            }
                        },
                    }
                },
            }
            proof {
                assert(self.drain_state() == run_structural_ops(m2, all_ops, j + 1));
            }
        }
        proof {
            assert(self.drain_state() == drained(old(self).drain_state()));
        }
    }

    /// The end-of-tick paint pass and composite decision. When no dirty
    /// rectangle is queued, nothing happens and no flush is owed. Otherwise
    /// every queued rectangle is repainted in insertion order (each a clip
    /// scope in which the affected windows receive `Paint` directly), the
    /// dirty queue and the draw-operation queues are cleared, and the
    /// accumulated draw operations are returned, to be flushed to the
    /// rendering backend exactly once. What is returned is exact: the
    /// operations accumulated before the pass, followed by the pass's own,
    /// rectangle by rectangle.
    pub fn composite(&mut self) -> (r: Option<(Vec<QuadDrawOp>, Vec<TextDrawOp>)>)
        requires
            old(self).wf(),
        ensures
            final(self).wf(),
            r is Some <==> old(self).dirty_rects@.len() > 0,
            r is None ==> *final(self) == *old(self),
            final(self).dirty_rects@.len() == old(self).dirty_rects@.len() == 0 || r is Some,
            r is Some ==> final(self).dirty_rects@.len() == 0 && final(self).quad_draw_ops@.len()
                == 0 && final(self).text_draw_ops@.len() == 0,
            r matches Some((quads, texts)) ==> quads@ == old(self).quad_draw_ops@ + frame_quads(
                old(self).windows@,
                root_of(old(self).windows@),
                old(self).dirty_rects@,
                old(self).dirty_rects@.len() as int,
            ) && texts@ == old(self).text_draw_ops@ + frame_texts(
                old(self).windows@,
                root_of(old(self).windows@),
                old(self).dirty_rects@,
                old(self).dirty_rects@.len() as int,
            ),
            final(self).windows@ == old(self).windows@,
            final(self).message_queue == old(self).message_queue,
            final(self).pending_ops == old(self).pending_ops,
            final(self).captured_hwnd == old(self).captured_hwnd,
            final(self).clip_rects@ == old(self).clip_rects@,
            final(self).focused_hwnd == old(self).focused_hwnd,
            final(self).mouse_state == old(self).mouse_state,
            final(self).next_hwnd == old(self).next_hwnd,
            final(self).last_text_input == old(self).last_text_input,
    {
        if self.dirty_rects.len() == 0 {
            return None;
        }
        let mut rects: Vec<Rect> = Vec::new();
        core::mem::swap(&mut rects, &mut self.dirty_rects);
        let ghost all = rects@;
        let ghost start = *self;
        proof {
            assert(self.quad_draw_ops@ =~= start.quad_draw_ops@ + frame_quads(
                start.windows@,
                root_of(start.windows@),
                all,
                0,
            ));
            assert(self.text_draw_ops@ =~= start.text_draw_ops@ + frame_texts(
                start.windows@,
                root_of(start.windows@),
                all,
                0,
            ));
            assert(rects@ =~= all.subrange(all.len() - rects@.len(), all.len() as int));
        }
        while rects.len() > 0
            invariant
                self.wf(),
                rects@.len() <= all.len(),
                rects@ == all.subrange(all.len() - rects@.len(), all.len() as int),
                self.windows@ == start.windows@,
                self.message_queue == start.message_queue,
                self.pending_ops == start.pending_ops,
                self.captured_hwnd == start.captured_hwnd,
                self.dirty_rects == start.dirty_rects,
                self.quad_draw_ops@ == start.quad_draw_ops@ + frame_quads(
                    start.windows@,
                    root_of(start.windows@),
                    all,
                    all.len() - rects@.len(),
                ),
                self.text_draw_ops@ == start.text_draw_ops@ + frame_texts(
                    start.windows@,
                    root_of(start.windows@),
                    all,
                    all.len() - rects@.len(),
                ),
                self.clip_rects@ == start.clip_rects@,
                self.focused_hwnd == start.focused_hwnd,
                self.mouse_state == start.mouse_state,
                self.next_hwnd == start.next_hwnd,
                self.last_text_input == start.last_text_input,
            decreases rects@.len(),
        {
            let ghost j = all.len() - rects@.len();
            let rc = rects.remove(0);
            proof {
                assert(rc == all[j]);
                assert(rects@ =~= all.subrange(all.len() - rects@.len(), all.len() as int));
            }
            let ghost pre = *self;
            self.paint_rect(rc);
            proof {
                assert(root_of(pre.windows@) == root_of(start.windows@));
                assert(self.quad_draw_ops@ =~= start.quad_draw_ops@ + frame_quads(
                    start.windows@,
                    root_of(start.windows@),
                    all,
                    j + 1,
                ));
                assert(self.text_draw_ops@ =~= start.text_draw_ops@ + frame_texts(
                    start.windows@,
                    root_of(start.windows@),
                    all,
                    j + 1,
                ));
            }
        }
        let mut quads: Vec<QuadDrawOp> = Vec::new();
        core::mem::swap(&mut quads, &mut self.quad_draw_ops);
        let mut texts: Vec<TextDrawOp> = Vec::new();
        core::mem::swap(&mut texts, &mut self.text_draw_ops);
        proof {
            assert(all =~= all.subrange(0, all.len() as int));
        }
        Some((quads, texts))
    }

    /// One tick: deliver every queued message over a stable snapshot of the
    /// queue, in FIFO order, run the structural operations procedures
    /// queued, then repaint every dirty region and composite at most once.
    /// The whole tick is the model fold `composited . drained`: the drain
    /// happens before any paint, and the return value holds the frame's
    /// draw operations exactly when something was dirty after the drain.
    pub fn tick(&mut self) -> (r: Option<(Vec<QuadDrawOp>, Vec<TextDrawOp>)>)
        requires
            old(self).wf(),
        ensures
            final(self).wf(),
            final(self).drain_state() == composited(drained(old(self).drain_state())),
            r is Some <==> drained(old(self).drain_state()).dirty_rects.len() > 0,
            r matches Some((quads, texts)) ==> quads@ == frame_quads_of(
                drained(old(self).drain_state()),
            ) && texts@ == frame_texts_of(drained(old(self).drain_state())),
            final(self).dirty_rects@.len() == 0,
            old(self).dirty_rects@.len() > 0 ==> r is Some,
            r is Some ==> final(self).quad_draw_ops@.len() == 0
                && final(self).text_draw_ops@.len() == 0,
            final(self).clip_rects@ == old(self).clip_rects@,
            final(self).mouse_state == old(self).mouse_state,
            final(self).last_text_input == old(self).last_text_input,
    {
        self.pump_messages();
        let ghost mid = *self;
        let r = self.composite();
        proof {
            assert(mid.drain_state() == drained(old(self).drain_state()));
            assert(mid.dirty_rects@ == drained(old(self).drain_state()).dirty_rects);
            if mid.dirty_rects@.len() == 0 {
                assert(*self == mid);
                assert(self.drain_state() == composited(drained(old(self).drain_state())));
            } else {
                assert(self.dirty_rects@ =~= Seq::<Rect>::empty());
                assert(self.quad_draw_ops@ =~= Seq::<QuadDrawOp>::empty());
                assert(self.text_draw_ops@ =~= Seq::<TextDrawOp>::empty());
                assert(self.message_queue@ == mid.message_queue@);
                assert(self.pending_ops@ == mid.pending_ops@);
                assert(self.drain_state() == (DrainState {
                    dirty_rects: Seq::<Rect>::empty(),
                    quad_draw_ops: Seq::<QuadDrawOp>::empty(),
                    text_draw_ops: Seq::<TextDrawOp>::empty(),
                    ..mid.drain_state()
                }));
                assert(self.drain_state() == composited(drained(old(self).drain_state())));
            }
        }
        r
    }
}

/// The messages a pointer move produces. With capture held, exactly one
/// `MouseMove` goes to the captured window regardless of hit-testing, plus
/// `MouseEnter` or `MouseLeave` decided solely by the captured window's own
/// bounds against the previous and current position. Without capture, the
/// window under the pointer gets `MouseMove`, and when the previous position
/// resolved to a different window, `MouseEnter` goes to the new window and
/// `MouseLeave` to the old one.
pub open spec fn pointer_move_msgs(
    ws: Seq<Window>,
    captured: Option<HWND>,
    last: Point,
    pos: Point,
) -> Seq<(HWND, Message)> {
    match captured {
        Some(h) => {
            let rc = win_of(ws, h).rect;
            seq![(h, Message::MouseMove)] + (if pos.spec_inside(rc) && !last.spec_inside(rc) {
                seq![(h, Message::MouseEnter)]
            } else {
                Seq::empty()
            }) + (if !pos.spec_inside(rc) && last.spec_inside(rc) {
                seq![(h, Message::MouseLeave)]
            } else {
                Seq::empty()
            })
        },
        None => {
            let hi = hit_index(ws, pos);
            if hi >= 0 {
                let target = ws[hi].hwnd;
                let hj = hit_index(ws, last);
                seq![(target, Message::MouseMove)] + (if hj >= 0 && ws[hj].hwnd != target {
                    seq![(target, Message::MouseEnter), (ws[hj].hwnd, Message::MouseLeave)]
                } else {
                    Seq::empty()
                })
            } else {
                Seq::empty()
            }
        },
    }
}

/// Where focus goes on a pointer press at `pos`: to the window hit, when it
/// is focusable and enabled; otherwise focus does not change. (The registry
/// invariant admits only live, visible, enabled, focusable focus holders, so
/// a press on any other window transfers nothing.)
pub open spec fn pointer_press_focus(
    ws: Seq<Window>,
    focused: Option<HWND>,
    pos: Point,
) -> Option<HWND> {
    let hi = hit_index(ws, pos);
    if hi >= 0 && ws[hi].styles.focusable && ws[hi].styles.enabled {
        Some(ws[hi].hwnd)
    } else {
        focused
    }
}

/// The messages a pointer press at `pos` produces: nothing when no window is
/// hit; otherwise `Unfocus` to the previously focused window when focus
/// transfers away from it, `Focus` to the hit window when it takes focus,
/// and `LmbDown` to the hit window.
pub open spec fn pointer_press_msgs(
    ws: Seq<Window>,
    focused: Option<HWND>,
    pos: Point,
) -> Seq<(HWND, Message)> {
    let hi = hit_index(ws, pos);
    if hi < 0 {
        Seq::empty()
    } else {
        let h = ws[hi].hwnd;
        let gets_focus = ws[hi].styles.focusable && ws[hi].styles.enabled;
        (match focused {
            Some(f) => if gets_focus && f != h && win_of(ws, f).styles.focusable {
                seq![(f, Message::Unfocus)]
            } else {
                Seq::empty()
            },
            None => Seq::empty(),
        }) + (if gets_focus {
            seq![(h, Message::Focus)]
        } else {
            Seq::empty()
        }) + seq![(h, Message::LmbDown)]
    }
}

/// The messages a pointer release produces: `LmbUp` to the window that
/// claimed the gesture, found by re-hit-testing at the original press point.
pub open spec fn pointer_release_msgs(ws: Seq<Window>, down_pos: Point) -> Seq<(HWND, Message)> {
    let hi = hit_index(ws, down_pos);
    if hi >= 0 {
        seq![(ws[hi].hwnd, Message::LmbUp)]
    } else {
        Seq::empty()
    }
}

impl Ugui {
    /// Translates a pointer move to `pos`. With a window holding capture,
    /// hit-testing is bypassed entirely; otherwise the windows under the new
    /// and old position decide who is notified. The messages are queued for
    /// the next tick's drain; the mouse state records `pos`.
    pub fn pointer_moved(&mut self, pos: Point)
        requires
            old(self).wf(),
        ensures
            final(self).wf(),
            *final(self) == (Ugui {
                message_queue: final(self).message_queue,
                mouse_state: final(self).mouse_state,
                ..*old(self)
            }),
            final(self).message_queue@ == old(self).message_queue@ + pointer_move_msgs(
                old(self).windows@,
                old(self).captured_hwnd,
                old(self).mouse_state.last_pos,
                pos,
            ),
            final(self).mouse_state == (MouseState {
                pos,
                last_pos: pos,
                ..old(self).mouse_state
            }),
    {
        let last = self.mouse_state.last_pos;
        self.mouse_state.pos = pos;
        match self.captured_hwnd {
            Some(captured) => {
                let i = match index_of_hwnd(&self.windows, captured) {
                    Some(i) => i,
                    None => {
                        proof {
                            assert(false);
                        }
                        unreached()
                    },
                };
                let rc = self.windows[i].rect;
                self.message_queue.push((captured, Message::MouseMove));
                if pos.inside(rc) && !last.inside(rc) {
                    self.message_queue.push((captured, Message::MouseEnter));
                }
                if !pos.inside(rc) && last.inside(rc) {
                    self.message_queue.push((captured, Message::MouseLeave));
                }
                proof {
                    assert(self.message_queue@ =~= old(self).message_queue@ + pointer_move_msgs(
                        old(self).windows@,
                        old(self).captured_hwnd,
                        last,
                        pos,
                    ));
                }
            },
            None => {
                match window_at_point(&self.windows, pos) {
                    Some(control) => {
                        let target = control.hwnd;
                        self.message_queue.push((target, Message::MouseMove));
                        match window_at_point(&self.windows, last) {
                            Some(prev_control) => {
                                let prev = prev_control.hwnd;
                                if prev != target {
                                    self.message_queue.push((target, Message::MouseEnter));
                                    self.message_queue.push((prev, Message::MouseLeave));
                                }
                            },
                            None => {},
                        }
                    },
                    None => {},
                }
                proof {
                    assert(self.message_queue@ =~= old(self).message_queue@ + pointer_move_msgs(
                        old(self).windows@,
                        old(self).captured_hwnd,
                        last,
                        pos,
                    ));
                }
            },
        }
        self.mouse_state.last_pos = pos;
    }

    /// Translates a pointer press at `pos`: hit-test, transfer focus to the
    /// hit window when it can take it (unfocusing the previous holder), and
    /// queue the press messages. No window under the cursor means no focus
    /// change. The press point is recorded for release routing.
    pub fn pointer_pressed(&mut self, pos: Point)
        requires
            old(self).wf(),
        ensures
            final(self).wf(),
            *final(self) == (Ugui {
                message_queue: final(self).message_queue,
                mouse_state: final(self).mouse_state,
                focused_hwnd: final(self).focused_hwnd,
                ..*old(self)
            }),
            final(self).message_queue@ == old(self).message_queue@ + pointer_press_msgs(
                old(self).windows@,
                old(self).focused_hwnd,
                pos,
            ),
            final(self).focused_hwnd == pointer_press_focus(
                old(self).windows@,
                old(self).focused_hwnd,
                pos,
            ),
            final(self).mouse_state == (MouseState {
                lmb: true,
                lmb_down_pos: pos,
                ..old(self).mouse_state
            }),
    {
        self.mouse_state.lmb = true;
        self.mouse_state.lmb_down_pos = pos;
        match window_at_point(&self.windows, pos) {
            Some(control) => {
                let target = control.hwnd;
                let gets_focus = control.styles.focusable && control.styles.enabled;
                proof {
                    crate::util::lemma_hit_index(old(self).windows@, pos);
                    crate::util::lemma_win_at_index(
                        old(self).windows@,
                        hit_index(old(self).windows@, pos),
                    );
                }
                if gets_focus {
                    match self.focused_hwnd {
                        Some(f) => {
                            if f != target {
                                let fw = crate::util::window_from_hwnd(&self.windows, f);
                                if fw.styles.focusable {
                                    self.message_queue.push((f, Message::Unfocus));
                                }
                            }
                        },
                        None => {},
                    }
                    self.focused_hwnd = Some(target);
                    self.message_queue.push((target, Message::Focus));
                }
                self.message_queue.push((target, Message::LmbDown));
                proof {
                    assert(self.message_queue@ =~= old(self).message_queue@ + pointer_press_msgs(
                        old(self).windows@,
                        old(self).focused_hwnd,
                        pos,
                    ));
                }
            },
            None => {
                proof {
                    assert(self.message_queue@ =~= old(self).message_queue@ + pointer_press_msgs(
                        old(self).windows@,
                        old(self).focused_hwnd,
                        pos,
                    ));
                }
            },
        }
    }

    /// Translates a pointer release: the window at the original press point
    /// (not the release point) claimed the gesture and receives `LmbUp`.
    pub fn pointer_released(&mut self)
        requires
            old(self).wf(),
        ensures
            final(self).wf(),
            *final(self) == (Ugui {
                message_queue: final(self).message_queue,
                mouse_state: final(self).mouse_state,
                ..*old(self)
            }),
            final(self).message_queue@ == old(self).message_queue@ + pointer_release_msgs(
                old(self).windows@,
                old(self).mouse_state.lmb_down_pos,
            ),
            final(self).mouse_state == (MouseState { lmb: false, ..old(self).mouse_state }),
    {
        self.mouse_state.lmb = false;
        let down = self.mouse_state.lmb_down_pos;
        match window_at_point(&self.windows, down) {
            Some(control) => {
                let target = control.hwnd;
                self.message_queue.push((target, Message::LmbUp));
                proof {
                    assert(self.message_queue@ =~= old(self).message_queue@ + pointer_release_msgs(
                        old(self).windows@,
                        down,
                    ));
                }
            },
            None => {
                proof {
                    assert(self.message_queue@ =~= old(self).message_queue@ + pointer_release_msgs(
                        old(self).windows@,
                        down,
                    ));
                }
            },
        }
    }

    /// Records the secondary pointer button's state. The message set carries
    /// no secondary-button events, so only the mouse state moves.
    pub fn secondary_button_changed(&mut self, down: bool)
        requires
            old(self).wf(),
        ensures
            final(self).wf(),
            *final(self) == (Ugui { mouse_state: final(self).mouse_state, ..*old(self) }),
            final(self).mouse_state == (MouseState { rmb: down, ..old(self).mouse_state }),
    {
        self.mouse_state.rmb = down;
    }

    /// Records the middle pointer button's state. The message set carries no
    /// middle-button events, so only the mouse state moves.
    pub fn middle_button_changed(&mut self, down: bool)
        requires
            old(self).wf(),
        ensures
            final(self).wf(),
            *final(self) == (Ugui { mouse_state: final(self).mouse_state, ..*old(self) }),
            final(self).mouse_state == (MouseState { mmb: down, ..old(self).mouse_state }),
    {
        self.mouse_state.mmb = down;
    }

    /// Translates a key press: delivered only to the focused window, if any.
    pub fn key_down(&mut self, keycode: crate::messages::Keycode)
        requires
            old(self).wf(),
        ensures
            final(self).wf(),
            *final(self) == (Ugui { message_queue: final(self).message_queue, ..*old(self) }),
            final(self).message_queue@ == (match old(self).focused_hwnd {
                Some(f) => old(self).message_queue@.push((f, Message::KeyDown(keycode))),
                None => old(self).message_queue@,
            }),
    {
        match self.focused_hwnd {
            Some(f) => {
                self.message_queue.push((f, Message::KeyDown(keycode)));
            },
            None => {},
        }
    }

    /// Translates a key release: delivered only to the focused window, if any.
    pub fn key_up(&mut self, keycode: crate::messages::Keycode)
        requires
            old(self).wf(),
        ensures
            final(self).wf(),
            *final(self) == (Ugui { message_queue: final(self).message_queue, ..*old(self) }),
            final(self).message_queue@ == (match old(self).focused_hwnd {
                Some(f) => old(self).message_queue@.push((f, Message::KeyUp(keycode))),
                None => old(self).message_queue@,
            }),
    {
        match self.focused_hwnd {
            Some(f) => {
                self.message_queue.push((f, Message::KeyUp(keycode)));
            },
            None => {},
        }
    }

    /// Translates typed text: the text is stored (a message carries no
    /// payload that cannot be copied) and `TextInput` is queued for the
    /// focused window, if any.
    pub fn text_input(&mut self, text: String)
        requires
            old(self).wf(),
        ensures
            final(self).wf(),
            *final(self) == (Ugui {
                message_queue: final(self).message_queue,
                last_text_input: final(self).last_text_input,
                ..*old(self)
            }),
            final(self).last_text_input == text,
            final(self).message_queue@ == (match old(self).focused_hwnd {
                Some(f) => old(self).message_queue@.push((f, Message::TextInput)),
                None => old(self).message_queue@,
            }),
    {
        self.last_text_input = text;
        match self.focused_hwnd {
            Some(f) => {
                self.message_queue.push((f, Message::TextInput));
            },
            None => {},
        }
    }
}

impl Ugui {
    /// Whether `x`'s parent chain reaches `hwnd`, walked upward until it
    /// terminates (no parent, or a parent destroyed earlier) or arrives.
    fn chain_reaches_exec(&self, x: HWND, target: HWND) -> (r: bool)
        requires
            self.wf(),
        ensures
            r == crate::util::chain_reaches(self.windows@, x, target),
        decreases x,
    {
        let i = match index_of_hwnd(&self.windows, x) {
            Some(i) => i,
            None => {
                return false;
            },
        };
        match self.windows[i].parent {
            None => false,
            Some(p) => {
                if p == target {
                    true
                } else {
                    proof {
                        assert(parent_below(self.windows@[i as int]));
                    }
                    self.chain_reaches_exec(p, target)
                }
            },
        }
    }

    /// Gets a window's descendants: every window whose parent chain, walked
    /// upward, reaches `hwnd`, not only its direct children, in creation
    /// order.
    pub fn get_children(&self, hwnd: HWND) -> (r: Vec<HWND>)
        requires
            self.wf(),
        ensures
            r@ == crate::util::descendant_handles(
                self.windows@,
                self.windows@.len() as int,
                hwnd,
            ),
    {
        let mut children: Vec<HWND> = Vec::new();
        let mut i: usize = 0;
        while i < self.windows.len()
            invariant
                self.wf(),
                i <= self.windows@.len(),
                children@ == crate::util::descendant_handles(self.windows@, i as int, hwnd),
            decreases self.windows@.len() - i,
        {
            let x = self.windows[i].hwnd;
            if self.chain_reaches_exec(x, hwnd) {
                children.push(x);
            }
            proof {
                assert(children@ =~= crate::util::descendant_handles(
                    self.windows@,
                    i + 1,
                    hwnd,
                ));
            }
            i = i + 1;
        }
        children
    }
}

impl Ugui {
    /// Enqueues a decorated quad draw operation, tagged with the clip
    /// rectangle active at this moment. Nothing touches the backend here:
    /// the operation is composited at the end of the tick.
    pub fn paint_quad(&mut self, rect: Rect, back_color: crate::color::Color, border_color: crate::color::Color, border_size: i32)
        requires
            old(self).wf(),
        ensures
            final(self).wf(),
            *final(self) == (Ugui { quad_draw_ops: final(self).quad_draw_ops, ..*old(self) }),
            final(self).quad_draw_ops@ == old(self).quad_draw_ops@.push(
                QuadDrawOp {
                    rect,
                    clip_rect: if old(self).clip_rects@.len() > 0 {
                        Some(old(self).clip_rects@.last())
                    } else {
                        None
                    },
                    back_color,
                    border_color,
                    border_size,
                },
            ),
    {
        let clip = if self.clip_rects.len() > 0 {
            Some(self.clip_rects[self.clip_rects.len() - 1])
        } else {
            None
        };
        self.quad_draw_ops.push(
            QuadDrawOp { rect, clip_rect: clip, back_color, border_color, border_size },
        );
    }

    /// Enqueues a text draw operation, tagged with the clip rectangle active
    /// at this moment.
    pub fn paint_text(
        &mut self,
        text: &str,
        rect: Rect,
        color: crate::color::Color,
        horizontal_alignment: crate::alignment::Alignment,
        vertical_alignment: crate::alignment::Alignment,
        size: i32,
        line_height: i32,
    )
        requires
            old(self).wf(),
        ensures
            final(self).wf(),
            *final(self) == (Ugui { text_draw_ops: final(self).text_draw_ops, ..*old(self) }),
            final(self).text_draw_ops@.len() == old(self).text_draw_ops@.len() + 1,
            old(self).text_draw_ops@.is_prefix_of(final(self).text_draw_ops@),
            final(self).text_draw_ops@.last().text@ == text@,
            final(self).text_draw_ops@.last().rect == rect,
            final(self).text_draw_ops@.last().color == color,
            final(self).text_draw_ops@.last().h_align == horizontal_alignment,
            final(self).text_draw_ops@.last().v_align == vertical_alignment,
            final(self).text_draw_ops@.last().size == size,
            final(self).text_draw_ops@.last().line_height == line_height,
            final(self).text_draw_ops@.last().clip_rect == (if old(self).clip_rects@.len() > 0 {
                Some(old(self).clip_rects@.last())
            } else {
                None::<Rect>
            }),
    {
        let clip = if self.clip_rects.len() > 0 {
            Some(self.clip_rects[self.clip_rects.len() - 1])
        } else {
            None
        };
        let op = TextDrawOp {
            rect,
            clip_rect: clip,
            color,
            text: text.to_owned(),
            h_align: horizontal_alignment,
            v_align: vertical_alignment,
            size,
            line_height,
        };
        self.text_draw_ops.push(op);
        proof {
            lemma_prefix_refl(old(self).text_draw_ops@);
            lemma_prefix_push(
                old(self).text_draw_ops@,
                old(self).text_draw_ops@,
                self.text_draw_ops@.last(),
            );
        }
    }

    /// Pushes a clipping rectangle onto the clip stack.
    pub fn push_clip(&mut self, rect: Rect)
        requires
            old(self).wf(),
        ensures
            final(self).wf(),
            *final(self) == (Ugui { clip_rects: final(self).clip_rects, ..*old(self) }),
            final(self).clip_rects@ == old(self).clip_rects@.push(rect),
    {
        self.clip_rects.push(rect);
    }

    /// Pops the topmost clipping rectangle off the clip stack; popping an
    /// empty stack does nothing.
    pub fn pop_clip(&mut self)
        requires
            old(self).wf(),
        ensures
            final(self).wf(),
            *final(self) == (Ugui { clip_rects: final(self).clip_rects, ..*old(self) }),
            final(self).clip_rects@ == old(self).clip_rects@.drop_last()
                || old(self).clip_rects@.len() == 0 && final(self).clip_rects@
                == old(self).clip_rects@,
    {
        if self.clip_rects.len() > 0 {
            self.clip_rects.pop();
        }
    }
}

impl Default for Ugui {
    /// The same fresh context `new` returns.
    fn default() -> (r: Ugui)
        ensures
            r.wf(),
            r.is_fresh(),
    {
        Ugui::new()
    }
}

/// Replacing one window's user data (everything else equal) preserves the
/// registry invariant.
proof fn lemma_user_data_update_wf(a: Ugui, b: Ugui, i: int)
    requires
        a.wf(),
        0 <= i < a.windows@.len(),
        b.windows@ == a.windows@.update(i, Window { user_data: b.windows@[i].user_data, ..a.windows@[i] }),
        b == (Ugui { windows: b.windows, ..a }),
    ensures
        b.wf(),
{
    assert(same_shape(a.windows@, b.windows@));
    lemma_same_shape_wf(a, b);
}

/// The registry invariant depends only on window shape (and the queues), not
/// on user data: two contexts equal but for the user data stored on their
/// windows are both well-formed or neither.
pub proof fn lemma_same_shape_wf(a: Ugui, b: Ugui)
    requires
        a.wf(),
        same_shape(a.windows@, b.windows@),
        b.next_hwnd == a.next_hwnd,
        b.focused_hwnd == a.focused_hwnd,
        b.captured_hwnd == a.captured_hwnd,
        b.message_queue@ == a.message_queue@,
    ensures
        b.wf(),
{
    assert(handles_unique(b.windows@));
    assert forall|i: int| 0 <= i < b.windows@.len() implies parent_below(#[trigger] b.windows@[i]) by {
        assert(shape_eq(a.windows@[i], b.windows@[i]));
        assert(parent_below(a.windows@[i]));
    }
    lemma_same_shape_focus_ok(a.windows@, b.windows@, a.focused_hwnd);
    lemma_same_shape_capture_ok(a.windows@, b.windows@, a.captured_hwnd);
}

/// With the same shapes, the same handles may hold focus.
proof fn lemma_same_shape_focus_ok(a: Seq<Window>, b: Seq<Window>, h: Option<HWND>)
    requires
        handles_unique(a),
        same_shape(a, b),
        focus_ok_opt(a, h),
    ensures
        focus_ok_opt(b, h),
{
    match h {
        None => {},
        Some(x) => {
            lemma_same_shape_win_of(a, b, x);
        },
    }
}

/// With the same shapes, the same handles may hold the capture.
proof fn lemma_same_shape_capture_ok(a: Seq<Window>, b: Seq<Window>, h: Option<HWND>)
    requires
        handles_unique(a),
        same_shape(a, b),
        capture_ok_opt(a, h),
    ensures
        capture_ok_opt(b, h),
{
    match h {
        None => {},
        Some(x) => {
            lemma_same_shape_win_of(a, b, x);
        },
    }
}

/// Lookups by handle depend only on the handles and styles of the windows:
/// two lists agreeing on those agree on existence, index, and the styles of
/// the window found.
proof fn lemma_lookup_same_handles_styles(a: Seq<Window>, b: Seq<Window>, h: HWND)
    requires
        handles_unique(a),
        b.len() == a.len(),
        forall|i: int|
            0 <= i < a.len() ==> (#[trigger] b[i]).hwnd == a[i].hwnd && b[i].styles == a[i].styles,
        has_hwnd(a, h),
    ensures
        has_hwnd(b, h),
        idx_of(b, h) == idx_of(a, h),
        win_of(b, h).hwnd == win_of(a, h).hwnd,
        win_of(b, h).styles == win_of(a, h).styles,
{
    let i = idx_of(a, h);
    assert(0 <= i < a.len() && a[i].hwnd == h);
    assert(handles_unique(b)) by {
        assert(forall|x: int, y: int|
            0 <= x < y < b.len() ==> b[x].hwnd == a[x].hwnd && b[y].hwnd == a[y].hwnd);
    }
    crate::util::lemma_win_at_index(b, i);
}

/// Focus and capture validity depend only on handles and styles.
proof fn lemma_holders_same_handles_styles(a: Seq<Window>, b: Seq<Window>)
    requires
        handles_unique(a),
        b.len() == a.len(),
        forall|i: int|
            0 <= i < a.len() ==> (#[trigger] b[i]).hwnd == a[i].hwnd && b[i].styles == a[i].styles,
    ensures
        forall|h: HWND| capture_ok(a, h) ==> #[trigger] capture_ok(b, h),
        forall|h: HWND| crate::util::focus_ok(a, h) ==> #[trigger] crate::util::focus_ok(b, h),
{
    assert forall|h: HWND| capture_ok(a, h) implies #[trigger] capture_ok(b, h) by {
        lemma_lookup_same_handles_styles(a, b, h);
    }
    assert forall|h: HWND| crate::util::focus_ok(a, h) implies #[trigger] crate::util::focus_ok(
        b,
        h,
    ) by {
        lemma_lookup_same_handles_styles(a, b, h);
    }
}

/// Appending a window with a fresh handle leaves every existing lookup
/// untouched and makes the new handle resolve to the new window.
pub proof fn lemma_push_fresh(ws: Seq<Window>, w: Window)
    requires
        handles_unique(ws),
        forall|i: int| 0 <= i < ws.len() ==> (#[trigger] ws[i]).hwnd != w.hwnd,
    ensures
        handles_unique(ws.push(w)),
        forall|h: HWND|
            has_hwnd(ws, h) ==> #[trigger] has_hwnd(ws.push(w), h) && idx_of(ws.push(w), h)
                == idx_of(ws, h) && win_of(ws.push(w), h) == win_of(ws, h),
        has_hwnd(ws.push(w), w.hwnd),
        idx_of(ws.push(w), w.hwnd) == ws.len(),
        win_of(ws.push(w), w.hwnd) == w,
{
    let e = ws.push(w);
    assert(e.len() == ws.len() + 1);
    assert(forall|i: int| 0 <= i < ws.len() ==> e[i] == ws[i]);
    assert(e[ws.len() as int] == w);
    assert(handles_unique(e));
    assert forall|h: HWND| has_hwnd(ws, h) implies #[trigger] has_hwnd(e, h) && idx_of(e, h)
        == idx_of(ws, h) && win_of(e, h) == win_of(ws, h) by {
        let i = idx_of(ws, h);
        assert(0 <= i < ws.len() && ws[i].hwnd == h);
        crate::util::lemma_win_at_index(e, i);
        crate::util::lemma_win_at_index(ws, i);
    }
    crate::util::lemma_win_at_index(e, ws.len() as int);
}

/// Removing one window leaves lookups of every other handle untouched, and
/// its own handle unresolvable.
pub proof fn lemma_remove_keeps(ws: Seq<Window>, i: int)
    requires
        handles_unique(ws),
        0 <= i < ws.len(),
    ensures
        handles_unique(ws.remove(i)),
        !has_hwnd(ws.remove(i), ws[i].hwnd),
        forall|h: HWND|
            has_hwnd(ws, h) && h != ws[i].hwnd ==> #[trigger] has_hwnd(ws.remove(i), h),
        forall|h: HWND|
            has_hwnd(ws, h) && h != ws[i].hwnd ==> (#[trigger] win_of(ws.remove(i), h)) == win_of(
                ws,
                h,
            ),
{
    let e = ws.remove(i);
    assert(forall|k: int| 0 <= k < i ==> e[k] == ws[k]);
    assert(forall|k: int| i <= k < e.len() ==> e[k] == ws[k + 1]);
    assert(handles_unique(e));
    assert(!has_hwnd(e, ws[i].hwnd)) by {
        if has_hwnd(e, ws[i].hwnd) {
            let k = choose|k: int| 0 <= k < e.len() && e[k].hwnd == ws[i].hwnd;
            if k < i {
                assert(ws[k].hwnd == ws[i].hwnd);
            } else {
                assert(ws[k + 1].hwnd == ws[i].hwnd);
            }
        }
    }
    assert forall|h: HWND| has_hwnd(ws, h) && h != ws[i].hwnd implies #[trigger] has_hwnd(
        ws.remove(i),
        h,
    ) by {
        let j = idx_of(ws, h);
        assert(0 <= j < ws.len() && ws[j].hwnd == h);
        assert(j != i);
        if j < i {
            assert(ws.remove(i)[j] == ws[j]);
        } else {
            assert(ws.remove(i)[j - 1] == ws[j]);
        }
    }
    assert forall|h: HWND| has_hwnd(ws, h) && h != ws[i].hwnd implies (#[trigger] win_of(
        ws.remove(i),
        h,
    )) == win_of(ws, h) by {
        let j = idx_of(ws, h);
        assert(0 <= j < ws.len() && ws[j].hwnd == h);
        assert(j != i);
        if j < i {
            assert(ws.remove(i)[j] == ws[j]);
            crate::util::lemma_win_at_index(ws.remove(i), j);
        } else {
            assert(ws.remove(i)[j - 1] == ws[j]);
            crate::util::lemma_win_at_index(ws.remove(i), j - 1);
        }
        crate::util::lemma_win_at_index(ws, j);
    }
}

/// With the same shapes, lookups by handle land on the same index, and the
/// window found has the same shape.
pub proof fn lemma_same_shape_win_of(a: Seq<Window>, b: Seq<Window>, h: HWND)
    requires
        handles_unique(a),
        same_shape(a, b),
        has_hwnd(a, h),
    ensures
        has_hwnd(b, h),
        idx_of(b, h) == idx_of(a, h),
        shape_eq(win_of(a, h), win_of(b, h)),
{
    let i = idx_of(a, h);
    assert(0 <= i < a.len() && a[i].hwnd == h);
    assert(shape_eq(a[i], b[i]));
    assert(handles_unique(b)) by {
        assert(forall|x: int, y: int|
            0 <= x < y < b.len() ==> b[x].hwnd == a[x].hwnd && b[y].hwnd == a[y].hwnd);
    }
    crate::util::lemma_win_at_index(b, i);
}

impl Ugui {
    /// Paints all windows inside a rectangle: pushes `rect` as the active
    /// clip, walks a stable snapshot of the handles in creation order, sends
    /// `Paint` directly (never queued) to every live, visible window whose
    /// bounds intersect the clip, and pops the clip. Paint handlers only
    /// ever enqueue draw operations: the pass provably leaves the window
    /// records, every queue, the capture and the focus exactly as it found
    /// them, and appends exactly the pass's draw operations, each tagged
    /// with `rect` as clip.
    fn paint_rect(&mut self, rect: Rect)
        requires
            old(self).wf(),
        ensures
            final(self).wf(),
            final(self).windows@ == old(self).windows@,
            final(self).message_queue == old(self).message_queue,
            final(self).pending_ops == old(self).pending_ops,
            final(self).captured_hwnd == old(self).captured_hwnd,
            final(self).dirty_rects == old(self).dirty_rects,
            final(self).quad_draw_ops@ == old(self).quad_draw_ops@ + paint_pass_quads(
                old(self).windows@,
                root_of(old(self).windows@),
                old(self).windows@.len() as int,
                rect,
            ),
            final(self).text_draw_ops@ == old(self).text_draw_ops@ + paint_pass_texts(
                old(self).windows@,
                root_of(old(self).windows@),
                old(self).windows@.len() as int,
                rect,
            ),
            final(self).clip_rects@ == old(self).clip_rects@,
            final(self).focused_hwnd == old(self).focused_hwnd,
            final(self).mouse_state == old(self).mouse_state,
            final(self).next_hwnd == old(self).next_hwnd,
            final(self).last_text_input == old(self).last_text_input,
    {
        self.clip_rects.push(rect);
        let ghost start = *self;
        let snapshot = crate::util::window_handles(&self.windows);
        let mut k: usize = 0;
        proof {
            assert(self.quad_draw_ops@ =~= start.quad_draw_ops@ + paint_pass_quads(
                start.windows@,
                root_of(start.windows@),
                0,
                rect,
            ));
            assert(self.text_draw_ops@ =~= start.text_draw_ops@ + paint_pass_texts(
                start.windows@,
                root_of(start.windows@),
                0,
                rect,
            ));
        }
        while k < snapshot.len()
            invariant
                k <= snapshot@.len(),
                self.wf(),
                start.wf(),
                clip_top(start.clip_rects@) == Some(rect),
                snapshot@.len() == start.windows@.len(),
                forall|j: int| 0 <= j < snapshot@.len() ==> snapshot@[j] == start.windows@[j].hwnd,
                self.windows@ == start.windows@,
                self.message_queue == start.message_queue,
                self.pending_ops == start.pending_ops,
                self.captured_hwnd == start.captured_hwnd,
                self.dirty_rects == start.dirty_rects,
                self.quad_draw_ops@ == start.quad_draw_ops@ + paint_pass_quads(
                    start.windows@,
                    root_of(start.windows@),
                    k as int,
                    rect,
                ),
                self.text_draw_ops@ == start.text_draw_ops@ + paint_pass_texts(
                    start.windows@,
                    root_of(start.windows@),
                    k as int,
                    rect,
                ),
                self.clip_rects == start.clip_rects,
                self.focused_hwnd == start.focused_hwnd,
                self.mouse_state == start.mouse_state,
                self.next_hwnd == start.next_hwnd,
                self.last_text_input == start.last_text_input,
            decreases snapshot@.len() - k,
        {
            let h = snapshot[k];
            proof {
                crate::util::lemma_win_at_index(self.windows@, k as int);
            }
            let deliver_it = match crate::util::window_from_hwnd_safe(&self.windows, h) {
                Some(w) => w.styles.visible && w.rect.intersects(rect),
                None => false,
            };
            if deliver_it {
                let ghost pre = *self;
                let _ = self.deliver(h, Message::Paint);
                proof {
                    assert(clip_top(pre.clip_rects@) == Some(rect));
                    assert(deliver_commands(pre, h, Message::Paint) == window_commands_on(
                        start.windows@[k as int],
                        root_of(start.windows@),
                        Message::Paint,
                    ));
                    assert(self.quad_draw_ops@ =~= start.quad_draw_ops@ + paint_pass_quads(
                        start.windows@,
                        root_of(start.windows@),
                        k + 1,
                        rect,
                    ));
                    assert(self.text_draw_ops@ =~= start.text_draw_ops@ + paint_pass_texts(
                        start.windows@,
                        root_of(start.windows@),
                        k + 1,
                        rect,
                    ));
                }
            } else {
                proof {
                    assert(self.quad_draw_ops@ =~= start.quad_draw_ops@ + paint_pass_quads(
                        start.windows@,
                        root_of(start.windows@),
                        k + 1,
                        rect,
                    ));
                    assert(self.text_draw_ops@ =~= start.text_draw_ops@ + paint_pass_texts(
                        start.windows@,
                        root_of(start.windows@),
                        k + 1,
                        rect,
                    ));
                }
            }
            k = k + 1;
        }
        self.clip_rects.pop();
        proof {
            assert(self.clip_rects@ =~= old(self).clip_rects@);
            assert(self.windows@ == old(self).windows@);
            assert(self.quad_draw_ops@ =~= old(self).quad_draw_ops@ + paint_pass_quads(
                old(self).windows@,
                root_of(old(self).windows@),
                old(self).windows@.len() as int,
                rect,
            ));
            assert(self.text_draw_ops@ =~= old(self).text_draw_ops@ + paint_pass_texts(
                old(self).windows@,
                root_of(old(self).windows@),
                old(self).windows@.len() as int,
                rect,
            ));
        }
    }

    /// Destroys a window. Destroying a non-existent handle is a caller
    /// error, excluded by the precondition. The effects, strictly ordered:
    /// the window's styles are cleared (so it is no longer visible) and the
    /// capture and focus handles re-validated; `StylesChanged` is delivered
    /// and the old bounds queued; the last-known bounds are repainted
    /// immediately, so the window visually disappears; the terminal
    /// `Destroy` notification is delivered; the record is removed; the
    /// capture and focus handles are re-validated once more.
    #[verifier::rlimit(60)]
    pub fn destroy_window(&mut self, hwnd: HWND)
        requires
            old(self).wf(),
            has_hwnd(old(self).windows@, hwnd),
        ensures
            final(self).wf(),
            final(self).windows@ == old(self).windows@.remove(idx_of(old(self).windows@, hwnd)),
            !has_hwnd(final(self).windows@, hwnd),
            final(self).focused_hwnd == (if old(self).focused_hwnd == Some(hwnd) {
                None::<HWND>
            } else {
                old(self).focused_hwnd
            }),
            final(self).captured_hwnd == (if old(self).captured_hwnd == Some(hwnd) {
                None::<HWND>
            } else {
                old(self).captured_hwnd
            }),
            final(self).message_queue == old(self).message_queue,
            final(self).pending_ops == old(self).pending_ops,
            final(self).dirty_rects@ == old(self).dirty_rects@.push(
                win_of(old(self).windows@, hwnd).rect,
            ),
            final(self).quad_draw_ops@ == old(self).quad_draw_ops@ + paint_pass_quads(
                old(self).windows@.update(
                    idx_of(old(self).windows@, hwnd),
                    Window {
                        styles: StyleSet { visible: false, enabled: false, focusable: false },
                        user_data: proc_data_after(
                            win_of(old(self).windows@, hwnd).procedure,
                            win_of(old(self).windows@, hwnd).user_data,
                            StyleSet { visible: false, enabled: false, focusable: false },
                            Message::StylesChanged,
                        ),
                        ..win_of(old(self).windows@, hwnd)
                    },
                ),
                root_of(old(self).windows@),
                old(self).windows@.len() as int,
                win_of(old(self).windows@, hwnd).rect,
            ),
            final(self).text_draw_ops@ == old(self).text_draw_ops@ + paint_pass_texts(
                old(self).windows@.update(
                    idx_of(old(self).windows@, hwnd),
                    Window {
                        styles: StyleSet { visible: false, enabled: false, focusable: false },
                        user_data: proc_data_after(
                            win_of(old(self).windows@, hwnd).procedure,
                            win_of(old(self).windows@, hwnd).user_data,
                            StyleSet { visible: false, enabled: false, focusable: false },
                            Message::StylesChanged,
                        ),
                        ..win_of(old(self).windows@, hwnd)
                    },
                ),
                root_of(old(self).windows@),
                old(self).windows@.len() as int,
                win_of(old(self).windows@, hwnd).rect,
            ),
            pump_frame(*old(self), *final(self)),
            final(self).next_hwnd == old(self).next_hwnd,
    {
        let i = match index_of_hwnd(&self.windows, hwnd) {
            Some(i) => i,
            None => {
                proof {
                    assert(false);
                }
                unreached()
            },
        };
        let rect = self.windows[i].rect;
        self.windows[i].styles = StyleSet::none();
        self.focused_hwnd = crate::util::fix_dependent_focus_handle(
            &self.windows,
            self.focused_hwnd,
        );
        self.captured_hwnd = crate::util::fix_dependent_visual_handle(
            &self.windows,
            self.captured_hwnd,
        );
        proof {
            assert(self.wf());
            match old(self).focused_hwnd {
                Some(f) => {
                    if f == hwnd {
                        crate::util::lemma_win_at_index(self.windows@, i as int);
                        assert(self.focused_hwnd is None);
                    } else {
                        let j = idx_of(old(self).windows@, f);
                        assert(old(self).windows@[j].hwnd == f);
                        assert(j != i);
                        crate::util::lemma_win_at_index(self.windows@, j);
                        crate::util::lemma_win_at_index(old(self).windows@, j);
                        assert(self.focused_hwnd == Some(f));
                    }
                },
                None => {},
            }
            match old(self).captured_hwnd {
                Some(c) => {
                    if c == hwnd {
                        crate::util::lemma_win_at_index(self.windows@, i as int);
                        assert(self.captured_hwnd is None);
                    } else {
                        let j = idx_of(old(self).windows@, c);
                        assert(old(self).windows@[j].hwnd == c);
                        assert(j != i);
                        crate::util::lemma_win_at_index(self.windows@, j);
                        crate::util::lemma_win_at_index(old(self).windows@, j);
                        assert(self.captured_hwnd == Some(c));
                    }
                },
                None => {},
            }
        }
        let ghost fixed = *self;
        proof {
            crate::util::lemma_win_at_index(fixed.windows@, i as int);
        }
        let _ = self.deliver(hwnd, Message::StylesChanged);
        self.dirty_rects.push(rect);
        let ghost mid1 = *self;
        proof {
            assert(mid1.windows@ =~= old(self).windows@.update(
                i as int,
                Window {
                    styles: StyleSet { visible: false, enabled: false, focusable: false },
                    user_data: proc_data_after(
                        win_of(old(self).windows@, hwnd).procedure,
                        win_of(old(self).windows@, hwnd).user_data,
                        StyleSet { visible: false, enabled: false, focusable: false },
                        Message::StylesChanged,
                    ),
                    ..win_of(old(self).windows@, hwnd)
                },
            ));
            assert(root_of(mid1.windows@) == root_of(old(self).windows@));
        }
        self.paint_rect(rect);
        let ghost mid2 = *self;
        let _ = self.deliver(hwnd, Message::Destroy);
        let ghost before_remove = *self;
        proof {
            assert(same_shape(fixed.windows@, mid1.windows@));
            assert(same_shape(fixed.windows@, before_remove.windows@));
            assert((before_remove.windows@[i as int]).hwnd == hwnd);
            assert forall|k: int|
                0 <= k < before_remove.windows@.len() && k != i implies before_remove.windows@[k]
                == old(self).windows@[k] by {
                assert(old(self).windows@[k].hwnd != old(self).windows@[i as int].hwnd);
                assert(fixed.windows@[k] == old(self).windows@[k]);
                assert((#[trigger] fixed.windows@[k]).hwnd != hwnd);
                assert(mid1.windows@[k] == fixed.windows@[k]);
                assert(mid2.windows@[k] == mid1.windows@[k]);
                assert(before_remove.windows@[k] == mid2.windows@[k]);
            }
        }
        self.windows.remove(i);
        proof {
            lemma_remove_keeps(before_remove.windows@, i as int);
            assert(handles_unique(self.windows@));
            assert(forall|k: int| 0 <= k < i ==> self.windows@[k] == before_remove.windows@[k]);
            assert(forall|k: int|
                i <= k < self.windows@.len() ==> self.windows@[k] == before_remove.windows@[k
                    + 1]);
            match fixed.focused_hwnd {
                Some(f) => {
                    assert(f != hwnd);
                    lemma_same_shape_focus_ok(fixed.windows@, before_remove.windows@, Some(f));
                    assert(has_hwnd(before_remove.windows@, f));
                    assert(has_hwnd(before_remove.windows@.remove(i as int), f));
                    assert(win_of(before_remove.windows@.remove(i as int), f) == win_of(
                        before_remove.windows@,
                        f,
                    ));
                    assert(crate::util::focus_ok(self.windows@, f));
                },
                None => {},
            }
            match fixed.captured_hwnd {
                Some(c) => {
                    assert(c != hwnd);
                    lemma_same_shape_capture_ok(fixed.windows@, before_remove.windows@, Some(c));
                    assert(has_hwnd(before_remove.windows@, c));
                    assert(has_hwnd(before_remove.windows@.remove(i as int), c));
                    assert(win_of(before_remove.windows@.remove(i as int), c) == win_of(
                        before_remove.windows@,
                        c,
                    ));
                    assert(capture_ok(self.windows@, c));
                },
                None => {},
            }
        }
        self.focused_hwnd = crate::util::fix_dependent_focus_handle(
            &self.windows,
            self.focused_hwnd,
        );
        self.captured_hwnd = crate::util::fix_dependent_visual_handle(
            &self.windows,
            self.captured_hwnd,
        );
        proof {
            lemma_prefix_refl(old(self).dirty_rects@);
            lemma_prefix_push(old(self).dirty_rects@, old(self).dirty_rects@, rect);
            assert(self.quad_draw_ops@ == old(self).quad_draw_ops@ + paint_pass_quads(
                mid1.windows@,
                root_of(old(self).windows@),
                old(self).windows@.len() as int,
                rect,
            ));
            lemma_prefix_concat(
                old(self).quad_draw_ops@,
                paint_pass_quads(
                    mid1.windows@,
                    root_of(old(self).windows@),
                    old(self).windows@.len() as int,
                    rect,
                ),
            );
            lemma_prefix_concat(
                old(self).text_draw_ops@,
                paint_pass_texts(
                    mid1.windows@,
                    root_of(old(self).windows@),
                    old(self).windows@.len() as int,
                    rect,
                ),
            );
        }
        proof {
            assert forall|k: int|
                0 <= k < self.windows@.len() implies parent_below(
                #[trigger] self.windows@[k],
            ) && self.windows@[k].hwnd < self.next_hwnd by {
                if k < i {
                    assert(shape_eq(old(self).windows@[k], self.windows@[k]));
                    assert(parent_below(old(self).windows@[k]));
                } else {
                    assert(shape_eq(old(self).windows@[k + 1], self.windows@[k]));
                    assert(parent_below(old(self).windows@[k + 1]));
                }
            }
            assert(self.wf());
            assert(self.windows@ =~= old(self).windows@.remove(i as int));
        }
    }
}

} // verus!
