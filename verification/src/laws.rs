use crate::messages::Message;
use crate::point::Point;
use crate::ugui::{pointer_move_msgs, Ugui};
use crate::util::{has_hwnd, hit, hit_index, win_of};
use crate::window::Window;
use crate::HWND;
use vstd::prelude::*;

verus! {

/// Handle uniqueness: no two simultaneously live windows share a handle.
/// (Stability is a consequence of the mutators' contracts: every operation
/// preserves the `hwnd` of each surviving window, and `create_window`
/// allocates from a counter that is never reused.)
pub proof fn lemma_handles_unique(u: Ugui, i: int, j: int)
    requires
        u.wf(),
        0 <= i < u.windows@.len(),
        0 <= j < u.windows@.len(),
        i != j,
    ensures
        u.windows@[i].hwnd != u.windows@[j].hwnd,
{
}

/// Visibility/hit-test consistency: the hit-test returns no window, or a
/// window that is visible and whose bounds contain the point; and when two
/// windows both claim the point, the more recently created one wins.
pub proof fn lemma_hit_test_consistent(ws: Seq<Window>, p: Point)
    ensures
        hit_index(ws, p) != -1 ==> {
            &&& 0 <= hit_index(ws, p) < ws.len()
            &&& ws[hit_index(ws, p)].styles.visible
            &&& p.spec_inside(ws[hit_index(ws, p)].rect)
        },
        forall|i: int| 0 <= i < ws.len() && hit(ws[i], p) ==> hit_index(ws, p) >= i,
{
    crate::util::lemma_hit_index(ws, p);
    assert forall|i: int| 0 <= i < ws.len() && hit(ws[i], p) implies hit_index(ws, p) >= i by {
        if hit_index(ws, p) == -1 {
            assert(!hit(ws[i], p));
        }
    }
}

/// Focus invariant: the focused handle, when present, refers to a window
/// that is live, visible, enabled, and focusable. Every mutation that could
/// break this (a style change, a destruction) re-validates the handle, so it
/// holds of every well-formed context.
pub proof fn lemma_focus_valid(u: Ugui, h: HWND)
    requires
        u.wf(),
        u.focused_hwnd == Some(h),
    ensures
        has_hwnd(u.windows@, h),
        win_of(u.windows@, h).styles.visible,
        win_of(u.windows@, h).styles.enabled,
        win_of(u.windows@, h).styles.focusable,
{
}

/// Capture invariant: the captured handle, when present, refers to a window
/// that is live, visible, and enabled.
pub proof fn lemma_capture_valid(u: Ugui, h: HWND)
    requires
        u.wf(),
        u.captured_hwnd == Some(h),
    ensures
        has_hwnd(u.windows@, h),
        win_of(u.windows@, h).styles.visible,
        win_of(u.windows@, h).styles.enabled,
{
}

/// Capture bypass: with capture held by `h`, a pointer move produces exactly
/// one `MouseMove`, addressed to `h` whatever the hit-test would have said;
/// every message of the batch goes to `h`; and a `MouseEnter` or a
/// `MouseLeave` is present exactly as `h`'s own bounds, held against the
/// previous and the current position, demand - never both.
pub proof fn lemma_capture_bypass(
    ws: Seq<Window>,
    h: HWND,
    last: Point,
    pos: Point,
    msgs: Seq<(HWND, Message)>,
)
    requires
        msgs == pointer_move_msgs(ws, Some(h), last, pos),
    ensures
        1 <= msgs.len() <= 2,
        msgs[0] == (h, Message::MouseMove),
        forall|k: int| 1 <= k < msgs.len() ==> (#[trigger] msgs[k]).1 != Message::MouseMove,
        forall|k: int| 0 <= k < msgs.len() ==> (#[trigger] msgs[k]).0 == h,
        (exists|k: int| 0 <= k < msgs.len() && (#[trigger] msgs[k]).1 == Message::MouseEnter)
            <==> (pos.spec_inside(win_of(ws, h).rect) && !last.spec_inside(win_of(ws, h).rect)),
        (exists|k: int| 0 <= k < msgs.len() && (#[trigger] msgs[k]).1 == Message::MouseLeave)
            <==> (!pos.spec_inside(win_of(ws, h).rect) && last.spec_inside(win_of(ws, h).rect)),
{
    let rc = win_of(ws, h).rect;
    if pos.spec_inside(rc) && !last.spec_inside(rc) {
        assert(msgs =~= seq![(h, Message::MouseMove), (h, Message::MouseEnter)]);
        assert(msgs[1].1 == Message::MouseEnter);
    } else if !pos.spec_inside(rc) && last.spec_inside(rc) {
        assert(msgs =~= seq![(h, Message::MouseMove), (h, Message::MouseLeave)]);
        assert(msgs[1].1 == Message::MouseLeave);
    } else {
        assert(msgs =~= seq![(h, Message::MouseMove)]);
    }
}

/// Paint exclusivity: `Paint` is never present in the deferred message
/// queue of a well-formed context; it is only ever delivered synchronously
/// from the paint pass, inside a clip scope.
pub proof fn lemma_paint_never_queued(u: Ugui, k: int)
    requires
        u.wf(),
        0 <= k < u.message_queue@.len(),
    ensures
        u.message_queue@[k].1 != Message::Paint,
{
}

} // verus!
