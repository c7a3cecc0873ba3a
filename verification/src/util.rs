use crate::messages::Message;
use crate::point::Point;
use crate::rect::Rect;
use crate::window::Window;
use crate::HWND;
use vstd::prelude::*;

verus! {

/// Whether some window in `ws` carries the handle `hwnd`.
pub open spec fn has_hwnd(ws: Seq<Window>, hwnd: HWND) -> bool {
    exists|i: int| 0 <= i < ws.len() && ws[i].hwnd == hwnd
}

/// The index of the window carrying `hwnd`; meaningful when handles are
/// unique and `has_hwnd` holds.
pub open spec fn idx_of(ws: Seq<Window>, hwnd: HWND) -> int {
    choose|i: int| 0 <= i < ws.len() && ws[i].hwnd == hwnd
}

/// The window carrying `hwnd`.
pub open spec fn win_of(ws: Seq<Window>, hwnd: HWND) -> Window {
    ws[idx_of(ws, hwnd)]
}

/// No two windows share a handle.
pub open spec fn handles_unique(ws: Seq<Window>) -> bool {
    forall|i: int, j: int|
        0 <= i < j < ws.len() ==> ws[i].hwnd != ws[j].hwnd
}

proof fn lemma_idx_of_unique(ws: Seq<Window>, i: int)
    requires
        handles_unique(ws),
        0 <= i < ws.len(),
    ensures
        idx_of(ws, ws[i].hwnd) == i,
{
    let h = ws[i].hwnd;
    assert(has_hwnd(ws, h));
    let j = idx_of(ws, h);
    assert(0 <= j < ws.len() && ws[j].hwnd == h);
    if i < j {
        assert(ws[i].hwnd != ws[j].hwnd);
    } else if j < i {
        assert(ws[j].hwnd != ws[i].hwnd);
    }
}

/// With unique handles, the window found at index `i` is the window of its
/// handle.
pub proof fn lemma_win_at_index(ws: Seq<Window>, i: int)
    requires
        handles_unique(ws),
        0 <= i < ws.len(),
    ensures
        has_hwnd(ws, ws[i].hwnd),
        idx_of(ws, ws[i].hwnd) == i,
        win_of(ws, ws[i].hwnd) == ws[i],
{
    lemma_idx_of_unique(ws, i);
}

/// Whether `hwnd` may hold the mouse capture: it must refer to a live window
/// that is visible and enabled.
pub open spec fn capture_ok(ws: Seq<Window>, hwnd: HWND) -> bool {
    &&& has_hwnd(ws, hwnd)
    &&& win_of(ws, hwnd).styles.visible
    &&& win_of(ws, hwnd).styles.enabled
}

/// Whether `hwnd` may hold focus: additionally, the window must be focusable.
pub open spec fn focus_ok(ws: Seq<Window>, hwnd: HWND) -> bool {
    &&& capture_ok(ws, hwnd)
    &&& win_of(ws, hwnd).styles.focusable
}

pub open spec fn capture_ok_opt(ws: Seq<Window>, hwnd: Option<HWND>) -> bool {
    match hwnd {
        None => true,
        Some(h) => capture_ok(ws, h),
    }
}

pub open spec fn focus_ok_opt(ws: Seq<Window>, hwnd: Option<HWND>) -> bool {
    match hwnd {
        None => true,
        Some(h) => focus_ok(ws, h),
    }
}

/// A dependent capture handle after re-validation: kept when still valid,
/// cleared otherwise.
pub open spec fn spec_fix_capture(ws: Seq<Window>, hwnd: Option<HWND>) -> Option<HWND> {
    match hwnd {
        None => None,
        Some(h) => if capture_ok(ws, h) {
            Some(h)
        } else {
            None
        },
    }
}

/// A dependent focus handle after re-validation.
pub open spec fn spec_fix_focus(ws: Seq<Window>, hwnd: Option<HWND>) -> Option<HWND> {
    match hwnd {
        None => None,
        Some(h) => if focus_ok(ws, h) {
            Some(h)
        } else {
            None
        },
    }
}

/// Whether `p` hits `w`: the window is visible and `p` lies inside its bounds.
pub open spec fn hit(w: Window, p: Point) -> bool {
    w.styles.visible && p.spec_inside(w.rect)
}

/// The index of the topmost window hit by `p` (the last created wins), or -1
/// when no visible window contains `p`.
pub open spec fn hit_index(ws: Seq<Window>, p: Point) -> int
    decreases ws.len(),
{
    if ws.len() == 0 {
        -1
    } else if hit(ws.last(), p) {
        ws.len() - 1
    } else {
        hit_index(ws.drop_last(), p)
    }
}

/// What `hit_index` returns: -1 exactly when nothing is hit, otherwise the
/// largest index of a hit window.
pub proof fn lemma_hit_index(ws: Seq<Window>, p: Point)
    ensures
        hit_index(ws, p) == -1 <==> (forall|i: int| 0 <= i < ws.len() ==> !hit(ws[i], p)),
        hit_index(ws, p) != -1 ==> {
            &&& 0 <= hit_index(ws, p) < ws.len()
            &&& hit(ws[hit_index(ws, p)], p)
            &&& forall|i: int| hit_index(ws, p) < i < ws.len() ==> !hit(ws[i], p)
        },
    decreases ws.len(),
{
    if ws.len() != 0 {
        lemma_hit_index(ws.drop_last(), p);
        assert(forall|i: int| 0 <= i < ws.len() - 1 ==> ws.drop_last()[i] == ws[i]);
    }
}

/// No message in the queue is `Paint`.
pub open spec fn no_paint_queued(q: Seq<(HWND, Message)>) -> bool {
    forall|i: int| 0 <= i < q.len() ==> (#[trigger] q[i]).1 != Message::Paint
}

/// The handles of the first `upto` windows whose bounds intersect `r`, in
/// creation order.
pub open spec fn handles_inside(ws: Seq<Window>, upto: int, r: Rect) -> Seq<HWND>
    decreases upto,
{
    if upto <= 0 {
        Seq::empty()
    } else {
        handles_inside(ws, upto - 1, r) + if ws[upto - 1].rect.spec_intersects(r) {
            seq![ws[upto - 1].hwnd]
        } else {
            Seq::empty()
        }
    }
}

/// Whether the parent chain starting at `x` reaches `target`: `x` is live,
/// and its parent either is `target` or (being below `x`, as creation order
/// guarantees) itself reaches `target`.
pub open spec fn chain_reaches(ws: Seq<Window>, x: HWND, target: HWND) -> bool
    decreases x,
{
    has_hwnd(ws, x) && match win_of(ws, x).parent {
        None => false,
        Some(p) => p == target || (p < x && chain_reaches(ws, p, target)),
    }
}

/// The handles of the first `upto` windows whose parent chain reaches
/// `target`, in creation order: `target`'s descendants.
pub open spec fn descendant_handles(ws: Seq<Window>, upto: int, target: HWND) -> Seq<HWND>
    decreases upto,
{
    if upto <= 0 {
        Seq::empty()
    } else {
        descendant_handles(ws, upto - 1, target) + if chain_reaches(ws, ws[upto - 1].hwnd, target) {
            seq![ws[upto - 1].hwnd]
        } else {
            Seq::empty()
        }
    }
}

/// The handles of all windows, in creation order: the stable snapshot a
/// walk over the registry iterates while procedures run.
pub fn window_handles(windows: &Vec<Window>) -> (r: Vec<HWND>)
    ensures
        r@.len() == windows@.len(),
        forall|k: int| 0 <= k < r@.len() ==> r@[k] == windows@[k].hwnd,
{
    let mut r: Vec<HWND> = Vec::new();
    let mut i: usize = 0;
    while i < windows.len()
        invariant
            i <= windows@.len(),
            r@.len() == i,
            forall|k: int| 0 <= k < i ==> r@[k] == windows@[k].hwnd,
        decreases windows@.len() - i,
    {
        let h = windows[i].hwnd;
        r.push(h);
        i = i + 1;
    }
    r
}

/// Tries to get the window at a specified point; of the windows hit, the one
/// with the highest z-order (the most recently created) is returned.
pub fn window_at_point(windows: &Vec<Window>, point: Point) -> (r: Option<&Window>)
    ensures
        match r {
            Some(w) => hit_index(windows@, point) >= 0 && *w == windows@[hit_index(
                windows@,
                point,
            )],
            None => hit_index(windows@, point) == -1,
        },
{
    let mut i: usize = windows.len();
    proof {
        assert(windows@.take(i as int) =~= windows@);
    }
    while i > 0
        invariant
            i <= windows@.len(),
            hit_index(windows@, point) == hit_index(windows@.take(i as int), point),
        decreases i,
    {
        i = i - 1;
        let w = &windows[i];
        if w.styles.visible && point.inside(w.rect) {
            assert(windows@.take(i + 1).last() == windows@[i as int]);
            assert(hit_index(windows@.take(i + 1), point) == i);
            return Some(w);
        }
        assert(windows@.take(i + 1).drop_last() =~= windows@.take(i as int));
        assert(!hit(windows@.take(i + 1).last(), point));
    }
    assert(windows@.take(0) =~= Seq::<Window>::empty());
    None
}

/// Tries to get the window with the specified handle; `None` when no window
/// carries it.
pub fn window_from_hwnd_safe(windows: &Vec<Window>, hwnd: HWND) -> (r: Option<&Window>)
    requires
        handles_unique(windows@),
    ensures
        match r {
            Some(w) => has_hwnd(windows@, hwnd) && *w == win_of(windows@, hwnd),
            None => !has_hwnd(windows@, hwnd),
        },
{
    let mut i: usize = 0;
    while i < windows.len()
        invariant
            i <= windows@.len(),
            handles_unique(windows@),
            forall|j: int| 0 <= j < i ==> windows@[j].hwnd != hwnd,
        decreases windows@.len() - i,
    {
        if windows[i].hwnd == hwnd {
            proof {
                lemma_win_at_index(windows@, i as int);
            }
            return Some(&windows[i]);
        }
        i = i + 1;
    }
    None
}

/// The index of the window with the specified handle.
pub fn index_of_hwnd(windows: &Vec<Window>, hwnd: HWND) -> (r: Option<usize>)
    requires
        handles_unique(windows@),
    ensures
        match r {
            Some(i) => has_hwnd(windows@, hwnd) && i == idx_of(windows@, hwnd) && i
                < windows@.len() && windows@[i as int].hwnd == hwnd,
            None => !has_hwnd(windows@, hwnd),
        },
{
    let mut i: usize = 0;
    while i < windows.len()
        invariant
            i <= windows@.len(),
            handles_unique(windows@),
            forall|j: int| 0 <= j < i ==> windows@[j].hwnd != hwnd,
        decreases windows@.len() - i,
    {
        if windows[i].hwnd == hwnd {
            proof {
                lemma_win_at_index(windows@, i as int);
            }
            return Some(i);
        }
        i = i + 1;
    }
    None
}

/// Gets the window with the specified handle, which must exist.
pub fn window_from_hwnd(windows: &Vec<Window>, hwnd: HWND) -> (r: &Window)
    requires
        handles_unique(windows@),
        has_hwnd(windows@, hwnd),
    ensures
        *r == win_of(windows@, hwnd),
{
    let r = window_from_hwnd_safe(windows, hwnd);
    match r {
        Some(w) => w,
        None => {
            proof {
                assert(false);
            }
            unreached()
        },
    }
}

/// Gets a mutable reference to the window with the specified handle, which
/// must exist.
pub fn window_from_hwnd_mut(windows: &mut Vec<Window>, hwnd: HWND) -> (r: &mut Window)
    requires
        handles_unique(old(windows)@),
        has_hwnd(old(windows)@, hwnd),
    ensures
        *r == win_of(old(windows)@, hwnd),
        final(windows)@ == old(windows)@.update(idx_of(old(windows)@, hwnd), *final(r)),
{
    let i = match index_of_hwnd(windows, hwnd) {
        Some(i) => i,
        None => {
            proof {
                assert(false);
            }
            unreached()
        },
    };
    &mut windows[i]
}

/// Clears a dependent capture handle if it no longer points at a live,
/// visible, enabled window.
pub fn fix_dependent_visual_handle(windows: &Vec<Window>, hwnd: Option<HWND>) -> (r: Option<HWND>)
    requires
        handles_unique(windows@),
    ensures
        r == spec_fix_capture(windows@, hwnd),
{
    match hwnd {
        None => None,
        Some(h) => {
            match window_from_hwnd_safe(windows, h) {
                Some(w) => {
                    if w.styles.enabled && w.styles.visible {
                        Some(h)
                    } else {
                        None
                    }
                },
                None => None,
            }
        },
    }
}

/// Clears a dependent focus handle if it no longer points at a live,
/// visible, enabled, focusable window.
pub fn fix_dependent_focus_handle(windows: &Vec<Window>, hwnd: Option<HWND>) -> (r: Option<HWND>)
    requires
        handles_unique(windows@),
    ensures
        r == spec_fix_focus(windows@, hwnd),
{
    match hwnd {
        None => None,
        Some(h) => {
            match window_from_hwnd_safe(windows, h) {
                Some(w) => {
                    if w.styles.enabled && w.styles.visible && w.styles.focusable {
                        Some(h)
                    } else {
                        None
                    }
                },
                None => None,
            }
        },
    }
}

/// The windows whose bounds intersect `rect`, in creation order.
pub fn get_windows_inside_rect(windows: &Vec<Window>, rect: Rect) -> (r: Vec<&Window>)
    ensures
        r@.len() == handles_inside(windows@, windows@.len() as int, rect).len(),
        forall|k: int|
            0 <= k < r@.len() ==> (#[trigger] r@[k]).hwnd == handles_inside(
                windows@,
                windows@.len() as int,
                rect,
            )[k],
{
    let mut r: Vec<&Window> = Vec::new();
    let mut i: usize = 0;
    while i < windows.len()
        invariant
            i <= windows@.len(),
            r@.len() == handles_inside(windows@, i as int, rect).len(),
            forall|k: int|
                0 <= k < r@.len() ==> (#[trigger] r@[k]).hwnd == handles_inside(
                    windows@,
                    i as int,
                    rect,
                )[k],
        decreases windows@.len() - i,
    {
        let w = &windows[i];
        if w.rect.intersects(rect) {
            r.push(w);
        }
        i = i + 1;
    }
    r
}

/// The handles of the windows whose bounds intersect `rect`, in creation
/// order.
pub fn get_window_handles_inside_rect(windows: &Vec<Window>, rect: Rect) -> (r: Vec<HWND>)
    ensures
        r@ == handles_inside(windows@, windows@.len() as int, rect),
{
    let mut r: Vec<HWND> = Vec::new();
    let mut i: usize = 0;
    while i < windows.len()
        invariant
            i <= windows@.len(),
            r@ == handles_inside(windows@, i as int, rect),
        decreases windows@.len() - i,
    {
        let w = &windows[i];
        if w.rect.intersects(rect) {
            r.push(w.hwnd);
        }
        proof {
            assert(r@ =~= handles_inside(windows@, i + 1, rect));
        }
        i = i + 1;
    }
    r
}

} // verus!
