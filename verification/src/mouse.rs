use crate::point::Point;
use vstd::prelude::*;

verus! {

/// The pointer state the event translator keeps between events.
#[derive(Clone, Copy, Debug, Default, PartialEq, Eq, Structural)]
pub struct MouseState {
    /// The current pointer position.
    pub pos: Point,
    /// The pointer position of the previous move event.
    pub last_pos: Point,
    /// Where the primary button was last pressed; release events re-hit-test
    /// at this point, not at the release point.
    pub lmb_down_pos: Point,
    /// Whether the primary button is down.
    pub lmb: bool,
    /// Whether the secondary button is down.
    pub rmb: bool,
    /// Whether the middle button is down.
    pub mmb: bool,
}

} // verus!
