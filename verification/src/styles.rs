use vstd::prelude::*;

verus! {

/// One boolean style flag of a window.
#[derive(Clone, Copy, Debug, PartialEq, Eq, Structural)]
pub enum Styles {
    Visible,
    Enabled,
    Focusable,
}

/// A set of style flags. A window that is not `visible` is excluded from
/// hit-testing and repaint; one that is not `enabled` receives no
/// activation-oriented input; only a `focusable` window can hold focus.
#[derive(Clone, Copy, Debug, Default, PartialEq, Eq, Structural)]
pub struct StyleSet {
    pub visible: bool,
    pub enabled: bool,
    pub focusable: bool,
}

impl StyleSet {
    /// Whether the given flag is set.
    pub open spec fn spec_contains(self, style: Styles) -> bool {
        match style {
            Styles::Visible => self.visible,
            Styles::Enabled => self.enabled,
            Styles::Focusable => self.focusable,
        }
    }

    /// The empty style set: invisible, disabled, not focusable.
    pub fn none() -> (r: StyleSet)
        ensures
            r == (StyleSet { visible: false, enabled: false, focusable: false }),
    {
        StyleSet { visible: false, enabled: false, focusable: false }
    }

    pub fn contains(&self, style: Styles) -> (r: bool)
        ensures
            r == self.spec_contains(style),
    {
        match style {
            Styles::Visible => self.visible,
            Styles::Enabled => self.enabled,
            Styles::Focusable => self.focusable,
        }
    }
}

} // verus!
