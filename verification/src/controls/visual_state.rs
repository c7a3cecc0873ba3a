use vstd::prelude::*;

verus! {

/// The visual state a control is painted in.
#[derive(Clone, Copy, Debug, Default, PartialEq, Eq, Hash, Structural)]
pub enum VisualState {
    #[default]
    Normal,
    Hover,
    Active,
    Disabled,
}

} // verus!
