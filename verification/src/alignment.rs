use vstd::prelude::*;

verus! {

/// How content is placed along one axis of its bounds.
#[derive(Clone, Copy, Debug, Default, PartialEq, Eq, Structural)]
pub enum Alignment {
    #[default]
    Start,
    Center,
    End,
    Fill,
}

} // verus!
