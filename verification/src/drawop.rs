use crate::alignment::Alignment;
use crate::color::Color;
use crate::rect::Rect;
use vstd::prelude::*;

verus! {

/// A deferred instruction to draw a bordered quad, tagged with the clip
/// rectangle that was active when it was issued.
#[derive(Clone, Copy, Debug, PartialEq, Eq, Structural)]
pub struct QuadDrawOp {
    pub rect: Rect,
    pub clip_rect: Option<Rect>,
    pub back_color: Color,
    pub border_color: Color,
    pub border_size: i32,
}

/// A deferred instruction to draw a text run, tagged with the clip rectangle
/// that was active when it was issued.
#[derive(Clone, Debug, PartialEq)]
pub struct TextDrawOp {
    pub rect: Rect,
    pub clip_rect: Option<Rect>,
    pub color: Color,
    pub text: String,
    pub h_align: Alignment,
    pub v_align: Alignment,
    pub size: i32,
    pub line_height: i32,
}

} // verus!
