//! How a node is framed and aligned.
use vstd::prelude::*;
use crate::renderer_object_border::{empty_border, Border, Borders};

verus! {

/// Where something stands between left and right.
#[derive(PartialEq, Eq, Structural, Debug, Clone, Copy)]
pub enum AlignmentX {
    Left,
    Center,
    Right,
}

/// Where something stands between top and bottom.
#[derive(PartialEq, Eq, Structural, Debug, Clone, Copy)]
pub enum AlignmentY {
    Top,
    Center,
    Bottom,
}

/// The frame of a node and its two alignments: the internal one, by which it
/// places what it holds, and the external one, by which it asks to be placed
/// by its parent. Without an external alignment the parent's internal one
/// holds.
#[derive(PartialEq, Eq, Structural, Debug, Clone, Copy)]
pub struct RendererObjectStyle {
    pub border: Border,
    pub internal_alignment_x: AlignmentX,
    pub internal_alignment_y: AlignmentY,
    pub external_alignment_x: Option<AlignmentX>,
    pub external_alignment_y: Option<AlignmentY>,
}

/// The style of a new node: no frame, content at the top left, no wish of
/// its own.
pub open spec fn plain_style() -> RendererObjectStyle {
    RendererObjectStyle {
        border: empty_border(),
        internal_alignment_x: AlignmentX::Left,
        internal_alignment_y: AlignmentY::Top,
        external_alignment_x: None,
        external_alignment_y: None,
    }
}

/// How far from the left something of the extent `inner` stands in a space
/// of the extent `outer`.
pub open spec fn offset_x(alignment: AlignmentX, outer: int, inner: int) -> int {
    match alignment {
        AlignmentX::Left => 0,
        AlignmentX::Center => half(outer) - half(inner),
        AlignmentX::Right => outer - inner,
    }
}

/// How far from the top something of the extent `inner` stands in a space
/// of the extent `outer`.
pub open spec fn offset_y(alignment: AlignmentY, outer: int, inner: int) -> int {
    match alignment {
        AlignmentY::Top => 0,
        AlignmentY::Center => half(outer) - half(inner),
        AlignmentY::Bottom => outer - inner,
    }
}

/// Half of an extent, rounded towards zero.
pub open spec fn half(v: int) -> int {
    if v >= 0 {
        v / 2
    } else {
        -((-v) / 2)
    }
}

/// Half of an extent, rounded towards zero.
pub fn half_exec(v: i128) -> (h: i128)
    requires
        -0x4000_0000_0000_0000_0000_0000 <= v <= 0x4000_0000_0000_0000_0000_0000,
    ensures
        h == half(v as int),
{
    if v >= 0 {
        v / 2
    } else {
        -((-v) / 2)
    }
}

/// How far from the left something stands, on machine integers.
pub fn offset_x_exec(alignment: AlignmentX, outer: i128, inner: i128) -> (o: i128)
    requires
        -0x4000_0000_0000_0000_0000_0000 <= outer <= 0x4000_0000_0000_0000_0000_0000,
        -0x4000_0000_0000_0000_0000_0000 <= inner <= 0x4000_0000_0000_0000_0000_0000,
    ensures
        o == offset_x(alignment, outer as int, inner as int),
{
    match alignment {
        AlignmentX::Left => 0,
        AlignmentX::Center => half_exec(outer) - half_exec(inner),
        AlignmentX::Right => outer - inner,
    }
}

/// How far from the top something stands, on machine integers.
pub fn offset_y_exec(alignment: AlignmentY, outer: i128, inner: i128) -> (o: i128)
    requires
        -0x4000_0000_0000_0000_0000_0000 <= outer <= 0x4000_0000_0000_0000_0000_0000,
        -0x4000_0000_0000_0000_0000_0000 <= inner <= 0x4000_0000_0000_0000_0000_0000,
    ensures
        o == offset_y(alignment, outer as int, inner as int),
{
    match alignment {
        AlignmentY::Top => 0,
        AlignmentY::Center => half_exec(outer) - half_exec(inner),
        AlignmentY::Bottom => outer - inner,
    }
}

impl RendererObjectStyle {
    /// The style of a new node.
    pub fn new() -> (s: RendererObjectStyle)
        ensures
            s == plain_style(),
    {
        RendererObjectStyle {
            border: Borders::EMPTY(),
            internal_alignment_x: AlignmentX::Left,
            internal_alignment_y: AlignmentY::Top,
            external_alignment_x: None,
            external_alignment_y: None,
        }
    }

    /// Sets how the node asks to be placed by its parent.
    pub fn set_external_alignment(&mut self, x: Option<AlignmentX>, y: Option<AlignmentY>) -> (me:
        &mut Self)
        ensures
            *me == (RendererObjectStyle {
                external_alignment_x: x,
                external_alignment_y: y,
                ..*old(self)
            }),
            *final(me) == *final(self),
    {
        self.external_alignment_x = x;
        self.external_alignment_y = y;
        self
    }

    /// Sets how the node places what it holds.
    pub fn set_internal_alignment(&mut self, x: AlignmentX, y: AlignmentY) -> (me: &mut Self)
        ensures
            *me == (RendererObjectStyle {
                internal_alignment_x: x,
                internal_alignment_y: y,
                ..*old(self)
            }),
            *final(me) == *final(self),
    {
        self.internal_alignment_x = x;
        self.internal_alignment_y = y;
        self
    }

    /// Sets the frame.
    pub fn set_border(&mut self, border: Border) -> (me: &mut Self)
        ensures
            *me == (RendererObjectStyle { border, ..*old(self) }),
            *final(me) == *final(self),
    {
        self.border = border;
        self
    }
}

} // verus!
