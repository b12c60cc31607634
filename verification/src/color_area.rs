//! Regions of a node that are tinted.
use vstd::prelude::*;
use crate::color::Color;
use crate::geometry::Dimension;
use crate::renderer_object_style::{AlignmentX, AlignmentY};

verus! {

/// Which of a cell's two colours a region tints.
#[derive(PartialEq, Eq, Structural, Debug, Clone, Copy)]
pub enum ColorLayer {
    Background,
    Foreground,
}

/// A region of a node and the colour that is laid over one layer of its
/// cells. `renderer_object_index` is the region's place in the list of the
/// node that holds it.
#[derive(PartialEq, Eq, Structural, Debug, Clone, Copy)]
pub struct ColorArea {
    pub color: Color,
    pub layer: ColorLayer,
    pub x: Dimension,
    pub y: Dimension,
    pub width: Dimension,
    pub height: Dimension,
    pub external_alignment_x: Option<AlignmentX>,
    pub external_alignment_y: Option<AlignmentY>,
    pub renderer_object_index: usize,
}

/// The region that covers a whole node with `color` on `layer`.
pub open spec fn full_area(color: Color, layer: ColorLayer) -> ColorArea {
    ColorArea {
        color,
        layer,
        x: Dimension::Auto,
        y: Dimension::Auto,
        width: Dimension::Auto,
        height: Dimension::Auto,
        external_alignment_x: None,
        external_alignment_y: None,
        renderer_object_index: 0,
    }
}

impl ColorArea {
    /// The region that covers a whole node.
    pub fn new(color: Color, layer: ColorLayer) -> (a: ColorArea)
        ensures
            a == full_area(color, layer),
    {
        ColorArea {
            color,
            layer,
            x: Dimension::Auto,
            y: Dimension::Auto,
            width: Dimension::Auto,
            height: Dimension::Auto,
            external_alignment_x: None,
            external_alignment_y: None,
            renderer_object_index: 0,
        }
    }

    /// Sets where the region lies and how large it is.
    pub fn set_geometry(&mut self, geometry: (Dimension, Dimension, Dimension, Dimension)) -> (me:
        &mut Self)
        ensures
            *me == (ColorArea {
                x: geometry.0,
                y: geometry.1,
                width: geometry.2,
                height: geometry.3,
                ..*old(self)
            }),
            *final(me) == *final(self),
    {
        self.x = geometry.0;
        self.y = geometry.1;
        self.width = geometry.2;
        self.height = geometry.3;
        self
    }

    /// Sets how the region is aligned in its node; `None` leaves it to the
    /// node's internal alignment.
    pub fn set_alignment(
        &mut self,
        external_alignment_x: Option<AlignmentX>,
        external_alignment_y: Option<AlignmentY>,
    ) -> (me: &mut Self)
        ensures
            *me == (ColorArea { external_alignment_x, external_alignment_y, ..*old(self) }),
            *final(me) == *final(self),
    {
        self.external_alignment_x = external_alignment_x;
        self.external_alignment_y = external_alignment_y;
        self
    }
}

} // verus!
