//! The frame around a node.
use vstd::prelude::*;
use crate::color::Color;
use crate::pixel::{empty_pixel, Pixel, Pixels};

verus! {

/// The eight cells of a frame: four corners and four edges.
#[derive(PartialEq, Eq, Structural, Debug, Clone, Copy)]
pub struct Border {
    pub top_left: Pixel,
    pub top: Pixel,
    pub top_right: Pixel,
    pub right: Pixel,
    pub bottom_right: Pixel,
    pub bottom: Pixel,
    pub bottom_left: Pixel,
    pub left: Pixel,
}

/// A cell of a frame made of a glyph alone: white on nothing.
pub open spec fn line_pixel(value: char) -> Pixel {
    Pixel {
        value,
        background: Color { red: 0, green: 0, blue: 0, alpha: 0, valid: true },
        foreground: Color { red: 255, green: 255, blue: 255, alpha: 255, valid: true },
    }
}

/// The frame of eight glyphs, clockwise from the top left corner.
pub open spec fn line_border(
    top_left: char,
    top: char,
    top_right: char,
    right: char,
    bottom_right: char,
    bottom: char,
    bottom_left: char,
    left: char,
) -> Border {
    Border {
        top_left: line_pixel(top_left),
        top: line_pixel(top),
        top_right: line_pixel(top_right),
        right: line_pixel(right),
        bottom_right: line_pixel(bottom_right),
        bottom: line_pixel(bottom),
        bottom_left: line_pixel(bottom_left),
        left: line_pixel(left),
    }
}

/// The frame that draws nothing.
pub open spec fn empty_border() -> Border {
    Border {
        top_left: empty_pixel(),
        top: empty_pixel(),
        top_right: empty_pixel(),
        right: empty_pixel(),
        bottom_right: empty_pixel(),
        bottom: empty_pixel(),
        bottom_left: empty_pixel(),
        left: empty_pixel(),
    }
}

/// `b` with one background in all eight cells.
pub open spec fn with_background(b: Border, color: Color) -> Border {
    Border {
        top_left: Pixel { background: color, ..b.top_left },
        top: Pixel { background: color, ..b.top },
        top_right: Pixel { background: color, ..b.top_right },
        right: Pixel { background: color, ..b.right },
        bottom_right: Pixel { background: color, ..b.bottom_right },
        bottom: Pixel { background: color, ..b.bottom },
        bottom_left: Pixel { background: color, ..b.bottom_left },
        left: Pixel { background: color, ..b.left },
    }
}

/// `b` with one foreground in all eight cells.
pub open spec fn with_foreground(b: Border, color: Color) -> Border {
    Border {
        top_left: Pixel { foreground: color, ..b.top_left },
        top: Pixel { foreground: color, ..b.top },
        top_right: Pixel { foreground: color, ..b.top_right },
        right: Pixel { foreground: color, ..b.right },
        bottom_right: Pixel { foreground: color, ..b.bottom_right },
        bottom: Pixel { foreground: color, ..b.bottom },
        bottom_left: Pixel { foreground: color, ..b.bottom_left },
        left: Pixel { foreground: color, ..b.left },
    }
}

/// The frames that have a name.
pub struct Borders;

impl Borders {
    /// No frame.
    #[allow(non_snake_case)]
    pub fn EMPTY() -> (b: Border)
        ensures
            b == empty_border(),
    {
        let e = Pixels::EMPTY();
        Border {
            top_left: e,
            top: e,
            top_right: e,
            right: e,
            bottom_right: e,
            bottom: e,
            bottom_left: e,
            left: e,
        }
    }

    /// A frame of single lines.
    #[allow(non_snake_case)]
    pub fn SIMPLE() -> (b: Border)
        ensures
            b == line_border(
                '\u{250c}',
                '\u{2500}',
                '\u{2510}',
                '\u{2502}',
                '\u{2518}',
                '\u{2500}',
                '\u{2514}',
                '\u{2502}',
            ),
    {
        Border::from_chars(
            '\u{250c}',
            '\u{2500}',
            '\u{2510}',
            '\u{2502}',
            '\u{2518}',
            '\u{2500}',
            '\u{2514}',
            '\u{2502}',
        )
    }

    /// A frame of double lines.
    #[allow(non_snake_case)]
    pub fn DOUBLE() -> (b: Border)
        ensures
            b == line_border(
                '\u{2554}',
                '\u{2550}',
                '\u{2557}',
                '\u{2551}',
                '\u{255d}',
                '\u{2550}',
                '\u{255a}',
                '\u{2551}',
            ),
    {
        Border::from_chars(
            '\u{2554}',
            '\u{2550}',
            '\u{2557}',
            '\u{2551}',
            '\u{255d}',
            '\u{2550}',
            '\u{255a}',
            '\u{2551}',
        )
    }

    /// A frame of single lines with round corners.
    #[allow(non_snake_case)]
    pub fn ROUNDED() -> (b: Border)
        ensures
            b == line_border(
                '\u{256d}',
                '\u{2500}',
                '\u{256e}',
                '\u{2502}',
                '\u{256f}',
                '\u{2500}',
                '\u{2570}',
                '\u{2502}',
            ),
    {
        Border::from_chars(
            '\u{256d}',
            '\u{2500}',
            '\u{256e}',
            '\u{2502}',
            '\u{256f}',
            '\u{2500}',
            '\u{2570}',
            '\u{2502}',
        )
    }
}

fn line_pixel_exec(value: char) -> (p: Pixel)
    ensures
        p == line_pixel(value),
{
    Pixel {
        value,
        background: Color { red: 0, green: 0, blue: 0, alpha: 0, valid: true },
        foreground: Color { red: 255, green: 255, blue: 255, alpha: 255, valid: true },
    }
}

impl Border {
    /// The frame of eight cells, clockwise from the top left corner.
    pub fn from_pixels(
        top_left: Pixel,
        top: Pixel,
        top_right: Pixel,
        right: Pixel,
        bottom_right: Pixel,
        bottom: Pixel,
        bottom_left: Pixel,
        left: Pixel,
    ) -> (b: Border)
        ensures
            b == (Border {
                top_left,
                top,
                top_right,
                right,
                bottom_right,
                bottom,
                bottom_left,
                left,
            }),
    {
        Border { top_left, top, top_right, right, bottom_right, bottom, bottom_left, left }
    }

    /// The frame of eight glyphs, clockwise from the top left corner, white
    /// on nothing.
    pub fn from_chars(
        top_left: char,
        top: char,
        top_right: char,
        right: char,
        bottom_right: char,
        bottom: char,
        bottom_left: char,
        left: char,
    ) -> (b: Border)
        ensures
            b == line_border(
                top_left,
                top,
                top_right,
                right,
                bottom_right,
                bottom,
                bottom_left,
                left,
            ),
    {
        Border {
            top_left: line_pixel_exec(top_left),
            top: line_pixel_exec(top),
            top_right: line_pixel_exec(top_right),
            right: line_pixel_exec(right),
            bottom_right: line_pixel_exec(bottom_right),
            bottom: line_pixel_exec(bottom),
            bottom_left: line_pixel_exec(bottom_left),
            left: line_pixel_exec(left),
        }
    }

    /// Gives all eight cells one background.
    pub fn set_background_all(&mut self, color: Color) -> (me: &mut Self)
        ensures
            *me == with_background(*old(self), color),
            *final(me) == *final(self),
    {
        self.top_left.background = color;
        self.top.background = color;
        self.top_right.background = color;
        self.right.background = color;
        self.bottom_right.background = color;
        self.bottom.background = color;
        self.bottom_left.background = color;
        self.left.background = color;
        self
    }

    /// Gives all eight cells one foreground.
    pub fn set_foreground_all(&mut self, color: Color) -> (me: &mut Self)
        ensures
            *me == with_foreground(*old(self), color),
            *final(me) == *final(self),
    {
        self.top_left.foreground = color;
        self.top.foreground = color;
        self.top_right.foreground = color;
        self.right.foreground = color;
        self.bottom_right.foreground = color;
        self.bottom.foreground = color;
        self.bottom_left.foreground = color;
        self.left.foreground = color;
        self
    }
}

} // verus!
