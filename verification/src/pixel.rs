//! Screen cells.
use vstd::prelude::*;
use crate::color::{invalid_color, overlay, Color};
use crate::colors::opaque;

verus! {

/// One character position of the screen: a glyph on a background, drawn in
/// a foreground.
#[derive(PartialEq, Eq, Structural, Debug, Clone, Copy)]
pub struct Pixel {
    pub value: char,
    pub background: Color,
    pub foreground: Color,
}

/// The cell that holds nothing: no glyph, no colours.
pub open spec fn empty_pixel() -> Pixel {
    Pixel { value: '\0', background: invalid_color(), foreground: invalid_color() }
}

/// The cell of a blank screen: a space, white on black.
pub open spec fn default_pixel() -> Pixel {
    Pixel { value: ' ', background: opaque(0, 0, 0), foreground: opaque(255, 255, 255) }
}

/// Whether `c` is one of the block and shade glyphs, which show their
/// foreground over most of the cell.
pub open spec fn is_block_glyph(c: char) -> bool {
    ||| c == '\u{2580}'
    ||| c == '\u{2584}'
    ||| c == '\u{2585}'
    ||| c == '\u{2586}'
    ||| c == '\u{2587}'
    ||| c == '\u{2588}'
    ||| c == '\u{2589}'
    ||| c == '\u{258a}'
    ||| c == '\u{258b}'
    ||| c == '\u{258c}'
    ||| c == '\u{2590}'
    ||| c == '\u{2599}'
    ||| c == '\u{259b}'
    ||| c == '\u{259c}'
    ||| c == '\u{259f}'
    ||| c == '\u{259a}'
    ||| c == '\u{259e}'
    ||| c == '\u{2593}'
    ||| c == '\u{2592}'
}

/// The cell `over` laid onto the cell `base`.
///
/// A glyph above the space replaces the glyph below, and both of its colours
/// are blended onto what shows below: the background, or the foreground where
/// the glyph below is a block. A space keeps the glyph below and tints both
/// of its colours with the space's background. Anything else leaves the cell
/// below as it is.
pub open spec fn overlaid(base: Pixel, over: Pixel) -> Pixel {
    if over.value > ' ' {
        let ground = if is_block_glyph(base.value) {
            base.foreground
        } else {
            base.background
        };
        Pixel {
            value: over.value,
            background: overlay(ground, over.background),
            foreground: overlay(ground, over.foreground),
        }
    } else if over.value == ' ' {
        Pixel {
            value: base.value,
            background: overlay(base.background, over.background),
            foreground: overlay(base.foreground, over.background),
        }
    } else {
        base
    }
}

/// The two cells that have a name.
pub struct Pixels;

impl Pixels {
    /// The cell that holds nothing.
    #[allow(non_snake_case)]
    pub fn EMPTY() -> (p: Pixel)
        ensures
            p == empty_pixel(),
    {
        let none = Color { red: 0, green: 0, blue: 0, alpha: 0, valid: false };
        Pixel { value: '\0', background: none, foreground: none }
    }

    /// The cell of a blank screen.
    #[allow(non_snake_case)]
    pub fn DEFAULT() -> (p: Pixel)
        ensures
            p == default_pixel(),
    {
        Pixel {
            value: ' ',
            background: Color { red: 0, green: 0, blue: 0, alpha: 255, valid: true },
            foreground: Color { red: 255, green: 255, blue: 255, alpha: 255, valid: true },
        }
    }
}

/// Whether `c` is one of the block and shade glyphs.
pub fn is_block_glyph_exec(c: char) -> (b: bool)
    ensures
        b == is_block_glyph(c),
{
    c == '\u{2580}' || c == '\u{2584}' || c == '\u{2585}' || c == '\u{2586}' || c == '\u{2587}'
        || c == '\u{2588}' || c == '\u{2589}' || c == '\u{258a}' || c == '\u{258b}' || c
        == '\u{258c}' || c == '\u{2590}' || c == '\u{2599}' || c == '\u{259b}' || c == '\u{259c}'
        || c == '\u{259f}' || c == '\u{259a}' || c == '\u{259e}' || c == '\u{2593}' || c
        == '\u{2592}'
}

impl Pixel {
    /// The cell that holds nothing.
    pub fn new() -> (p: Pixel)
        ensures
            p == empty_pixel(),
    {
        Pixels::EMPTY()
    }

    /// The cell `overlay` laid onto this one.
    pub fn with_overlay(&self, overlay: &Pixel) -> (p: Pixel)
        ensures
            p == overlaid(*self, *overlay),
    {
        if overlay.value > ' ' {
            let ground = if is_block_glyph_exec(self.value) {
                self.foreground
            } else {
                self.background
            };
            Pixel {
                value: overlay.value,
                background: ground.with_overlay(overlay.background),
                foreground: ground.with_overlay(overlay.foreground),
            }
        } else if overlay.value == ' ' {
            Pixel {
                value: self.value,
                background: self.background.with_overlay(overlay.background),
                foreground: self.foreground.with_overlay(overlay.background),
            }
        } else {
            *self
        }
    }
}

} // verus!
