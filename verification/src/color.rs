use vstd::prelude::*;
use crate::decimal::{clamp, round_div, round_div_exec, Decimal};

verus! {

/// An RGBA colour with 8-bit channels and a validity flag.
///
/// A colour that is not valid is no shade and does not blend, whatever its
/// channels hold. The invalid colour by name has every channel zero, like
/// full transparency, and differs from it in the flag alone.
#[derive(PartialEq, Eq, Structural, Debug, Clone, Copy)]
pub struct Color {
    pub red: u8,
    pub green: u8,
    pub blue: u8,
    pub alpha: u8,
    pub valid: bool,
}

/// The invalid colour by name: every channel zero, and not valid.
pub open spec fn invalid_color() -> Color {
    Color { red: 0, green: 0, blue: 0, alpha: 0, valid: false }
}

/// The 8-bit channel nearest to an alpha given in millionths, which is first
/// limited to the range from 0 to 1.
pub open spec fn alpha_channel(micros: int) -> int {
    round_div(clamp(micros, 0, 1_000_000) * 255, 1_000_000)
}

/// One channel of `over` composited onto one channel of `under`.
pub open spec fn blend_channel(under: int, over: int, over_alpha: int) -> int {
    round_div(over * over_alpha + under * (255 - over_alpha), 255)
}

/// The alpha that is left after compositing: the upper alpha, plus the
/// share of the lower one that shows through, rounded down.
pub open spec fn blend_alpha(under_alpha: int, over_alpha: int) -> int {
    over_alpha + (under_alpha * (255 - over_alpha)) / 255
}

/// `over` composited onto `under`. A colour that is not valid does not
/// blend: the other colour comes back as it is. The invalid colour by name
/// laid onto any colour gives that colour back. Of two other colours of
/// which the lower one is not valid, the upper one comes back. The blend of
/// two valid colours is valid.
pub open spec fn overlay(under: Color, over: Color) -> Color {
    if over == invalid_color() {
        under
    } else if !under.valid {
        over
    } else if !over.valid {
        under
    } else {
        Color {
            red: blend_channel(under.red as int, over.red as int, over.alpha as int) as u8,
            green: blend_channel(under.green as int, over.green as int, over.alpha as int) as u8,
            blue: blend_channel(under.blue as int, over.blue as int, over.alpha as int) as u8,
            alpha: blend_alpha(under.alpha as int, over.alpha as int) as u8,
            valid: true,
        }
    }
}

/// The colour with the complementary RGB channels.
pub open spec fn inverse(c: Color) -> Color {
    Color {
        red: (255 - c.red) as u8,
        green: (255 - c.green) as u8,
        blue: (255 - c.blue) as u8,
        alpha: c.alpha,
        valid: c.valid,
    }
}

/// The colour packed as `RRGGBBAA`.
pub open spec fn unpack32(val: int) -> Color {
    Color {
        red: (val / 0x1000000) as u8,
        green: (val / 0x10000 % 0x100) as u8,
        blue: (val / 0x100 % 0x100) as u8,
        alpha: (val % 0x100) as u8,
        valid: true,
    }
}

/// The colour packed as `RGBA`, each nibble doubled into a byte.
pub open spec fn unpack16(val: int) -> Color {
    Color {
        red: (val / 0x1000 * 0x11) as u8,
        green: (val / 0x100 % 0x10 * 0x11) as u8,
        blue: (val / 0x10 % 0x10 * 0x11) as u8,
        alpha: (val % 0x10 * 0x11) as u8,
        valid: true,
    }
}

/// Degrees, in millionths, in a full turn.
pub const FULL_TURN: i64 = 360_000_000;

/// The weight, between 0 and 60 degrees in millionths, that the hue `hue`
/// gives to the channel whose own hue is 0. `hue` lies within one turn.
pub open spec fn hue_weight(hue: int) -> int {
    let away = if hue <= 180_000_000 {
        180_000_000 - hue
    } else {
        hue - 180_000_000
    };
    clamp(away - 60_000_000, 0, 60_000_000)
}

/// The chroma of a saturation and a luminosity, both between 0 and 1 in
/// millionths. The result is scaled by a million millions.
pub open spec fn chroma(saturation: int, luminosity: int) -> int {
    let spread = if 2 * luminosity <= 1_000_000 {
        1_000_000 - 2 * luminosity
    } else {
        2 * luminosity - 1_000_000
    };
    saturation * (1_000_000 - spread)
}

/// The 8-bit channel of an HSL colour. `hue` is the colour's hue moved by the
/// channel's own offset, taken within one turn; saturation and luminosity are
/// limited to the range from 0 to 1 first.
pub open spec fn hsl_channel(hue: int, saturation: int, luminosity: int) -> int {
    let s = clamp(saturation, 0, 1_000_000);
    let l = clamp(luminosity, 0, 1_000_000);
    let c = chroma(s, l);
    let level = l * 120_000_000_000_000 - c * 60_000_000 + c * hue_weight(hue) * 2;
    clamp(round_div(255 * level, 120_000_000_000_000_000_000), 0, 255)
}

/// The opaque-or-not colour of a hue in degrees and a saturation, luminosity
/// and alpha between 0 and 1, all in millionths.
pub open spec fn hsla_color(hue: int, saturation: int, luminosity: int, alpha: int) -> Color {
    Color {
        red: hsl_channel(hue % 360_000_000, saturation, luminosity) as u8,
        green: hsl_channel((hue + 240_000_000) % 360_000_000, saturation, luminosity) as u8,
        blue: hsl_channel((hue + 120_000_000) % 360_000_000, saturation, luminosity) as u8,
        alpha: alpha_channel(alpha) as u8,
        valid: true,
    }
}

/// The largest of the three colour channels.
pub open spec fn max_channel(c: Color) -> int {
    let m = if c.red >= c.green {
        c.red
    } else {
        c.green
    };
    if m >= c.blue {
        m as int
    } else {
        c.blue as int
    }
}

/// The smallest of the three colour channels.
pub open spec fn min_channel(c: Color) -> int {
    let m = if c.red <= c.green {
        c.red
    } else {
        c.green
    };
    if m <= c.blue {
        m as int
    } else {
        c.blue as int
    }
}

/// The hue in millionths of a degree, within one turn; 0 for a grey.
pub open spec fn hue_of(c: Color) -> int {
    let max = max_channel(c);
    let min = min_channel(c);
    if max == min {
        0
    } else {
        let range = max - min;
        let turn = if c.red == max {
            60_000_000 * (c.green - c.blue)
        } else if c.green == max {
            60_000_000 * (2 * range + (c.blue - c.red))
        } else {
            60_000_000 * (4 * range + (c.red - c.green))
        };
        let within = if turn < 0 {
            turn + 360_000_000 * range
        } else {
            turn
        };
        round_div(within, range)
    }
}

/// The saturation in millionths; 0 for a grey.
pub open spec fn saturation_of(c: Color) -> int {
    let max = max_channel(c);
    let min = min_channel(c);
    if max == min {
        0
    } else {
        let spread = if max + min <= 255 {
            255 - (max + min)
        } else {
            (max + min) - 255
        };
        round_div(1_000_000 * (max - min), 255 - spread)
    }
}

/// The luminosity in millionths.
pub open spec fn luminosity_of(c: Color) -> int {
    round_div(1_000_000 * (max_channel(c) + min_channel(c)), 510)
}

/// `c` with its colour channels replaced by those of an HSL triple; the alpha
/// stays.
pub open spec fn recolored(c: Color, hue: int, saturation: int, luminosity: int) -> Color {
    Color { alpha: c.alpha, ..hsla_color(hue, saturation, luminosity, 0) }
}

fn hue_weight_exec(hue: i64) -> (w: i64)
    requires
        0 <= hue < 360_000_000,
    ensures
        w == hue_weight(hue as int),
        0 <= w <= 60_000_000,
{
    let away: i64 = if hue <= 180_000_000 {
        180_000_000 - hue
    } else {
        hue - 180_000_000
    };
    let t: i64 = away - 60_000_000;
    if t < 0 {
        0
    } else if t > 60_000_000 {
        60_000_000
    } else {
        t
    }
}

fn clamp_unit(micros: i64) -> (r: i64)
    ensures
        r == clamp(micros as int, 0, 1_000_000),
{
    if micros < 0 {
        0
    } else if micros > 1_000_000 {
        1_000_000
    } else {
        micros
    }
}

fn hsl_channel_exec(hue: i64, saturation: i64, luminosity: i64) -> (ch: u8)
    requires
        0 <= hue < 360_000_000,
    ensures
        ch == hsl_channel(hue as int, saturation as int, luminosity as int),
{
    let s: i64 = clamp_unit(saturation);
    let l: i64 = clamp_unit(luminosity);
    let spread: i64 = if 2 * l <= 1_000_000 {
        1_000_000 - 2 * l
    } else {
        2 * l - 1_000_000
    };
    let lift: i64 = 1_000_000 - spread;
    assert(0 <= s * lift <= 1_000_000 * 1_000_000) by (nonlinear_arith)
        requires
            0 <= s <= 1_000_000,
            0 <= lift <= 1_000_000,
    ;
    let c: i64 = s * lift;
    let w: i64 = hue_weight_exec(hue);
    assert(0 <= c * w <= 1_000_000_000_000 * 60_000_000) by (nonlinear_arith)
        requires
            0 <= c <= 1_000_000_000_000,
            0 <= w <= 60_000_000,
    ;
    let level: i128 = (l as i128) * 120_000_000_000_000 - (c as i128) * 60_000_000 + (c as i128)
        * (w as i128) * 2;
    let q: i128 = round_div_exec(255 * level, 120_000_000_000_000_000_000);
    if q < 0 {
        0
    } else if q > 255 {
        255
    } else {
        q as u8
    }
}

fn turn_of(hue: i64) -> (h: i64)
    ensures
        h == (hue as int) % 360_000_000,
        0 <= h < 360_000_000,
{
    let r: i64 = hue % FULL_TURN;
    if r < 0 {
        r + FULL_TURN
    } else {
        r
    }
}

fn alpha_channel_exec(micros: i64) -> (ch: u8)
    ensures
        ch == alpha_channel(micros as int),
{
    let a: i64 = clamp_unit(micros);
    let q: i128 = round_div_exec((a as i128) * 255, 1_000_000);
    assert(0 <= q <= 255);
    q as u8
}

fn blend_channel_exec(under: u8, over: u8, over_alpha: u8) -> (ch: u8)
    ensures
        ch == blend_channel(under as int, over as int, over_alpha as int),
{
    let a: i128 = over_alpha as i128;
    assert(0 <= over * over_alpha <= 255 * 255) by (nonlinear_arith)
        requires
            0 <= over <= 255,
            0 <= over_alpha <= 255,
    ;
    assert(0 <= under * (255 - over_alpha) <= 255 * 255) by (nonlinear_arith)
        requires
            0 <= under <= 255,
            0 <= over_alpha <= 255,
    ;
    assert(over * over_alpha + under * (255 - over_alpha) <= 255 * 255) by (nonlinear_arith)
        requires
            0 <= over <= 255,
            0 <= under <= 255,
            0 <= over_alpha <= 255,
    ;
    let mix: i128 = (over as i128) * a + (under as i128) * (255 - a);
    assert(0 <= mix <= 255 * 255) by (nonlinear_arith)
        requires
            mix == over * a + under * (255 - a),
            0 <= over <= 255,
            0 <= under <= 255,
            0 <= a <= 255,
    ;
    let q: i128 = round_div_exec(mix, 255);
    assert(0 <= q <= 255) by {
        assert(0 <= mix <= 65025);
        assert(q == (2 * mix + 255) / 510);
    }
    q as u8
}

fn blend_alpha_exec(under_alpha: u8, over_alpha: u8) -> (ch: u8)
    ensures
        ch == blend_alpha(under_alpha as int, over_alpha as int),
{
    let rest: u32 = 255 - over_alpha as u32;
    assert(0 <= under_alpha * rest <= 255 * rest) by (nonlinear_arith)
        requires
            0 <= under_alpha <= 255,
            0 <= rest <= 255,
    ;
    let through: u32 = (under_alpha as u32 * rest) / 255;
    (over_alpha as u32 + through) as u8
}

impl Color {
    /// The colour of three channels and an alpha between 0 and 1.
    pub fn from_rgba(red: u8, green: u8, blue: u8, alpha: Decimal) -> (c: Color)
        ensures
            c == (Color {
                red,
                green,
                blue,
                alpha: alpha_channel(alpha.micros as int) as u8,
                valid: true,
            }),
    {
        Color { red, green, blue, alpha: alpha_channel_exec(alpha.micros), valid: true }
    }

    /// The fully opaque colour of three channels.
    pub fn from_rgb(red: u8, green: u8, blue: u8) -> (c: Color)
        ensures
            c == (Color { red, green, blue, alpha: 255, valid: true }),
    {
        Color { red, green, blue, alpha: 255, valid: true }
    }

    /// This colour with another red channel. The result is valid.
    pub fn with_red(&self, red: u8) -> (c: Color)
        ensures
            c == (Color { red, valid: true, ..*self }),
    {
        Color { red, green: self.green, blue: self.blue, alpha: self.alpha, valid: true }
    }

    /// This colour with another green channel. The result is valid.
    pub fn with_green(&self, green: u8) -> (c: Color)
        ensures
            c == (Color { green, valid: true, ..*self }),
    {
        Color { red: self.red, green, blue: self.blue, alpha: self.alpha, valid: true }
    }

    /// This colour with another blue channel. The result is valid.
    pub fn with_blue(&self, blue: u8) -> (c: Color)
        ensures
            c == (Color { blue, valid: true, ..*self }),
    {
        Color { red: self.red, green: self.green, blue, alpha: self.alpha, valid: true }
    }

    /// This colour with another alpha, given between 0 and 1. The result is
    /// valid.
    pub fn with_alpha(&self, alpha: Decimal) -> (c: Color)
        ensures
            c == (Color { alpha: alpha_channel(alpha.micros as int) as u8, valid: true, ..*self }),
    {
        Color::from_rgba(self.red, self.green, self.blue, alpha)
    }

    /// The colour packed into 32 bits as `RRGGBBAA`.
    pub fn from_u32(val: u32) -> (c: Color)
        ensures
            c == unpack32(val as int),
    {
        Color {
            red: (val / 0x1000000) as u8,
            green: (val / 0x10000 % 0x100) as u8,
            blue: (val / 0x100 % 0x100) as u8,
            alpha: (val % 0x100) as u8,
            valid: true,
        }
    }

    /// The colour packed into 16 bits as `RGBA`.
    pub fn from_u16(val: u16) -> (c: Color)
        ensures
            c == unpack16(val as int),
    {
        Color {
            red: (val / 0x1000 * 0x11) as u8,
            green: (val / 0x100 % 0x10 * 0x11) as u8,
            blue: (val / 0x10 % 0x10 * 0x11) as u8,
            alpha: (val % 0x10 * 0x11) as u8,
            valid: true,
        }
    }

    /// The colour of a hue in degrees, and of a saturation, a luminosity and
    /// an alpha between 0 and 1.
    pub fn from_hsla(hue: Decimal, saturation: Decimal, luminosity: Decimal, alpha: Decimal) -> (c:
        Color)
        ensures
            c == hsla_color(
                hue.micros as int,
                saturation.micros as int,
                luminosity.micros as int,
                alpha.micros as int,
            ),
    {
        let h: i64 = turn_of(hue.micros);
        let h_green: i64 = turn_of(h + 240_000_000);
        let h_blue: i64 = turn_of(h + 120_000_000);
        assert(h_green == (hue.micros + 240_000_000) % 360_000_000 && h_blue == (hue.micros
            + 120_000_000) % 360_000_000) by {
            let q = hue.micros as int / 360_000_000;
            assert(hue.micros as int == 360_000_000 * q + h);
        }
        Color {
            red: hsl_channel_exec(h, saturation.micros, luminosity.micros),
            green: hsl_channel_exec(h_green, saturation.micros, luminosity.micros),
            blue: hsl_channel_exec(h_blue, saturation.micros, luminosity.micros),
            alpha: alpha_channel_exec(alpha.micros),
            valid: true,
        }
    }

    /// The fully opaque colour of a hue, a saturation and a luminosity.
    pub fn from_hsl(hue: Decimal, saturation: Decimal, luminosity: Decimal) -> (c: Color)
        ensures
            c == hsla_color(
                hue.micros as int,
                saturation.micros as int,
                luminosity.micros as int,
                1_000_000,
            ),
    {
        Color::from_hsla(hue, saturation, luminosity, Decimal::one())
    }

    fn max_channel_exec(&self) -> (m: u8)
        ensures
            m == max_channel(*self),
    {
        let m: u8 = if self.red >= self.green {
            self.red
        } else {
            self.green
        };
        if m >= self.blue {
            m
        } else {
            self.blue
        }
    }

    fn min_channel_exec(&self) -> (m: u8)
        ensures
            m == min_channel(*self),
    {
        let m: u8 = if self.red <= self.green {
            self.red
        } else {
            self.green
        };
        if m <= self.blue {
            m
        } else {
            self.blue
        }
    }

    /// The hue in degrees, from 0 up to but not including 360. A grey has
    /// hue 0.
    pub fn hue(&self) -> (h: Decimal)
        ensures
            h.micros == hue_of(*self),
            0 <= h.micros < 360_000_000,
    {
        let max: i64 = self.max_channel_exec() as i64;
        let min: i64 = self.min_channel_exec() as i64;
        if max == min {
            return Decimal { micros: 0 };
        }
        let range: i64 = max - min;
        let red: i64 = self.red as i64;
        let green: i64 = self.green as i64;
        let blue: i64 = self.blue as i64;
        let turn: i64 = if red == max {
            60_000_000 * (green - blue)
        } else if green == max {
            60_000_000 * (2 * range + (blue - red))
        } else {
            60_000_000 * (4 * range + (red - green))
        };
        let within: i64 = if turn < 0 {
            turn + 360_000_000 * range
        } else {
            turn
        };
        assert(0 <= within <= 360_000_000 * range - 60_000_000);
        let q: i128 = round_div_exec(within as i128, range as i128);
        assert(q < 360_000_000) by (nonlinear_arith)
            requires
                q == (2 * within + range) / (2 * range),
                0 <= within <= 360_000_000 * range - 60_000_000,
                1 <= range <= 255,
        ;
        assert(q >= 0) by (nonlinear_arith)
            requires
                q == (2 * within + range) / (2 * range),
                0 <= within,
                1 <= range,
        ;
        Decimal { micros: q as i64 }
    }

    /// The saturation, from 0 to 1. A grey has saturation 0.
    pub fn saturation(&self) -> (s: Decimal)
        ensures
            s.micros == saturation_of(*self),
            0 <= s.micros <= 1_000_000,
    {
        let max: i64 = self.max_channel_exec() as i64;
        let min: i64 = self.min_channel_exec() as i64;
        if max == min {
            return Decimal { micros: 0 };
        }
        let spread: i64 = if max + min <= 255 {
            255 - (max + min)
        } else {
            (max + min) - 255
        };
        let span: i64 = 255 - spread;
        let range: i64 = max - min;
        let q: i128 = round_div_exec(1_000_000 * (range as i128), span as i128);
        assert(0 <= q <= 1_000_000) by (nonlinear_arith)
            requires
                q == (2 * (1_000_000 * range) + span) / (2 * span),
                1 <= range <= span,
                span <= 255,
        ;
        Decimal { micros: q as i64 }
    }

    /// The luminosity, from 0 to 1.
    pub fn luminosity(&self) -> (l: Decimal)
        ensures
            l.micros == luminosity_of(*self),
            0 <= l.micros <= 1_000_000,
    {
        let max: i64 = self.max_channel_exec() as i64;
        let min: i64 = self.min_channel_exec() as i64;
        let sum: i128 = (max + min) as i128;
        let q: i128 = round_div_exec(1_000_000 * sum, 510);
        assert(0 <= q <= 1_000_000) by {
            assert(0 <= sum <= 510);
            assert(q == (2 * (1_000_000 * sum) + 510) / 1020);
        }
        Decimal { micros: q as i64 }
    }

    fn recolor(&self, hue: Decimal, saturation: Decimal, luminosity: Decimal) -> (c: Color)
        ensures
            c == recolored(
                *self,
                hue.micros as int,
                saturation.micros as int,
                luminosity.micros as int,
            ),
    {
        let shade = Color::from_hsla(hue, saturation, luminosity, Decimal::zero());
        Color {
            red: shade.red,
            green: shade.green,
            blue: shade.blue,
            alpha: self.alpha,
            valid: true,
        }
    }

    /// This colour turned to another hue: saturation, luminosity and alpha
    /// stay. The result is valid.
    pub fn with_hue(&self, hue: Decimal) -> (c: Color)
        ensures
            c == recolored(*self, hue.micros as int, saturation_of(*self), luminosity_of(*self)),
    {
        self.recolor(hue, self.saturation(), self.luminosity())
    }

    /// This colour at another saturation: hue, luminosity and alpha stay. The
    /// result is valid.
    pub fn with_saturation(&self, saturation: Decimal) -> (c: Color)
        ensures
            c == recolored(*self, hue_of(*self), saturation.micros as int, luminosity_of(*self)),
    {
        self.recolor(self.hue(), saturation, self.luminosity())
    }

    /// This colour at another luminosity: hue, saturation and alpha stay. The
    /// result is valid.
    pub fn with_luminosity(&self, luminosity: Decimal) -> (c: Color)
        ensures
            c == recolored(*self, hue_of(*self), saturation_of(*self), luminosity.micros as int),
    {
        self.recolor(self.hue(), self.saturation(), luminosity)
    }

    /// `overlay` composited onto this colour. A colour that is not valid
    /// does not blend: if `overlay` is the invalid colour by name, or is not
    /// valid while this colour is, the result is this colour unchanged; if
    /// this colour is not valid, the result is `overlay` unchanged.
    pub fn with_overlay(self, overlay: Color) -> (c: Color)
        ensures
            c == self::overlay(self, overlay),
    {
        let nothing = Color { red: 0, green: 0, blue: 0, alpha: 0, valid: false };
        if overlay == nothing {
            self
        } else if !self.valid {
            overlay
        } else if !overlay.valid {
            self
        } else {
            Color {
                red: blend_channel_exec(self.red, overlay.red, overlay.alpha),
                green: blend_channel_exec(self.green, overlay.green, overlay.alpha),
                blue: blend_channel_exec(self.blue, overlay.blue, overlay.alpha),
                alpha: blend_alpha_exec(self.alpha, overlay.alpha),
                valid: true,
            }
        }
    }

    /// The colour with the complementary RGB channels; alpha and validity
    /// stay.
    pub fn inverted(&self) -> (c: Color)
        ensures
            c == inverse(*self),
    {
        Color {
            red: 255 - self.red,
            green: 255 - self.green,
            blue: 255 - self.blue,
            alpha: self.alpha,
            valid: self.valid,
        }
    }
}

/// An alpha of exactly 1 is the opaque channel: a colour made from channels
/// and the alpha 1 is the colour made from the channels alone.
pub proof fn lemma_opaque_alpha(red: u8, green: u8, blue: u8)
    ensures
        (Color { red, green, blue, alpha: alpha_channel(1_000_000) as u8, valid: true }) == (Color {
            red,
            green,
            blue,
            alpha: 255,
            valid: true,
        }),
{
    assert(alpha_channel(1_000_000) == 255);
}

/// Inverting a colour twice gives the colour back.
pub proof fn lemma_inverted_twice(c: Color)
    ensures
        inverse(inverse(c)) == c,
{
}

/// The invalid colour is neutral on both sides of an overlay: laid onto a
/// colour it gives that colour back, and a colour laid onto it comes back
/// as it is.
pub proof fn lemma_overlay_invalid(c: Color)
    ensures
        overlay(c, invalid_color()) == c,
        overlay(invalid_color(), c) == c,
{
}

/// A colour that is not valid never blends: the result of an overlay with
/// one is one of the two colours as it was.
pub proof fn lemma_invalid_never_blends(under: Color, over: Color)
    requires
        !under.valid || !over.valid,
    ensures
        overlay(under, over) == under || overlay(under, over) == over,
        under.valid ==> overlay(under, over) == under,
        over.valid ==> overlay(under, over) == over,
{
}

} // verus!
