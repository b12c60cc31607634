//! Shares, resolved dimensions, and the buffered writer of escape sequences.
use vstd::prelude::*;
use vstd::utf8::*;
use crate::color::Color;
use crate::decimal::{clamp, round_div, Decimal};
use crate::geometry::{max_of, min_of, percent_of, resolve, Dimension};
use crate::pixel::{default_pixel, empty_pixel, Pixel, Pixels};
use crate::text::{read_share, share_micros, to_chars};

verus! {

/// A share between 0 and 1 that a text writes as a decimal, or as a
/// percentage with a `%` behind it.
pub fn process_percent(percent_double: &str) -> (res: Result<Decimal, &'static str>)
    ensures
        match share_micros(percent_double@) {
            Some(m) => res == Ok::<Decimal, &'static str>(Decimal { micros: m as i64 }),
            None => res is Err && res->Err_0@ == "Couldn't parse percent"@,
        },
{
    match read_share(&to_chars(percent_double)) {
        Some(m) => Ok(Decimal { micros: m }),
        None => Err("Couldn't parse percent"),
    }
}

fn magnitude(v: i64) -> (m: u128)
    ensures
        m == if v >= 0 {
            v as int
        } else {
            -(v as int)
        },
{
    if v >= 0 {
        v as u128
    } else {
        (-(v as i128)) as u128
    }
}

/// A percentage of an extent in cells.
pub fn percent_of_exec(micros: i64, extent: i64) -> (cells: i64)
    ensures
        cells == percent_of(micros as int, extent as int),
{
    let a: u128 = magnitude(micros);
    let b: u128 = magnitude(extent);
    assert(0 <= a * b <= 0x8000_0000_0000_0000 * 0x8000_0000_0000_0000) by (nonlinear_arith)
        requires
            0 <= a <= 0x8000_0000_0000_0000,
            0 <= b <= 0x8000_0000_0000_0000,
    ;
    let product: u128 = a * b;
    let negative: bool = (micros < 0) != (extent < 0);
    let ghost n = micros as int * extent as int;
    assert(n == if negative {
        -(product as int)
    } else {
        product as int
    }) by (nonlinear_arith)
        requires
            n == micros as int * extent as int,
            product == a * b,
            a == if micros >= 0 {
                micros as int
            } else {
                -(micros as int)
            },
            b == if extent >= 0 {
                extent as int
            } else {
                -(extent as int)
            },
            negative == ((micros < 0) != (extent < 0)),
    ;
    let q: u128 = (2 * product + 100_000_000) / 200_000_000;
    assert(q as int == (2 * (product as int) + 100_000_000) / 200_000_000);
    if negative {
        if q >= 0x8000_0000_0000_0000 {
            -0x8000_0000_0000_0000
        } else {
            -(q as i64)
        }
    } else {
        if q > 0x7fff_ffff_ffff_ffff {
            0x7fff_ffff_ffff_ffff
        } else {
            q as i64
        }
    }
}

fn min_exec(a: i64, b: i64) -> (m: i64)
    ensures
        m == min_of(a as int, b as int),
{
    if a <= b {
        a
    } else {
        b
    }
}

fn max_exec(a: i64, b: i64) -> (m: i64)
    ensures
        m == max_of(a as int, b as int),
{
    if a >= b {
        a
    } else {
        b
    }
}

/// The number of cells that a dimension comes to.
///
/// `Auto` comes to 0 and a number of cells to itself. A percentage is taken
/// of the parent or of the viewport, as its unit says; a plain one of the
/// parent's width if `horizontal`, else of the parent's height.
pub fn generic_dimension_calc(
    dim: &Dimension,
    parent_width: i64,
    parent_height: i64,
    renderer_width: i64,
    renderer_height: i64,
    horizontal: bool,
) -> (cells: i64)
    ensures
        cells == resolve(
            *dim,
            parent_width as int,
            parent_height as int,
            renderer_width as int,
            renderer_height as int,
            horizontal,
        ),
{
    match dim {
        Dimension::Auto => 0,
        Dimension::Pixel(val) => *val as i64,
        Dimension::Percent(val) => percent_of_exec(
            val.micros,
            if horizontal {
                parent_width
            } else {
                parent_height
            },
        ),
        Dimension::PW(val) => percent_of_exec(val.micros, parent_width),
        Dimension::PH(val) => percent_of_exec(val.micros, parent_height),
        Dimension::PMin(val) => percent_of_exec(val.micros, min_exec(parent_width, parent_height)),
        Dimension::PMax(val) => percent_of_exec(val.micros, max_exec(parent_width, parent_height)),
        Dimension::VW(val) => percent_of_exec(val.micros, renderer_width),
        Dimension::VH(val) => percent_of_exec(val.micros, renderer_height),
        Dimension::VMin(val) => percent_of_exec(
            val.micros,
            min_exec(renderer_width, renderer_height),
        ),
        Dimension::VMax(val) => percent_of_exec(
            val.micros,
            max_exec(renderer_width, renderer_height),
        ),
    }
}

/// The decimal digits of a number, as bytes.
pub open spec fn decimal_bytes(v: nat) -> Seq<u8>
    decreases v,
{
    if v < 10 {
        seq![(48 + v) as u8]
    } else {
        decimal_bytes(v / 10).push((48 + v % 10) as u8)
    }
}

/// A number in decimal, with a minus sign before it where it is negative.
pub open spec fn signed_bytes(v: int) -> Seq<u8> {
    if v < 0 {
        seq![45u8] + decimal_bytes((-v) as nat)
    } else {
        decimal_bytes(v as nat)
    }
}

/// The sequence that selects a colour of 24 bits: `ESC [ layer ; 2 ; r ; g ;
/// b m`, where the layer is 48 for the background and 38 for the
/// foreground.
pub open spec fn color_sequence(layer: nat, c: Color) -> Seq<u8> {
    seq![27u8, 91u8] + decimal_bytes(layer) + seq![59u8, 50u8, 59u8] + decimal_bytes(c.red as nat)
        + seq![59u8] + decimal_bytes(c.green as nat) + seq![59u8] + decimal_bytes(c.blue as nat)
        + seq![109u8]
}

/// The sequence that moves the cursor to column `x` and row `y`, both
/// counted from 0: `ESC [ y+1 ; x+1 H`.
pub open spec fn cursor_sequence(x: int, y: int) -> Seq<u8> {
    seq![27u8, 91u8] + signed_bytes(y + 1) + seq![59u8] + signed_bytes(x + 1) + seq![72u8]
}

/// The sequence that gives both layers their default colour back: `ESC [ 39
/// m ESC [ 49 m`.
pub open spec fn reset_sequence() -> Seq<u8> {
    seq![27u8, 91u8, 51u8, 57u8, 109u8, 27u8, 91u8, 52u8, 57u8, 109u8]
}

/// The sequence that hides the cursor: `ESC [ ? 25 l`.
pub open spec fn hide_cursor_sequence() -> Seq<u8> {
    seq![27u8, 91u8, 63u8, 50u8, 53u8, 108u8]
}

/// The sequence that shows the cursor: `ESC [ ? 25 h`.
pub open spec fn show_cursor_sequence() -> Seq<u8> {
    seq![27u8, 91u8, 63u8, 50u8, 53u8, 104u8]
}

/// The cell that is written for `p`: the default cell where `p` has no
/// glyph.
pub open spec fn shown(p: Pixel) -> Pixel {
    if p.value == '\0' {
        default_pixel()
    } else {
        p
    }
}

/// Whether a cell can be written: a glyph that is no control character, in
/// two valid colours.
pub open spec fn printable(p: Pixel) -> bool {
    p.value >= ' ' && p.background.valid && p.foreground.valid
}

/// What is written for the cell `p` after the cell `last`: each colour only
/// where it differs from that of `last`, then the glyph in UTF-8.
pub open spec fn cell_bytes(last: Pixel, p: Pixel) -> Seq<u8> {
    (if last.background != p.background {
        color_sequence(48, p.background)
    } else {
        Seq::<u8>::empty()
    }) + (if last.foreground != p.foreground {
        color_sequence(38, p.foreground)
    } else {
        Seq::<u8>::empty()
    }) + encode_scalar(p.value as u32)
}

/// Appends the decimal digits of `v`.
pub fn push_decimal(buffer: &mut Vec<u8>, v: u128)
    ensures
        final(buffer)@ == old(buffer)@ + decimal_bytes(v as nat),
    decreases v,
{
    if v < 10 {
        buffer.push(48 + v as u8);
        assert(buffer@ =~= old(buffer)@ + decimal_bytes(v as nat));
    } else {
        push_decimal(buffer, v / 10);
        buffer.push(48 + (v % 10) as u8);
        assert(buffer@ =~= old(buffer)@ + decimal_bytes(v as nat));
    }
}

/// Appends `v` in decimal.
pub fn push_signed(buffer: &mut Vec<u8>, v: i128)
    requires
        v > -0x4000_0000_0000_0000_0000_0000_0000_0000,
    ensures
        final(buffer)@ == old(buffer)@ + signed_bytes(v as int),
{
    if v < 0 {
        buffer.push(45);
        let ghost mid = buffer@;
        push_decimal(buffer, (-v) as u128);
        assert(buffer@ =~= old(buffer)@ + (seq![45u8] + decimal_bytes((-v) as nat)));
    } else {
        push_decimal(buffer, v as u128);
    }
}

/// Appends the sequence that selects the colour `c` for a layer.
pub fn push_color(buffer: &mut Vec<u8>, layer: u8, c: Color)
    ensures
        final(buffer)@ == old(buffer)@ + color_sequence(layer as nat, c),
{
    buffer.push(27);
    buffer.push(91);
    push_decimal(buffer, layer as u128);
    buffer.push(59);
    buffer.push(50);
    buffer.push(59);
    push_decimal(buffer, c.red as u128);
    buffer.push(59);
    push_decimal(buffer, c.green as u128);
    buffer.push(59);
    push_decimal(buffer, c.blue as u128);
    buffer.push(109);
    assert(buffer@ =~= old(buffer)@ + color_sequence(layer as nat, c));
}

/// Appends the UTF-8 bytes of `c`.
pub fn push_char(buffer: &mut Vec<u8>, c: char)
    ensures
        final(buffer)@ == old(buffer)@ + encode_scalar(c as u32),
{
    let s: u32 = c as u32;
    if s <= 0x7f {
        assert(s & 0x7f == s) by (bit_vector)
            requires
                s <= 0x7f,
        ;
        buffer.push(s as u8);
        assert(buffer@ =~= old(buffer)@ + encode_scalar(s));
    } else if s <= 0x7ff {
        let hi: u32 = (s >> 6) & 0x1f;
        let lo: u32 = s & 0x3f;
        assert(hi <= 0x1f && lo <= 0x3f) by (bit_vector)
            requires
                hi == (s >> 6) & 0x1f,
                lo == s & 0x3f,
        ;
        buffer.push(0xc0 | (hi as u8));
        buffer.push(0x80 | (lo as u8));
        assert(buffer@ =~= old(buffer)@ + encode_scalar(s));
    } else if s <= 0xffff {
        let hi: u32 = (s >> 12) & 0x0f;
        let mid: u32 = (s >> 6) & 0x3f;
        let lo: u32 = s & 0x3f;
        assert(hi <= 0x0f && mid <= 0x3f && lo <= 0x3f) by (bit_vector)
            requires
                hi == (s >> 12) & 0x0f,
                mid == (s >> 6) & 0x3f,
                lo == s & 0x3f,
        ;
        proof {
            char_is_scalar(c);
        }
        buffer.push(0xe0 | (hi as u8));
        buffer.push(0x80 | (mid as u8));
        buffer.push(0x80 | (lo as u8));
        assert(buffer@ =~= old(buffer)@ + encode_scalar(s));
    } else {
        let top: u32 = (s >> 18) & 0x7;
        let hi: u32 = (s >> 12) & 0x3f;
        let mid: u32 = (s >> 6) & 0x3f;
        let lo: u32 = s & 0x3f;
        assert(top <= 0x7 && hi <= 0x3f && mid <= 0x3f && lo <= 0x3f) by (bit_vector)
            requires
                top == (s >> 18) & 0x7,
                hi == (s >> 12) & 0x3f,
                mid == (s >> 6) & 0x3f,
                lo == s & 0x3f,
        ;
        proof {
            char_is_scalar(c);
        }
        buffer.push(0xf0 | (top as u8));
        buffer.push(0x80 | (hi as u8));
        buffer.push(0x80 | (mid as u8));
        buffer.push(0x80 | (lo as u8));
        assert(buffer@ =~= old(buffer)@ + encode_scalar(s));
    }
}

/// A cell as the terminal shows it by itself: both of its colours, its
/// glyph, and the reset of the colours.
pub open spec fn pixel_bytes(p: Pixel) -> Seq<u8> {
    color_sequence(48, p.background) + color_sequence(38, p.foreground) + encode_scalar(
        p.value as u32,
    ) + reset_sequence()
}

impl Pixel {
    /// The bytes that show this cell by itself when they are written to a
    /// terminal.
    pub fn to_bytes(&self) -> (bytes: Vec<u8>)
        ensures
            bytes@ == pixel_bytes(*self),
    {
        let mut bytes: Vec<u8> = Vec::new();
        push_color(&mut bytes, 48, self.background);
        push_color(&mut bytes, 38, self.foreground);
        push_char(&mut bytes, self.value);
        let ghost body = bytes@;
        bytes.push(27);
        bytes.push(91);
        bytes.push(51);
        bytes.push(57);
        bytes.push(109);
        bytes.push(27);
        bytes.push(91);
        bytes.push(52);
        bytes.push(57);
        bytes.push(109);
        assert(bytes@ =~= body + reset_sequence());
        assert(bytes@ =~= pixel_bytes(*self));
        bytes
    }
}

/// The writer of a frame: the bytes gathered so far, and the cell that was
/// written last, whose colours the terminal still has.
pub struct BufferedConsole {
    pub buffer: Vec<u8>,
    pub last_pixel: Pixel,
}

impl BufferedConsole {
    /// A writer that has gathered nothing and knows of no colour.
    pub fn new() -> (console: BufferedConsole)
        ensures
            console.buffer@ == Seq::<u8>::empty(),
            console.last_pixel == empty_pixel(),
    {
        BufferedConsole { buffer: Vec::new(), last_pixel: Pixels::EMPTY() }
    }

    /// Writes one cell where the cursor stands.
    ///
    /// A cell without a glyph is written as the default cell. A cell whose
    /// glyph is a control character, or one of whose colours is not valid,
    /// is not written at all.
    pub fn print(&mut self, pixel: Pixel)
        ensures
            printable(shown(pixel)) ==> {
                &&& final(self).buffer@ == old(self).buffer@ + cell_bytes(
                    old(self).last_pixel,
                    shown(pixel),
                )
                &&& final(self).last_pixel == shown(pixel)
            },
            !printable(shown(pixel)) ==> {
                &&& final(self).buffer@ == old(self).buffer@
                &&& final(self).last_pixel == old(self).last_pixel
            },
    {
        let p: Pixel = if pixel.value == '\0' {
            Pixels::DEFAULT()
        } else {
            pixel
        };
        if p.value >= ' ' && p.background.valid && p.foreground.valid {
            let ghost start = self.buffer@;
            if self.last_pixel.background != p.background {
                push_color(&mut self.buffer, 48, p.background);
            }
            let ghost mid = self.buffer@;
            if self.last_pixel.foreground != p.foreground {
                push_color(&mut self.buffer, 38, p.foreground);
            }
            push_char(&mut self.buffer, p.value);
            assert(self.buffer@ =~= start + cell_bytes(old(self).last_pixel, p));
            self.last_pixel = p;
        }
    }

    /// Moves the cursor to column `x` and row `y`, counted from 0.
    pub fn set_cursor_position(&mut self, x: i64, y: i64)
        ensures
            final(self).buffer@ == old(self).buffer@ + cursor_sequence(x as int, y as int),
            final(self).last_pixel == old(self).last_pixel,
    {
        self.buffer.push(27);
        self.buffer.push(91);
        push_signed(&mut self.buffer, y as i128 + 1);
        self.buffer.push(59);
        push_signed(&mut self.buffer, x as i128 + 1);
        self.buffer.push(72);
        assert(self.buffer@ =~= old(self).buffer@ + cursor_sequence(x as int, y as int));
    }

    /// Ends the frame: gives back all that was gathered, with the colours'
    /// reset behind it, to be written to the terminal in one piece. The
    /// writer is left empty and knows of no colour.
    pub fn flush(&mut self) -> (frame: Vec<u8>)
        ensures
            frame@ == old(self).buffer@ + reset_sequence(),
            final(self).buffer@ == Seq::<u8>::empty(),
            final(self).last_pixel == empty_pixel(),
    {
        self.buffer.push(27);
        self.buffer.push(91);
        self.buffer.push(51);
        self.buffer.push(57);
        self.buffer.push(109);
        self.buffer.push(27);
        self.buffer.push(91);
        self.buffer.push(52);
        self.buffer.push(57);
        self.buffer.push(109);
        assert(self.buffer@ =~= old(self).buffer@ + reset_sequence());
        let mut frame: Vec<u8> = Vec::new();
        core::mem::swap(&mut frame, &mut self.buffer);
        self.last_pixel = Pixels::EMPTY();
        frame
    }

    /// Drops all that was gathered. The writer is left empty and knows of no
    /// colour.
    pub fn clear(&mut self)
        ensures
            final(self).buffer@ == Seq::<u8>::empty(),
            final(self).last_pixel == empty_pixel(),
    {
        self.buffer.clear();
        self.last_pixel = Pixels::EMPTY();
    }
}

} // verus!
