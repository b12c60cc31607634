//! Lengths with units, and what they come to in cells.
use vstd::prelude::*;
use vstd::string::*;
use crate::decimal::{clamp, round_div, Decimal};
use crate::text::{
    bounded_decimal,
    ends_with,
    equals_str,
    integer_value,
    lowered,
    read_decimal,
    read_integer,
    strip_suffix,
    to_chars,
    to_lower,
    trim,
    trimmed,
};

verus! {

/// A length with its unit. The numbers of all units but `Pixel` are
/// percentages.
#[derive(PartialEq, Eq, Structural, Debug, Clone, Copy)]
pub enum Dimension {
    /// Decided by the content.
    Auto,
    /// A number of cells.
    Pixel(i32),
    /// Of the parent's extent along the axis that is being computed.
    Percent(Decimal),
    /// Of the parent's width.
    PW(Decimal),
    /// Of the parent's height.
    PH(Decimal),
    /// Of the smaller of the parent's width and height.
    PMin(Decimal),
    /// Of the larger of the parent's width and height.
    PMax(Decimal),
    /// Of the viewport's width.
    VW(Decimal),
    /// Of the viewport's height.
    VH(Decimal),
    /// Of the smaller of the viewport's width and height.
    VMin(Decimal),
    /// Of the larger of the viewport's width and height.
    VMax(Decimal),
}

/// The least place that a node keeps.
pub const CELLS_MIN: i64 = -0x8000_0000;

/// The largest extent and the largest place that a node keeps.
pub const CELLS_MAX: i64 = 0x7fff_ffff;

/// The smaller of two integers.
pub open spec fn min_of(a: int, b: int) -> int {
    if a <= b {
        a
    } else {
        b
    }
}

/// The larger of two integers.
pub open spec fn max_of(a: int, b: int) -> int {
    if a >= b {
        a
    } else {
        b
    }
}

/// A percentage, in millionths, of an extent: rounded to the nearest cell,
/// ties away from zero. Only where the number of cells does not fit 64 bits
/// is it the nearest that does.
pub open spec fn percent_of(micros: int, extent: int) -> int {
    clamp(
        round_div(micros * extent, 100_000_000),
        -0x8000_0000_0000_0000,
        0x7fff_ffff_ffff_ffff,
    )
}

/// The number of cells that a dimension comes to, given the extents of the
/// parent and of the viewport. `horizontal` says along which axis a plain
/// percentage is taken.
pub open spec fn resolve(
    dim: Dimension,
    parent_width: int,
    parent_height: int,
    viewport_width: int,
    viewport_height: int,
    horizontal: bool,
) -> int {
    match dim {
        Dimension::Auto => 0,
        Dimension::Pixel(n) => n as int,
        Dimension::Percent(p) => percent_of(
            p.micros as int,
            if horizontal {
                parent_width
            } else {
                parent_height
            },
        ),
        Dimension::PW(p) => percent_of(p.micros as int, parent_width),
        Dimension::PH(p) => percent_of(p.micros as int, parent_height),
        Dimension::PMin(p) => percent_of(p.micros as int, min_of(parent_width, parent_height)),
        Dimension::PMax(p) => percent_of(p.micros as int, max_of(parent_width, parent_height)),
        Dimension::VW(p) => percent_of(p.micros as int, viewport_width),
        Dimension::VH(p) => percent_of(p.micros as int, viewport_height),
        Dimension::VMin(p) => percent_of(p.micros as int, min_of(viewport_width, viewport_height)),
        Dimension::VMax(p) => percent_of(p.micros as int, max_of(viewport_width, viewport_height)),
    }
}

/// Whether a dimension is taken of the parent.
pub open spec fn parent_relative(dim: Dimension) -> bool {
    dim is Percent || dim is PW || dim is PH || dim is PMin || dim is PMax
}

/// Whether a dimension is taken of the viewport.
pub open spec fn viewport_relative(dim: Dimension) -> bool {
    dim is VW || dim is VH || dim is VMin || dim is VMax
}

/// A number with a unit behind it, as a dimension; a complaint where the
/// number is none.
pub open spec fn with_unit(number: Seq<char>, unit: int, complaint: Seq<char>) -> Result<
    Dimension,
    Seq<char>,
> {
    match bounded_decimal(trimmed(number)) {
        Some(m) => {
            let p = Decimal { micros: m as i64 };
            Ok(
                if unit == 0 {
                    Dimension::Percent(p)
                } else if unit == 1 {
                    Dimension::VW(p)
                } else if unit == 2 {
                    Dimension::VH(p)
                } else if unit == 3 {
                    Dimension::VMin(p)
                } else if unit == 4 {
                    Dimension::VMax(p)
                } else if unit == 5 {
                    Dimension::PW(p)
                } else if unit == 6 {
                    Dimension::PH(p)
                } else if unit == 7 {
                    Dimension::PMin(p)
                } else {
                    Dimension::PMax(p)
                },
            )
        },
        None => Err(complaint),
    }
}

/// A whole number of cells, as a dimension; a complaint where the text is
/// no whole number of 32 bits.
pub open spec fn cells(number: Seq<char>, complaint: Seq<char>) -> Result<Dimension, Seq<char>> {
    match integer_value(number) {
        Some(n) => if -0x8000_0000 <= n <= 0x7fff_ffff {
            Ok(Dimension::Pixel(n as i32))
        } else {
            Err(complaint)
        },
        None => Err(complaint),
    }
}

/// What stands before a unit of `len` characters.
pub open spec fn before_unit(s: Seq<char>, unit: Seq<char>) -> Seq<char> {
    s.subrange(0, s.len() - unit.len())
}

/// The dimension that a text stands for: `auto`, or a number and, behind it,
/// one of the units `px`, `%`, `vw`, `vh`, `vmin`, `vmax`, `pw`, `ph`, `pmin`
/// and `pmax`; a number alone counts cells. Case and white space count for
/// nothing.
pub open spec fn html_dimension(s: Seq<char>) -> Result<Dimension, Seq<char>> {
    let t = lowered(trimmed(s));
    if t == "auto"@ {
        Ok(Dimension::Auto)
    } else if ends_with(t, "px"@) {
        cells(trimmed(before_unit(t, "px"@)), "Couldn't parse pixel dimension"@)
    } else if ends_with(t, "%"@) {
        with_unit(before_unit(t, "%"@), 0, "Couldn't parse percent dimension"@)
    } else if ends_with(t, "vw"@) {
        with_unit(before_unit(t, "vw"@), 1, "Couldn't parse viewport width dimension"@)
    } else if ends_with(t, "vh"@) {
        with_unit(before_unit(t, "vh"@), 2, "Couldn't parse viewport height dimension"@)
    } else if ends_with(t, "vmin"@) {
        with_unit(before_unit(t, "vmin"@), 3, "Couldn't parse viewport minimum dimension"@)
    } else if ends_with(t, "vmax"@) {
        with_unit(before_unit(t, "vmax"@), 4, "Couldn't parse viewport maximum dimension"@)
    } else if ends_with(t, "pw"@) {
        with_unit(before_unit(t, "pw"@), 5, "Couldn't parse parent width dimension"@)
    } else if ends_with(t, "ph"@) {
        with_unit(before_unit(t, "ph"@), 6, "Couldn't parse parent height dimension"@)
    } else if ends_with(t, "pmin"@) {
        with_unit(before_unit(t, "pmin"@), 7, "Couldn't parse parent minimum dimension"@)
    } else if ends_with(t, "pmax"@) {
        with_unit(before_unit(t, "pmax"@), 8, "Couldn't parse parent maximum dimension"@)
    } else {
        cells(t, "Couldn't parse pixel value"@)
    }
}

/// Whether what a parser gave is what the text stands for.
pub open spec fn same_dimension(
    res: Result<Dimension, &'static str>,
    expected: Result<Dimension, Seq<char>>,
) -> bool {
    match expected {
        Ok(d) => res == Ok::<Dimension, &'static str>(d),
        Err(m) => res is Err && res->Err_0@ == m,
    }
}

fn read_with_unit(number: &Vec<char>, unit: u8, complaint: &'static str) -> (r: Result<
    Dimension,
    &'static str,
>)
    requires
        unit <= 8,
    ensures
        same_dimension(r, with_unit(number@, unit as int, complaint@)),
{
    match read_decimal(&trim(number)) {
        Some(m) => {
            let p = Decimal { micros: m };
            Ok(
                if unit == 0 {
                    Dimension::Percent(p)
                } else if unit == 1 {
                    Dimension::VW(p)
                } else if unit == 2 {
                    Dimension::VH(p)
                } else if unit == 3 {
                    Dimension::VMin(p)
                } else if unit == 4 {
                    Dimension::VMax(p)
                } else if unit == 5 {
                    Dimension::PW(p)
                } else if unit == 6 {
                    Dimension::PH(p)
                } else if unit == 7 {
                    Dimension::PMin(p)
                } else {
                    Dimension::PMax(p)
                },
            )
        },
        None => Err(complaint),
    }
}

fn read_cells(number: &Vec<char>, complaint: &'static str) -> (r: Result<Dimension, &'static str>)
    ensures
        same_dimension(r, cells(number@, complaint@)),
{
    match read_integer(number, 0x7fff_ffff) {
        Some(n) => Ok(Dimension::Pixel(n as i32)),
        None => Err(complaint),
    }
}

impl Dimension {
    /// The dimension that a text stands for: `auto`, or a number with one of
    /// the units `px`, `%`, `vw`, `vh`, `vmin`, `vmax`, `pw`, `ph`, `pmin`,
    /// `pmax` behind it, or a number alone, which counts cells.
    pub fn from_html(html: &str) -> (res: Result<Dimension, &'static str>)
        ensures
            same_dimension(res, html_dimension(html@)),
    {
        let t = to_lower(&trim(&to_chars(html)));
        if equals_str(&t, "auto") {
            return Ok(Dimension::Auto);
        }
        match strip_suffix(&t, "px") {
            Some(number) => {
                return read_cells(&trim(&number), "Couldn't parse pixel dimension");
            },
            None => {},
        }
        match strip_suffix(&t, "%") {
            Some(number) => {
                return read_with_unit(&number, 0, "Couldn't parse percent dimension");
            },
            None => {},
        }
        match strip_suffix(&t, "vw") {
            Some(number) => {
                return read_with_unit(&number, 1, "Couldn't parse viewport width dimension");
            },
            None => {},
        }
        match strip_suffix(&t, "vh") {
            Some(number) => {
                return read_with_unit(&number, 2, "Couldn't parse viewport height dimension");
            },
            None => {},
        }
        match strip_suffix(&t, "vmin") {
            Some(number) => {
                return read_with_unit(&number, 3, "Couldn't parse viewport minimum dimension");
            },
            None => {},
        }
        match strip_suffix(&t, "vmax") {
            Some(number) => {
                return read_with_unit(&number, 4, "Couldn't parse viewport maximum dimension");
            },
            None => {},
        }
        match strip_suffix(&t, "pw") {
            Some(number) => {
                return read_with_unit(&number, 5, "Couldn't parse parent width dimension");
            },
            None => {},
        }
        match strip_suffix(&t, "ph") {
            Some(number) => {
                return read_with_unit(&number, 6, "Couldn't parse parent height dimension");
            },
            None => {},
        }
        match strip_suffix(&t, "pmin") {
            Some(number) => {
                return read_with_unit(&number, 7, "Couldn't parse parent minimum dimension");
            },
            None => {},
        }
        match strip_suffix(&t, "pmax") {
            Some(number) => {
                return read_with_unit(&number, 8, "Couldn't parse parent maximum dimension");
            },
            None => {},
        }
        read_cells(&t, "Couldn't parse pixel value")
    }

    /// Whether this dimension is taken of the parent.
    pub fn is_parent_relative(&self) -> (b: bool)
        ensures
            b == parent_relative(*self),
    {
        match self {
            Dimension::Percent(_) | Dimension::PW(_) | Dimension::PH(_) | Dimension::PMin(_)
            | Dimension::PMax(_) => true,
            _ => false,
        }
    }

    /// Whether this dimension is taken of the viewport.
    pub fn is_viewport_relative(&self) -> (b: bool)
        ensures
            b == viewport_relative(*self),
    {
        match self {
            Dimension::VW(_) | Dimension::VH(_) | Dimension::VMin(_) | Dimension::VMax(_) => true,
            _ => false,
        }
    }

    /// Whether this dimension is `Auto`.
    pub fn is_auto(&self) -> (b: bool)
        ensures
            b == (*self is Auto),
    {
        match self {
            Dimension::Auto => true,
            _ => false,
        }
    }
}

/// Four dimensions of one unit at once: x, y, width and height.
pub struct Dimensions;

impl Dimensions {
    /// All four decided by the content.
    pub fn auto() -> (d: (Dimension, Dimension, Dimension, Dimension))
        ensures
            d == (Dimension::Auto, Dimension::Auto, Dimension::Auto, Dimension::Auto),
    {
        (Dimension::Auto, Dimension::Auto, Dimension::Auto, Dimension::Auto)
    }

    /// All four in cells.
    pub fn pixel(x: i32, y: i32, width: i32, height: i32) -> (d: (
        Dimension,
        Dimension,
        Dimension,
        Dimension,
    ))
        ensures
            d == (
                Dimension::Pixel(x),
                Dimension::Pixel(y),
                Dimension::Pixel(width),
                Dimension::Pixel(height),
            ),
    {
        (Dimension::Pixel(x), Dimension::Pixel(y), Dimension::Pixel(width), Dimension::Pixel(height))
    }

    /// All four as percentages of the parent along their own axis.
    pub fn percent(x: Decimal, y: Decimal, width: Decimal, height: Decimal) -> (d: (
        Dimension,
        Dimension,
        Dimension,
        Dimension,
    ))
        ensures
            d == (
                Dimension::Percent(x),
                Dimension::Percent(y),
                Dimension::Percent(width),
                Dimension::Percent(height),
            ),
    {
        (
            Dimension::Percent(x),
            Dimension::Percent(y),
            Dimension::Percent(width),
            Dimension::Percent(height),
        )
    }

    /// All four as percentages of the parent's width.
    pub fn pw(x: Decimal, y: Decimal, width: Decimal, height: Decimal) -> (d: (
        Dimension,
        Dimension,
        Dimension,
        Dimension,
    ))
        ensures
            d == (Dimension::PW(x), Dimension::PW(y), Dimension::PW(width), Dimension::PW(height)),
    {
        (Dimension::PW(x), Dimension::PW(y), Dimension::PW(width), Dimension::PW(height))
    }

    /// All four as percentages of the parent's height.
    pub fn ph(x: Decimal, y: Decimal, width: Decimal, height: Decimal) -> (d: (
        Dimension,
        Dimension,
        Dimension,
        Dimension,
    ))
        ensures
            d == (Dimension::PH(x), Dimension::PH(y), Dimension::PH(width), Dimension::PH(height)),
    {
        (Dimension::PH(x), Dimension::PH(y), Dimension::PH(width), Dimension::PH(height))
    }

    /// All four as percentages of the smaller extent of the parent.
    pub fn pmin(x: Decimal, y: Decimal, width: Decimal, height: Decimal) -> (d: (
        Dimension,
        Dimension,
        Dimension,
        Dimension,
    ))
        ensures
            d == (
                Dimension::PMin(x),
                Dimension::PMin(y),
                Dimension::PMin(width),
                Dimension::PMin(height),
            ),
    {
        (Dimension::PMin(x), Dimension::PMin(y), Dimension::PMin(width), Dimension::PMin(height))
    }

    /// All four as percentages of the larger extent of the parent.
    pub fn pmax(x: Decimal, y: Decimal, width: Decimal, height: Decimal) -> (d: (
        Dimension,
        Dimension,
        Dimension,
        Dimension,
    ))
        ensures
            d == (
                Dimension::PMax(x),
                Dimension::PMax(y),
                Dimension::PMax(width),
                Dimension::PMax(height),
            ),
    {
        (Dimension::PMax(x), Dimension::PMax(y), Dimension::PMax(width), Dimension::PMax(height))
    }

    /// All four as percentages of the viewport's width.
    pub fn vw(x: Decimal, y: Decimal, width: Decimal, height: Decimal) -> (d: (
        Dimension,
        Dimension,
        Dimension,
        Dimension,
    ))
        ensures
            d == (Dimension::VW(x), Dimension::VW(y), Dimension::VW(width), Dimension::VW(height)),
    {
        (Dimension::VW(x), Dimension::VW(y), Dimension::VW(width), Dimension::VW(height))
    }

    /// All four as percentages of the viewport's height.
    pub fn vh(x: Decimal, y: Decimal, width: Decimal, height: Decimal) -> (d: (
        Dimension,
        Dimension,
        Dimension,
        Dimension,
    ))
        ensures
            d == (Dimension::VH(x), Dimension::VH(y), Dimension::VH(width), Dimension::VH(height)),
    {
        (Dimension::VH(x), Dimension::VH(y), Dimension::VH(width), Dimension::VH(height))
    }

    /// All four as percentages of the smaller extent of the viewport.
    pub fn vmin(x: Decimal, y: Decimal, width: Decimal, height: Decimal) -> (d: (
        Dimension,
        Dimension,
        Dimension,
        Dimension,
    ))
        ensures
            d == (
                Dimension::VMin(x),
                Dimension::VMin(y),
                Dimension::VMin(width),
                Dimension::VMin(height),
            ),
    {
        (Dimension::VMin(x), Dimension::VMin(y), Dimension::VMin(width), Dimension::VMin(height))
    }

    /// All four as percentages of the larger extent of the viewport.
    pub fn vmax(x: Decimal, y: Decimal, width: Decimal, height: Decimal) -> (d: (
        Dimension,
        Dimension,
        Dimension,
        Dimension,
    ))
        ensures
            d == (
                Dimension::VMax(x),
                Dimension::VMax(y),
                Dimension::VMax(width),
                Dimension::VMax(height),
            ),
    {
        (Dimension::VMax(x), Dimension::VMax(y), Dimension::VMax(width), Dimension::VMax(height))
    }
}

/// A number of cells always comes to itself, whatever the parent and the
/// viewport are.
pub proof fn lemma_pixels_resolve_to_themselves(
    n: i32,
    parent_width: int,
    parent_height: int,
    viewport_width: int,
    viewport_height: int,
    horizontal: bool,
)
    ensures
        resolve(
            Dimension::Pixel(n),
            parent_width,
            parent_height,
            viewport_width,
            viewport_height,
            horizontal,
        ) == n,
{
}

} // verus!
