//! Colours as text: their names, and the notations of HTML.
use vstd::prelude::*;
use vstd::string::*;
use crate::color::{hsla_color, unpack16, unpack32, alpha_channel, Color};
use crate::colors::{palette_color, palette_entry, palette_name, PALETTE_LEN};
use crate::decimal::Decimal;
use crate::text::{
    all_hex_digits,
    bounded_decimal,
    hex_value,
    lowered,
    read_decimal,
    read_hex,
    read_share,
    read_unsigned,
    remove_char,
    same_chars,
    share_micros,
    slice,
    split,
    split_exec,
    starts_with,
    strip_prefix,
    to_chars,
    to_lower,
    trim,
    trimmed,
    unsigned_value,
    without,
    decimal_chars,
    lines,
    push_number,
    push_str,
};

verus! {

/// The key under which a name is looked up: in lower case, without
/// underscores, and then without the white space at its ends.
pub open spec fn name_key(s: Seq<char>) -> Seq<char> {
    trimmed(without(lowered(s), '_'))
}

/// The first entry of the palette from `i` on whose colour is `c`, or the
/// palette's length.
pub open spec fn first_colored(c: Color, i: int) -> int
    decreases PALETTE_LEN - i,
{
    if i < 0 || i >= PALETTE_LEN {
        PALETTE_LEN as int
    } else if palette_color(i) == c {
        i
    } else {
        first_colored(c, i + 1)
    }
}

/// The first entry of the palette from `i` on whose name has the key `key`,
/// or the palette's length.
pub open spec fn first_named(key: Seq<char>, i: int) -> int
    decreases PALETTE_LEN - i,
{
    if i < 0 || i >= PALETTE_LEN {
        PALETTE_LEN as int
    } else if name_key(palette_name(i)) == key {
        i
    } else {
        first_named(key, i + 1)
    }
}

/// The name of a colour: `INVALID` for one that is not valid, `TRANSPARENT`
/// for a valid one without any alpha, else the name of the first entry
/// of the palette with the same colour channels, or nothing.
pub open spec fn color_name(c: Color) -> Seq<char> {
    if !c.valid {
        "INVALID"@
    } else if c.alpha == 0 {
        "TRANSPARENT"@
    } else {
        let k = first_colored(Color { alpha: 255, ..c }, 0);
        if k < PALETTE_LEN {
            palette_name(k)
        } else {
            Seq::<char>::empty()
        }
    }
}

/// The colour that a name stands for, if the palette has the name.
pub open spec fn named_color(s: Seq<char>) -> Option<Color> {
    let k = first_named(name_key(s), 0);
    if k < PALETTE_LEN {
        Some(palette_color(k))
    } else {
        None
    }
}

/// The colour that hexadecimal digits write, by their number.
pub open spec fn hex_color(digits: Seq<char>) -> Result<Color, Seq<char>> {
    if digits.len() == 8 {
        if all_hex_digits(digits) {
            Ok(unpack32(hex_value(digits)))
        } else {
            Err("Couldn't parse #RRGGBBAA format"@)
        }
    } else if digits.len() == 6 {
        if all_hex_digits(digits) {
            Ok(unpack32(hex_value(digits) * 0x100 + 0xff))
        } else {
            Err("Couldn't parse #RRGGBB format"@)
        }
    } else if digits.len() == 4 {
        if all_hex_digits(digits) {
            Ok(unpack16(hex_value(digits)))
        } else {
            Err("Couldn't parse #RGBA format"@)
        }
    } else if digits.len() == 3 {
        if all_hex_digits(digits) {
            Ok(unpack16(hex_value(digits) * 0x10 + 0xf))
        } else {
            Err("Couldn't parse #RGB format"@)
        }
    } else {
        Err(
            "Invalid color format. Supported hexadecimal formats are #RRGGBBAA, #RRGGBB, #RGBA and #RGB."@,
        )
    }
}

/// The arguments of a function's call: what stands between the brackets
/// that follow its name, split at the commas. `None` where the brackets are
/// not there.
pub open spec fn arguments(s: Seq<char>) -> Option<Seq<Seq<char>>> {
    let t = trimmed(s);
    if t.len() >= 2 && t[0] == '(' && t.last() == ')' {
        Some(split(trimmed(t.subrange(1, t.len() - 1)), ','))
    } else {
        None
    }
}

/// One colour channel as an argument: a whole number from 0 to 255.
pub open spec fn channel_argument(s: Seq<char>) -> Option<int> {
    match unsigned_value(trimmed(s)) {
        Some(v) => if v <= 255 {
            Some(v)
        } else {
            None
        },
        None => None,
    }
}

/// The colour of the arguments of `rgb` or, with an alpha, of `rgba`.
pub open spec fn rgb_arguments(args: Option<Seq<Seq<char>>>, with_alpha: bool) -> Option<Color> {
    match args {
        Some(a) => {
            if a.len() != (if with_alpha {
                4int
            } else {
                3int
            }) {
                None
            } else {
                let alpha = if with_alpha {
                    share_micros(a[3])
                } else {
                    Some(1_000_000int)
                };
                match (channel_argument(a[0]), channel_argument(a[1]), channel_argument(a[2]), alpha) {
                    (Some(r), Some(g), Some(b), Some(al)) => Some(
                        Color {
                            red: r as u8,
                            green: g as u8,
                            blue: b as u8,
                            alpha: alpha_channel(al) as u8,
                            valid: true,
                        },
                    ),
                    _ => None,
                }
            }
        },
        None => None,
    }
}

/// The colour of the arguments of `hsl` or, with an alpha, of `hsla`.
pub open spec fn hsl_arguments(args: Option<Seq<Seq<char>>>, with_alpha: bool) -> Option<Color> {
    match args {
        Some(a) => {
            if a.len() != (if with_alpha {
                4int
            } else {
                3int
            }) {
                None
            } else {
                let alpha = if with_alpha {
                    share_micros(a[3])
                } else {
                    Some(1_000_000int)
                };
                match (bounded_decimal(trimmed(a[0])), share_micros(a[1]), share_micros(a[2]), alpha) {
                    (Some(h), Some(s), Some(l), Some(al)) => Some(hsla_color(h, s, l, al)),
                    _ => None,
                }
            }
        },
        None => None,
    }
}

/// What a failed call of a colour function says.
pub open spec fn call_result(c: Option<Color>, complaint: Seq<char>) -> Result<Color, Seq<char>> {
    match c {
        Some(c) => Ok(c),
        None => Err(complaint),
    }
}

/// The colour that a text in one of the notations of HTML stands for, or the
/// complaint about the notation that it comes nearest to. The notations are
/// tried in this order: a name, `#` and hexadecimal digits, `rgba(..)`,
/// `rgb(..)`, `hsla(..)`, `hsl(..)`.
pub open spec fn html_color(s: Seq<char>) -> Result<Color, Seq<char>> {
    let t = trimmed(s);
    if named_color(t) is Some {
        Ok(named_color(t)->Some_0)
    } else if t.len() > 0 && t[0] == '#' {
        hex_color(trimmed(t.subrange(1, t.len() as int)))
    } else if starts_with(t, "rgba"@) {
        call_result(
            rgb_arguments(arguments(t.subrange("rgba"@.len() as int, t.len() as int)), true),
            "Invalid color format. The correct function structure is rgba(r, g, b, a). Spaces don't matter."@,
        )
    } else if starts_with(t, "rgb"@) {
        call_result(
            rgb_arguments(arguments(t.subrange("rgb"@.len() as int, t.len() as int)), false),
            "Invalid color format. The correct function structure is rgb(r, g, b). Spaces don't matter."@,
        )
    } else if starts_with(t, "hsla"@) {
        call_result(
            hsl_arguments(arguments(t.subrange("hsla"@.len() as int, t.len() as int)), true),
            "Invalid color format. The correct function structure is hsla(h, s, l, a). Spaces don't matter."@,
        )
    } else if starts_with(t, "hsl"@) {
        call_result(
            hsl_arguments(arguments(t.subrange("hsl"@.len() as int, t.len() as int)), false),
            "Invalid color format. The correct function structure is hsl(h, s, l). Spaces don't matter."@,
        )
    } else {
        Err(
            "Invalid color name or format. Make sure to use supported HTML color names or formats."@,
        )
    }
}

/// A colour as a reader sees it: in brackets its name, if it has one, and a
/// dash, then its three colour channels, then its alpha unless it is opaque.
pub open spec fn color_text(c: Color) -> Seq<char> {
    let name = if color_name(c).len() > 0 {
        color_name(c) + " - "@
    } else {
        Seq::<char>::empty()
    };
    let alpha = if c.alpha != 255 {
        ", alpha:"@ + decimal_chars(c.alpha as nat)
    } else {
        Seq::<char>::empty()
    };
    "("@ + name + "red:"@ + decimal_chars(c.red as nat) + ", green:"@ + decimal_chars(c.green as nat)
        + ", blue:"@ + decimal_chars(c.blue as nat) + alpha + ")"@
}

/// Whether what a parser gave is what the notation stands for.
pub open spec fn same_result(res: Result<Color, &'static str>, expected: Result<Color, Seq<char>>) -> bool {
    match expected {
        Ok(c) => res == Ok::<Color, &'static str>(c),
        Err(m) => res is Err && res->Err_0@ == m,
    }
}

fn key_of(v: &Vec<char>) -> (k: Vec<char>)
    ensures
        k@ == name_key(v@),
{
    let low = to_lower(v);
    let bare = remove_char(&low, '_');
    trim(&bare)
}

fn find_named(key: &Vec<char>) -> (r: Option<Color>)
    ensures
        r == (if first_named(key@, 0) < PALETTE_LEN {
            Some(palette_color(first_named(key@, 0)))
        } else {
            None
        }),
{
    let mut i: usize = 0;
    while i < PALETTE_LEN
        invariant
            i <= PALETTE_LEN,
            first_named(key@, 0) == first_named(key@, i as int),
        decreases PALETTE_LEN - i,
    {
        let entry = palette_entry(i);
        let name = to_chars(entry.0);
        let k = key_of(&name);
        if same_chars(&k, key) {
            return Some(entry.1);
        }
        i += 1;
    }
    None
}

fn read_arguments(v: &Vec<char>) -> (r: Option<Vec<Vec<char>>>)
    ensures
        r is Some <==> arguments(v@) is Some,
        r is Some ==> lines(r->Some_0) == arguments(v@)->Some_0,
{
    let t = trim(v);
    let n: usize = t.len();
    if n >= 2 && t[0] == '(' && t[n - 1] == ')' {
        let inner = trim(&slice(&t, 1, n - 1));
        Some(split_exec(&inner, ','))
    } else {
        None
    }
}

fn read_channel(v: &Vec<char>) -> (r: Option<u8>)
    ensures
        r is Some <==> channel_argument(v@) is Some,
        r is Some ==> r->Some_0 == channel_argument(v@)->Some_0,
{
    let t = trim(v);
    match read_unsigned(&t, 255) {
        Some(c) => Some(c as u8),
        None => None,
    }
}

fn read_rgb(args: Option<Vec<Vec<char>>>, with_alpha: bool) -> (r: Option<Color>)
    ensures
        r == rgb_arguments(
            match args {
                Some(a) => Some(lines(a)),
                None => None,
            },
            with_alpha,
        ),
{
    let a = match args {
        Some(a) => a,
        None => {
            return None;
        },
    };
    let want: usize = if with_alpha {
        4
    } else {
        3
    };
    if a.len() != want {
        return None;
    }
    let alpha: Option<i64> = if with_alpha {
        read_share(&a[3])
    } else {
        Some(1_000_000)
    };
    match (read_channel(&a[0]), read_channel(&a[1]), read_channel(&a[2]), alpha) {
        (Some(r), Some(g), Some(b), Some(al)) => Some(
            Color::from_rgba(r, g, b, Decimal { micros: al }),
        ),
        _ => None,
    }
}

fn read_hsl(args: Option<Vec<Vec<char>>>, with_alpha: bool) -> (r: Option<Color>)
    ensures
        r == hsl_arguments(
            match args {
                Some(a) => Some(lines(a)),
                None => None,
            },
            with_alpha,
        ),
{
    let a = match args {
        Some(a) => a,
        None => {
            return None;
        },
    };
    let want: usize = if with_alpha {
        4
    } else {
        3
    };
    if a.len() != want {
        return None;
    }
    let alpha: Option<i64> = if with_alpha {
        read_share(&a[3])
    } else {
        Some(1_000_000)
    };
    let hue = read_decimal(&trim(&a[0]));
    match (hue, read_share(&a[1]), read_share(&a[2]), alpha) {
        (Some(h), Some(s), Some(l), Some(al)) => Some(
            Color::from_hsla(
                Decimal { micros: h },
                Decimal { micros: s },
                Decimal { micros: l },
                Decimal { micros: al },
            ),
        ),
        _ => None,
    }
}

fn read_hex_color(digits: &Vec<char>) -> (r: Result<Color, &'static str>)
    ensures
        same_result(r, hex_color(digits@)),
{
    let n: usize = digits.len();
    if n == 8 {
        match read_hex(digits) {
            Some(val) => Ok(Color::from_u32(val)),
            None => Err("Couldn't parse #RRGGBBAA format"),
        }
    } else if n == 6 {
        match read_hex(digits) {
            Some(val) => {
                proof {
                    crate::text::lemma_pow16_values();
                }
                Ok(Color::from_u32(val * 0x100 + 0xff))
            },
            None => Err("Couldn't parse #RRGGBB format"),
        }
    } else if n == 4 {
        match read_hex(digits) {
            Some(val) => {
                proof {
                    crate::text::lemma_pow16_values();
                }
                Ok(Color::from_u16(val as u16))
            },
            None => Err("Couldn't parse #RGBA format"),
        }
    } else if n == 3 {
        match read_hex(digits) {
            Some(val) => {
                proof {
                    crate::text::lemma_pow16_values();
                }
                Ok(Color::from_u16((val * 0x10 + 0xf) as u16))
            },
            None => Err("Couldn't parse #RGB format"),
        }
    } else {
        Err(
            "Invalid color format. Supported hexadecimal formats are #RRGGBBAA, #RRGGBB, #RGBA and #RGB.",
        )
    }
}

fn call_outcome(c: Option<Color>, complaint: &'static str) -> (r: Result<Color, &'static str>)
    ensures
        same_result(r, call_result(c, complaint@)),
{
    match c {
        Some(c) => Ok(c),
        None => Err(complaint),
    }
}

impl Color {
    /// The name of this colour: `INVALID`, `TRANSPARENT`, the canonical name
    /// in capitals of the first palette entry with these colour channels, or
    /// the empty text where the palette has none.
    pub fn get_name(&self) -> (name: &'static str)
        ensures
            name@ == color_name(*self),
    {
        if !self.valid {
            return "INVALID";
        }
        if self.alpha == 0 {
            return "TRANSPARENT";
        }
        let solid = Color {
            red: self.red,
            green: self.green,
            blue: self.blue,
            alpha: 255,
            valid: true,
        };
        let mut i: usize = 0;
        while i < PALETTE_LEN
            invariant
                i <= PALETTE_LEN,
                self.valid,
                self.alpha != 0,
                solid == (Color { alpha: 255, ..*self }),
                first_colored(solid, 0) == first_colored(solid, i as int),
            decreases PALETTE_LEN - i,
        {
            let entry = palette_entry(i);
            if entry.1 == solid {
                assert(first_colored(solid, i as int) == i);
                return entry.0;
            }
            i += 1;
        }
        proof {
            reveal_strlit("");
        }
        assert(""@ =~= Seq::<char>::empty());
        ""
    }

    /// This colour as a reader sees it, such as `(RED - red:255, green:0,
    /// blue:0)` or `(red:1, green:2, blue:3, alpha:4)`.
    pub fn to_string(&self) -> (s: String)
        ensures
            s@ == color_text(*self),
    {
        let mut s: String = String::new();
        push_str(&mut s, "(");
        let name = self.get_name();
        if name.unicode_len() > 0 {
            push_str(&mut s, name);
            push_str(&mut s, " - ");
        }
        let ghost head = s@;
        assert(head =~= "("@ + (if color_name(*self).len() > 0 {
            color_name(*self) + " - "@
        } else {
            Seq::<char>::empty()
        }));
        push_str(&mut s, "red:");
        push_number(&mut s, self.red);
        push_str(&mut s, ", green:");
        push_number(&mut s, self.green);
        push_str(&mut s, ", blue:");
        push_number(&mut s, self.blue);
        let ghost body = s@;
        if self.alpha != 255 {
            push_str(&mut s, ", alpha:");
            push_number(&mut s, self.alpha);
        }
        assert(s@ =~= body + (if self.alpha != 255 {
            ", alpha:"@ + decimal_chars(self.alpha as nat)
        } else {
            Seq::<char>::empty()
        }));
        push_str(&mut s, ")");
        assert(s@ =~= color_text(*self));
        s
    }

    /// The colour of a name of the palette. Case, underscores and the white
    /// space around the name count for nothing.
    pub fn from_name(name: &str) -> (res: Result<Color, &'static str>)
        ensures
            same_result(
                res,
                match named_color(name@) {
                    Some(c) => Ok(c),
                    None => Err("Couldn't parse color"@),
                },
            ),
    {
        let key = key_of(&to_chars(name));
        match find_named(&key) {
            Some(c) => Ok(c),
            None => Err("Couldn't parse color"),
        }
    }

    /// The colour that a text in one of the notations of HTML stands for: a
    /// name, `#RRGGBBAA`, `#RRGGBB`, `#RGBA`, `#RGB`, `rgb(r, g, b)`,
    /// `rgba(r, g, b, a)`, `hsl(h, s, l)` or `hsla(h, s, l, a)`.
    pub fn from_html(html: &str) -> (res: Result<Color, &'static str>)
        ensures
            same_result(res, html_color(html@)),
    {
        let t = trim(&to_chars(html));
        let key = key_of(&t);
        match find_named(&key) {
            Some(c) => {
                return Ok(c);
            },
            None => {},
        }
        if t.len() > 0 && t[0] == '#' {
            let digits = trim(&slice(&t, 1, t.len()));
            return read_hex_color(&digits);
        }
        match strip_prefix(&t, "rgba") {
            Some(rest) => {
                return call_outcome(
                    read_rgb(read_arguments(&rest), true),
                    "Invalid color format. The correct function structure is rgba(r, g, b, a). Spaces don't matter.",
                );
            },
            None => {},
        }
        match strip_prefix(&t, "rgb") {
            Some(rest) => {
                return call_outcome(
                    read_rgb(read_arguments(&rest), false),
                    "Invalid color format. The correct function structure is rgb(r, g, b). Spaces don't matter.",
                );
            },
            None => {},
        }
        match strip_prefix(&t, "hsla") {
            Some(rest) => {
                return call_outcome(
                    read_hsl(read_arguments(&rest), true),
                    "Invalid color format. The correct function structure is hsla(h, s, l, a). Spaces don't matter.",
                );
            },
            None => {},
        }
        match strip_prefix(&t, "hsl") {
            Some(rest) => {
                return call_outcome(
                    read_hsl(read_arguments(&rest), false),
                    "Invalid color format. The correct function structure is hsl(h, s, l). Spaces don't matter.",
                );
            },
            None => {},
        }
        Err("Invalid color name or format. Make sure to use supported HTML color names or formats.")
    }
}

/// A name is looked up by its key alone: two texts with the same key, such as
/// one in capitals with underscores and one in lower case without, stand for
/// the same colour or both for none.
pub proof fn lemma_name_lookup_by_key(a: Seq<char>, b: Seq<char>)
    requires
        name_key(a) == name_key(b),
    ensures
        named_color(a) == named_color(b),
{
}

} // verus!
