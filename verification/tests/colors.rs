use tui_renderer::color::Color;
use tui_renderer::colors::{palette_entry, Colors, PALETTE_LEN};
use tui_renderer::decimal::Decimal;

fn dec(value: f64) -> Decimal {
    Decimal::from_micros((value * 1_000_000.0).round() as i64)
}

#[test]
fn string_colors() {
    assert_eq!(
        Color::from_rgb(95, 158, 160),
        Color::from_name(" caDeT_Blue ").unwrap()
    );
}

#[test]
fn html_colors() {
    assert_eq!(
        Color::from_rgb(95, 158, 160),
        Color::from_html(" caDeT_Blue ").unwrap()
    );
    assert_eq!(
        Color::from_rgba(95, 158, 160, dec(254.0 / 255.0)),
        Color::from_html(" # 5f9Ea0fe ").unwrap()
    );
    assert_eq!(
        Color::from_rgb(95, 158, 160),
        Color::from_html(" # 5f9Ea0 ").unwrap()
    );
    assert_eq!(
        Color::from_rgba(0x66, 0x88, 0xaa, dec(204.0 / 255.0)),
        Color::from_html(" # 68ac ").unwrap()
    );
    assert_eq!(
        Color::from_rgb(0x66, 0x88, 0xaa),
        Color::from_html(" # 68a ").unwrap()
    );
    assert_eq!(
        Color::from_rgba(95, 158, 160, dec(0.997)),
        Color::from_html(" rgba ( 95 , 158 , 160 , 0.997 ) ").unwrap()
    );
    assert_eq!(
        Color::from_rgba(95, 158, 160, dec(0.997)),
        Color::from_html(" rgba ( 95 , 158 , 160 , 99.7 % ) ").unwrap()
    );
    assert_eq!(
        Color::from_rgb(95, 158, 160),
        Color::from_html(" rgb ( 95 , 158 , 160 ) ").unwrap()
    );
    assert_eq!(
        Color::from_hsla(dec(120.0), dec(0.6), dec(0.6), dec(0.997)),
        Color::from_html(" hsla ( 120.0 , 0.6 , 0.6, 0.997 ) ").unwrap()
    );
    assert_eq!(
        Color::from_hsl(dec(120.0), dec(0.6), dec(0.6)),
        Color::from_html(" hsl (120.0 , 0.6 , 0.6 ) ").unwrap()
    );
}

#[test]
fn color_setters() {
    assert_eq!(
        Color::from_rgba(156, 78, 231, dec(0.997)),
        Color::from_rgba(0, 78, 231, dec(0.997)).with_red(156),
    );
    assert_eq!(
        Color::from_rgba(156, 78, 231, dec(0.997)),
        Color::from_rgba(156, 0, 231, dec(0.997)).with_green(78),
    );
    assert_eq!(
        Color::from_rgba(156, 78, 231, dec(0.997)),
        Color::from_rgba(156, 78, 0, dec(0.997)).with_blue(231),
    );
    assert_eq!(
        Color::from_rgba(156, 78, 231, dec(0.997)),
        Color::from_rgba(156, 78, 231, dec(0.0)).with_alpha(dec(0.997)),
    );
    assert_eq!(
        Color::from_hsla(dec(120.0), dec(0.6), dec(0.6), dec(0.997)),
        Color::from_hsla(dec(0.0), dec(0.6), dec(0.6), dec(0.997)).with_hue(dec(120.0)),
    );
    assert_eq!(
        Color::from_hsla(dec(120.0), dec(0.5), dec(0.5), dec(0.997)),
        Color::from_hsla(dec(120.0), dec(0.25), dec(0.5), dec(0.997)).with_saturation(dec(0.5)),
    );
    assert_eq!(
        Color::from_hsla(dec(120.0), dec(0.5), dec(0.5), dec(0.997)),
        Color::from_hsla(dec(120.0), dec(0.5), dec(0.25), dec(0.997)).with_luminosity(dec(0.5)),
    );
}

#[test]
fn color_overlay() {
    assert_eq!(
        Color::from_rgba(127, 127, 0, dec(0.75)),
        Color::from_rgba(254, 0, 0, dec(0.5)).with_overlay(Color::from_rgba(0, 254, 0, dec(0.5))),
    );
}

#[test]
fn color_inverted() {
    assert_eq!(Colors::MAGENTA(), Colors::LIME().inverted());
}

#[test]
fn alpha_of_one_is_opaque() {
    for (r, g, b) in [(0u8, 0u8, 0u8), (1, 2, 3), (255, 255, 255), (95, 158, 160)] {
        assert_eq!(Color::from_rgba(r, g, b, Decimal::one()), Color::from_rgb(r, g, b));
    }
    assert_eq!(Color::from_rgba(1, 2, 3, Decimal::one()).alpha, 255);
}

#[test]
fn alpha_is_rounded_and_clamped() {
    assert_eq!(Color::from_rgba(0, 0, 0, dec(0.5)).alpha, 128);
    assert_eq!(Color::from_rgba(0, 0, 0, dec(0.997)).alpha, 254);
    assert_eq!(Color::from_rgba(0, 0, 0, dec(0.0)).alpha, 0);
    assert_eq!(Color::from_rgba(0, 0, 0, dec(-3.0)).alpha, 0);
    assert_eq!(Color::from_rgba(0, 0, 0, dec(7.5)).alpha, 255);
    assert_eq!(Color::from_rgba(0, 0, 0, Decimal::from_micros(1961)).alpha, 1);
    assert_eq!(Color::from_rgba(0, 0, 0, Decimal::from_micros(1960)).alpha, 0);
}

#[test]
fn every_palette_name_round_trips() {
    for i in 0..PALETTE_LEN {
        let (name, color) = palette_entry(i);
        assert_eq!(Color::from_name(name), Ok(color), "{}", name);
        assert_eq!(Color::from_name(&name.to_lowercase()), Ok(color), "{}", name);
        assert_eq!(Color::from_name(&name.replace('_', "")), Ok(color), "{}", name);
        assert_eq!(
            Color::from_name(&format!("  {}_ ", name.to_lowercase())),
            Ok(color),
            "{}",
            name
        );
        assert_eq!(Color::from_name(color.get_name()), Ok(color), "{}", name);
    }
}

#[test]
fn names_of_colors() {
    assert_eq!(Colors::INVALID().get_name(), "INVALID");
    assert_eq!(Colors::TRANSPARENT().get_name(), "TRANSPARENT");
    assert_eq!(Color::from_rgba(9, 9, 9, Decimal::zero()).get_name(), "TRANSPARENT");
    assert_eq!(Colors::CADET_BLUE().get_name(), "CADET_BLUE");
    assert_eq!(Colors::CADET_BLUE().with_alpha(dec(0.5)).get_name(), "CADET_BLUE");
    assert_eq!(Colors::CYAN().get_name(), "AQUA");
    assert_eq!(Colors::MAGENTA().get_name(), "FUCHSIA");
    assert_eq!(Colors::GREY().get_name(), "GRAY");
    assert_eq!(Color::from_rgb(1, 2, 3).get_name(), "");
}

#[test]
fn names_with_underscores_in_any_place() {
    assert_eq!(Color::from_name("cornflower_blue"), Ok(Colors::CORNFLOWER_BLUE()));
    assert_eq!(Color::from_name("DARK_OLIVE_GREEN"), Ok(Colors::DARK_OLIVE_GREEN()));
    assert_eq!(Color::from_name("light golden rod"), Err("Couldn't parse color"));
    assert_eq!(Color::from_name("transparent"), Ok(Colors::TRANSPARENT()));
    assert_eq!(Color::from_name("invalid"), Err("Couldn't parse color"));
    assert_eq!(Color::from_name(""), Err("Couldn't parse color"));
}

#[test]
fn inverting_twice_gives_the_color_back() {
    for c in [
        Colors::INVALID(),
        Colors::TRANSPARENT(),
        Colors::CADET_BLUE(),
        Color::from_rgba(1, 2, 3, dec(0.3)),
    ] {
        assert_eq!(c.inverted().inverted(), c);
    }
    assert_eq!(
        Color::from_rgba(10, 20, 30, dec(0.5)).inverted(),
        Color::from_rgba(245, 235, 225, dec(0.5))
    );
}

#[test]
fn the_invalid_color_is_neutral_in_an_overlay() {
    let odd = Colors::INVALID().inverted();
    let ghost_green = Color { red: 0, green: 255, blue: 0, alpha: 128, valid: false };
    for c in [Colors::INVALID(), Colors::TRANSPARENT(), Colors::RED(), odd, ghost_green] {
        assert_eq!(Colors::INVALID().with_overlay(c), c);
        assert_eq!(c.with_overlay(Colors::INVALID()), c);
    }
    assert_eq!(odd.with_overlay(Colors::INVALID()), odd);
}

#[test]
fn a_color_that_is_not_valid_does_not_blend() {
    let ghost_green = Color { red: 0, green: 255, blue: 0, alpha: 128, valid: false };
    let white_ghost = Colors::INVALID().inverted();
    assert_eq!(
        white_ghost,
        Color { red: 255, green: 255, blue: 255, alpha: 0, valid: false }
    );
    for c in [Colors::RED(), Colors::TRANSPARENT(), Color::from_rgba(1, 2, 3, dec(0.5))] {
        assert_eq!(c.with_overlay(ghost_green), c);
        assert_eq!(ghost_green.with_overlay(c), c);
        assert_eq!(c.with_overlay(white_ghost), c);
        assert_eq!(white_ghost.with_overlay(c), c);
    }
    assert_eq!(ghost_green.with_overlay(white_ghost), white_ghost);
    assert_eq!(white_ghost.with_overlay(ghost_green), ghost_green);
    // Two valid colours blend, and the blend is valid.
    assert_eq!(
        Colors::RED().with_overlay(Color { valid: true, ..ghost_green }),
        Color::from_rgb(127, 128, 0)
    );
}

#[test]
fn yellow_and_yellow_green() {
    assert_eq!(Colors::YELLOW(), Color::from_rgb(255, 255, 0));
    assert_eq!(Colors::YELLOW_GREEN(), Color::from_rgb(154, 205, 50));
    assert_eq!(Color::from_name("yellow"), Ok(Color::from_rgb(255, 255, 0)));
    assert_eq!(Color::from_name("yellowgreen"), Ok(Color::from_rgb(154, 205, 50)));
    assert_eq!(Color::from_name("Yellow_Green"), Ok(Color::from_rgb(154, 205, 50)));
    assert_eq!(Color::from_html("#ffff00"), Ok(Colors::YELLOW()));
    assert_eq!(Color::from_html("#9acd32"), Ok(Colors::YELLOW_GREEN()));
    assert_eq!(Color::from_rgb(255, 255, 0).get_name(), "YELLOW");
    assert_eq!(Color::from_rgb(154, 205, 50).get_name(), "YELLOW_GREEN");
    assert_eq!(Colors::YELLOW().inverted(), Colors::BLUE());
}

#[test]
fn the_palette_is_that_of_css() {
    let table: [(&str, u32); 20] = [
        ("aliceblue", 0xf0f8ff), ("black", 0x000000), ("blue", 0x0000ff),
        ("cadetblue", 0x5f9ea0), ("cornflowerblue", 0x6495ed), ("darkolivegreen", 0x556b2f),
        ("fuchsia", 0xff00ff), ("gold", 0xffd700), ("goldenrod", 0xdaa520),
        ("green", 0x008000), ("greenyellow", 0xadff2f), ("lightgoldenrodyellow", 0xfafad2),
        ("lightyellow", 0xffffe0), ("lime", 0x00ff00), ("rebeccapurple", 0x663399),
        ("red", 0xff0000), ("tan", 0xd2b48c), ("white", 0xffffff),
        ("yellow", 0xffff00), ("yellowgreen", 0x9acd32),
    ];
    for (name, rgb) in table {
        assert_eq!(Color::from_name(name), Ok(Color::from_u32(rgb * 0x100 + 0xff)), "{}", name);
    }
}

#[test]
fn overlay_of_half_red_on_black() {
    let c = Colors::BLACK().with_overlay(Color::from_rgba(255, 0, 0, dec(0.5)));
    assert_eq!(c, Color::from_rgb(128, 0, 0));
    assert_eq!(
        Colors::TRANSPARENT().with_overlay(Colors::WHITE()),
        Colors::WHITE()
    );
    assert_eq!(
        Colors::WHITE().with_overlay(Colors::TRANSPARENT()),
        Colors::WHITE()
    );
}

#[test]
fn packed_colors() {
    assert_eq!(
        Color::from_u32(0x5f9ea0fe),
        Color { red: 95, green: 158, blue: 160, alpha: 254, valid: true }
    );
    assert_eq!(
        Color::from_u16(0x68ac),
        Color { red: 0x66, green: 0x88, blue: 0xaa, alpha: 0xcc, valid: true }
    );
    assert_eq!(Color::from_u32(0), Colors::TRANSPARENT());
    assert_eq!(Color::from_u32(0xffffffff), Colors::WHITE());
    assert_eq!(Color::from_u16(0xffff), Colors::WHITE());
}

#[test]
fn hsl_to_rgb() {
    assert_eq!(Color::from_hsl(dec(0.0), dec(1.0), dec(0.5)), Color::from_rgb(255, 0, 0));
    assert_eq!(Color::from_hsl(dec(120.0), dec(1.0), dec(0.5)), Color::from_rgb(0, 255, 0));
    assert_eq!(Color::from_hsl(dec(240.0), dec(1.0), dec(0.5)), Color::from_rgb(0, 0, 255));
    assert_eq!(Color::from_hsl(dec(60.0), dec(1.0), dec(0.5)), Color::from_rgb(255, 255, 0));
    assert_eq!(Color::from_hsl(dec(120.0), dec(0.6), dec(0.6)), Color::from_rgb(92, 214, 92));
    assert_eq!(Color::from_hsl(dec(480.0), dec(0.6), dec(0.6)), Color::from_rgb(92, 214, 92));
    assert_eq!(Color::from_hsl(dec(-240.0), dec(0.6), dec(0.6)), Color::from_rgb(92, 214, 92));
    assert_eq!(Color::from_hsl(dec(77.0), dec(0.0), dec(0.5)), Color::from_rgb(128, 128, 128));
    assert_eq!(Color::from_hsl(dec(0.0), dec(5.0), dec(0.5)), Color::from_rgb(255, 0, 0));
    assert_eq!(Color::from_hsl(dec(0.0), dec(1.0), dec(9.0)), Color::from_rgb(255, 255, 255));
    assert_eq!(Color::from_hsl(dec(0.0), dec(1.0), dec(-9.0)), Color::from_rgb(0, 0, 0));
}

#[test]
fn rgb_to_hsl() {
    assert_eq!(Colors::RED().hue(), dec(0.0));
    assert_eq!(Colors::LIME().hue(), dec(120.0));
    assert_eq!(Colors::BLUE().hue(), dec(240.0));
    assert_eq!(Colors::MAGENTA().hue(), dec(300.0));
    assert_eq!(Colors::GRAY().hue(), dec(0.0));
    assert_eq!(Colors::GRAY().saturation(), dec(0.0));
    assert_eq!(Colors::RED().saturation(), dec(1.0));
    assert_eq!(Colors::RED().luminosity(), dec(0.5));
    assert_eq!(Colors::WHITE().luminosity(), dec(1.0));
    assert_eq!(Colors::BLACK().luminosity(), dec(0.0));
    assert_eq!(Color::from_rgb(214, 92, 92).saturation(), Decimal::from_micros(598_039));
    assert_eq!(Color::from_rgb(214, 92, 92).luminosity(), dec(0.6));
}

#[test]
fn complaints_of_the_color_parser() {
    assert_eq!(Color::from_html("#12345678x"), Err("Invalid color format. Supported hexadecimal formats are #RRGGBBAA, #RRGGBB, #RGBA and #RGB."));
    assert_eq!(Color::from_html("#1234567g"), Err("Couldn't parse #RRGGBBAA format"));
    assert_eq!(Color::from_html("#12345g"), Err("Couldn't parse #RRGGBB format"));
    assert_eq!(Color::from_html("#123g"), Err("Couldn't parse #RGBA format"));
    assert_eq!(Color::from_html("#12g"), Err("Couldn't parse #RGB format"));
    assert_eq!(Color::from_html("#+12345"), Err("Couldn't parse #RRGGBB format"));
    let rgba = "Invalid color format. The correct function structure is rgba(r, g, b, a). Spaces don't matter.";
    assert_eq!(Color::from_html("rgba 1,2,3,4"), Err(rgba));
    assert_eq!(Color::from_html("rgba(1,2,3)"), Err(rgba));
    assert_eq!(Color::from_html("rgba(1,2,3,x)"), Err(rgba));
    assert_eq!(Color::from_html("rgba(256,2,3,1)"), Err(rgba));
    assert_eq!(Color::from_html("rgba(-0,2,3,1)"), Err(rgba));
    let rgb = "Invalid color format. The correct function structure is rgb(r, g, b). Spaces don't matter.";
    assert_eq!(Color::from_html("rgb(1,2)"), Err(rgb));
    assert_eq!(Color::from_html("rgb(1,2,3"), Err(rgb));
    assert_eq!(Color::from_html("rgb(1,2,3.5)"), Err(rgb));
    let hsla = "Invalid color format. The correct function structure is hsla(h, s, l, a). Spaces don't matter.";
    assert_eq!(Color::from_html("hsla(1,2,3)"), Err(hsla));
    assert_eq!(Color::from_html("hsla(a,2,3,4)"), Err(hsla));
    let hsl = "Invalid color format. The correct function structure is hsl(h, s, l). Spaces don't matter.";
    assert_eq!(Color::from_html("hsl(1,2,3,4)"), Err(hsl));
    assert_eq!(Color::from_html("hsl()"), Err(hsl));
    assert_eq!(
        Color::from_html("nothing"),
        Err("Invalid color name or format. Make sure to use supported HTML color names or formats.")
    );
    assert_eq!(
        Color::from_html(""),
        Err("Invalid color name or format. Make sure to use supported HTML color names or formats.")
    );
}

#[test]
fn more_notations_of_colors() {
    assert_eq!(Color::from_html("rgb(+1,2,3)"), Ok(Color::from_rgb(1, 2, 3)));
    assert_eq!(Color::from_html("rgba(1,2,3,50%)"), Ok(Color::from_rgba(1, 2, 3, dec(0.5))));
    assert_eq!(Color::from_html("hsl(-240, 60%, 60%)"), Ok(Color::from_rgb(92, 214, 92)));
    assert_eq!(Color::from_html("#FFF"), Ok(Colors::WHITE()));
    assert_eq!(Color::from_html("RED"), Ok(Colors::RED()));
}

#[test]
fn colors_as_text() {
    assert_eq!(Colors::RED().to_string(), "(RED - red:255, green:0, blue:0)");
    assert_eq!(
        Color { red: 1, green: 20, blue: 3, alpha: 4, valid: true }.to_string(),
        "(red:1, green:20, blue:3, alpha:4)"
    );
    assert_eq!(Color::from_rgb(1, 2, 3).to_string(), "(red:1, green:2, blue:3)");
    assert_eq!(
        Colors::CADET_BLUE().with_alpha(dec(0.5)).to_string(),
        "(CADET_BLUE - red:95, green:158, blue:160, alpha:128)"
    );
    assert_eq!(
        Colors::INVALID().to_string(),
        "(INVALID - red:0, green:0, blue:0, alpha:0)"
    );
    assert_eq!(
        Colors::TRANSPARENT().to_string(),
        "(TRANSPARENT - red:0, green:0, blue:0, alpha:0)"
    );
}
