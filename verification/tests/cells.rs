use tui_renderer::color::Color;
use tui_renderer::color_area::{ColorArea, ColorLayer};
use tui_renderer::colors::Colors;
use tui_renderer::decimal::Decimal;
use tui_renderer::geometry::{Dimension, Dimensions};
use tui_renderer::pixel::{Pixel, Pixels};
use tui_renderer::renderer_object_border::{Border, Borders};
use tui_renderer::renderer_object_style::{AlignmentX, AlignmentY, RendererObjectStyle};

fn cell(value: char, background: Color, foreground: Color) -> Pixel {
    Pixel { value, background, foreground }
}

#[test]
fn the_named_cells() {
    assert_eq!(Pixel::new(), cell('\0', Colors::INVALID(), Colors::INVALID()));
    assert_eq!(Pixels::EMPTY(), Pixel::new());
    assert_eq!(Pixels::DEFAULT(), cell(' ', Colors::BLACK(), Colors::WHITE()));
}

#[test]
fn a_glyph_replaces_the_glyph_below() {
    let base = cell('a', Colors::BLACK(), Colors::WHITE());
    let half_red = Color::from_rgba(255, 0, 0, Decimal::from_micros(500_000));
    let over = cell('b', half_red, Colors::LIME());
    assert_eq!(
        base.with_overlay(&over),
        cell('b', Color::from_rgb(128, 0, 0), Colors::LIME())
    );
}

#[test]
fn a_block_below_shows_its_foreground() {
    let base = cell('\u{2588}', Colors::BLACK(), Colors::WHITE());
    let half_red = Color::from_rgba(255, 0, 0, Decimal::from_micros(500_000));
    let over = cell('b', half_red, Colors::TRANSPARENT());
    assert_eq!(
        base.with_overlay(&over),
        cell('b', Color::from_rgb(255, 127, 127), Colors::WHITE())
    );
    for glyph in "▀▄▅▆▇█▉▊▋▌▐▙▛▜▟▚▞▓▒".chars() {
        let below = cell(glyph, Colors::BLACK(), Colors::WHITE());
        assert_eq!(below.with_overlay(&over).foreground, Colors::WHITE(), "{}", glyph);
    }
    let plain = cell('\u{2581}', Colors::BLACK(), Colors::WHITE());
    assert_eq!(plain.with_overlay(&over).foreground, Colors::BLACK());
}

#[test]
fn a_space_tints_both_colors() {
    let base = cell('a', Colors::BLACK(), Colors::WHITE());
    let half_red = Color::from_rgba(255, 0, 0, Decimal::from_micros(500_000));
    let over = cell(' ', half_red, Colors::LIME());
    assert_eq!(
        base.with_overlay(&over),
        cell('a', Color::from_rgb(128, 0, 0), Color::from_rgb(255, 127, 127))
    );
}

#[test]
fn a_cell_without_a_glyph_changes_nothing() {
    let base = cell('a', Colors::BLACK(), Colors::WHITE());
    assert_eq!(base.with_overlay(&cell('\0', Colors::RED(), Colors::RED())), base);
    assert_eq!(base.with_overlay(&cell('\u{1}', Colors::RED(), Colors::RED())), base);
    assert_eq!(base.with_overlay(&Pixels::EMPTY()), base);
}

#[test]
fn the_named_borders() {
    let empty = Borders::EMPTY();
    for p in [
        empty.top_left, empty.top, empty.top_right, empty.right,
        empty.bottom_right, empty.bottom, empty.bottom_left, empty.left,
    ] {
        assert_eq!(p, Pixels::EMPTY());
    }
    let line = |c: char| cell(c, Colors::TRANSPARENT(), Colors::WHITE());
    let simple = Borders::SIMPLE();
    assert_eq!(simple.top_left, line('┌'));
    assert_eq!(simple.top, line('─'));
    assert_eq!(simple.top_right, line('┐'));
    assert_eq!(simple.right, line('│'));
    assert_eq!(simple.bottom_right, line('┘'));
    assert_eq!(simple.bottom, line('─'));
    assert_eq!(simple.bottom_left, line('└'));
    assert_eq!(simple.left, line('│'));
    let double = Borders::DOUBLE();
    assert_eq!(double.top_left, line('╔'));
    assert_eq!(double.top, line('═'));
    assert_eq!(double.top_right, line('╗'));
    assert_eq!(double.right, line('║'));
    assert_eq!(double.bottom_right, line('╝'));
    assert_eq!(double.bottom_left, line('╚'));
    let rounded = Borders::ROUNDED();
    assert_eq!(rounded.top_left, line('╭'));
    assert_eq!(rounded.top_right, line('╮'));
    assert_eq!(rounded.bottom_right, line('╯'));
    assert_eq!(rounded.bottom_left, line('╰'));
    assert_eq!(rounded.left, line('│'));
}

#[test]
fn borders_from_parts() {
    let b = Border::from_chars('1', '2', '3', '4', '5', '6', '7', '8');
    assert_eq!(b.top_left.value, '1');
    assert_eq!(b.top.value, '2');
    assert_eq!(b.top_right.value, '3');
    assert_eq!(b.right.value, '4');
    assert_eq!(b.bottom_right.value, '5');
    assert_eq!(b.bottom.value, '6');
    assert_eq!(b.bottom_left.value, '7');
    assert_eq!(b.left.value, '8');
    assert_eq!(b.left.background, Colors::TRANSPARENT());
    assert_eq!(b.left.foreground, Colors::WHITE());
    let p = |c: char| cell(c, Colors::RED(), Colors::BLUE());
    let q = Border::from_pixels(p('1'), p('2'), p('3'), p('4'), p('5'), p('6'), p('7'), p('8'));
    assert_eq!(q.top_left, p('1'));
    assert_eq!(q.bottom, p('6'));
    assert_eq!(q.left, p('8'));
}

#[test]
fn one_color_for_a_whole_border() {
    let mut b = Borders::SIMPLE();
    b.set_background_all(Colors::RED()).set_foreground_all(Colors::BLUE());
    for p in [
        b.top_left, b.top, b.top_right, b.right, b.bottom_right, b.bottom, b.bottom_left, b.left,
    ] {
        assert_eq!(p.background, Colors::RED());
        assert_eq!(p.foreground, Colors::BLUE());
    }
    assert_eq!(b.top_left.value, '┌');
    assert_eq!(b.right.value, '│');
}

#[test]
fn styles() {
    let mut style = RendererObjectStyle::new();
    assert_eq!(style.border, Borders::EMPTY());
    assert_eq!(style.internal_alignment_x, AlignmentX::Left);
    assert_eq!(style.internal_alignment_y, AlignmentY::Top);
    assert_eq!(style.external_alignment_x, None);
    assert_eq!(style.external_alignment_y, None);
    style
        .set_external_alignment(Some(AlignmentX::Center), Some(AlignmentY::Bottom))
        .set_internal_alignment(AlignmentX::Right, AlignmentY::Center)
        .set_border(Borders::DOUBLE());
    assert_eq!(style.external_alignment_x, Some(AlignmentX::Center));
    assert_eq!(style.external_alignment_y, Some(AlignmentY::Bottom));
    assert_eq!(style.internal_alignment_x, AlignmentX::Right);
    assert_eq!(style.internal_alignment_y, AlignmentY::Center);
    assert_eq!(style.border, Borders::DOUBLE());
}

#[test]
fn color_areas() {
    let mut area = ColorArea::new(Colors::RED(), ColorLayer::Foreground);
    assert_eq!(area.color, Colors::RED());
    assert_eq!(area.layer, ColorLayer::Foreground);
    assert_eq!(
        (area.x, area.y, area.width, area.height),
        (Dimension::Auto, Dimension::Auto, Dimension::Auto, Dimension::Auto)
    );
    assert_eq!(area.external_alignment_x, None);
    assert_eq!(area.renderer_object_index, 0);
    let copy = *area
        .set_geometry(Dimensions::pixel(1, 2, 3, 4))
        .set_alignment(Some(AlignmentX::Right), None);
    assert_eq!(copy.x, Dimension::Pixel(1));
    assert_eq!(copy.y, Dimension::Pixel(2));
    assert_eq!(copy.width, Dimension::Pixel(3));
    assert_eq!(copy.height, Dimension::Pixel(4));
    assert_eq!(copy.external_alignment_x, Some(AlignmentX::Right));
    assert_eq!(copy.external_alignment_y, None);
    assert_eq!(copy.color, Colors::RED());
}
