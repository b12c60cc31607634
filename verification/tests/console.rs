use tui_renderer::color::Color;
use tui_renderer::colors::Colors;
use tui_renderer::misc::BufferedConsole;
use tui_renderer::pixel::{Pixel, Pixels};

#[test]
fn a_cell_is_written_with_its_colors() {
    let mut console = BufferedConsole::new();
    assert!(console.buffer.is_empty());
    assert_eq!(console.last_pixel, Pixels::EMPTY());
    let p = Pixel {
        value: 'x',
        background: Color::from_rgb(1, 20, 255),
        foreground: Color::from_rgb(0, 9, 100),
    };
    console.print(p);
    assert_eq!(
        console.buffer,
        b"\x1b[48;2;1;20;255m\x1b[38;2;0;9;100mx".to_vec()
    );
    assert_eq!(console.last_pixel, p);
}

#[test]
fn colors_that_stay_are_not_written_again() {
    let mut console = BufferedConsole::new();
    let p = Pixel { value: 'x', background: Colors::BLACK(), foreground: Colors::WHITE() };
    console.print(p);
    console.clear();
    assert!(console.buffer.is_empty());
    assert_eq!(console.last_pixel, Pixels::EMPTY());
    console.print(p);
    let first = console.buffer.len();
    console.print(Pixel { value: 'y', ..p });
    assert_eq!(&console.buffer[first..], b"y");
    let second = console.buffer.len();
    console.print(Pixel { value: 'z', foreground: Colors::RED(), ..p });
    assert_eq!(&console.buffer[second..], b"\x1b[38;2;255;0;0mz");
    let third = console.buffer.len();
    console.print(Pixel { value: 'w', background: Colors::BLUE(), foreground: Colors::RED() });
    assert_eq!(&console.buffer[third..], b"\x1b[48;2;0;0;255mw");
}

#[test]
fn a_cell_without_a_glyph_is_written_as_the_default_cell() {
    let mut console = BufferedConsole::new();
    console.print(Pixel { value: '\0', background: Colors::RED(), foreground: Colors::RED() });
    assert_eq!(
        console.buffer,
        b"\x1b[48;2;0;0;0m\x1b[38;2;255;255;255m ".to_vec()
    );
    assert_eq!(console.last_pixel, Pixels::DEFAULT());
    console.clear();
    console.print(Pixels::EMPTY());
    assert_eq!(
        console.buffer,
        b"\x1b[48;2;0;0;0m\x1b[38;2;255;255;255m ".to_vec()
    );
}

#[test]
fn cells_that_cannot_be_written_are_skipped() {
    let mut console = BufferedConsole::new();
    console.print(Pixel { value: '\n', background: Colors::BLACK(), foreground: Colors::WHITE() });
    console.print(Pixel { value: 'a', background: Colors::INVALID(), foreground: Colors::WHITE() });
    console.print(Pixel { value: 'a', background: Colors::BLACK(), foreground: Colors::INVALID() });
    assert!(console.buffer.is_empty());
    assert_eq!(console.last_pixel, Pixels::EMPTY());
}

#[test]
fn glyphs_are_written_in_utf8() {
    for glyph in ['a', '\u{7f}', '\u{80}', 'é', '\u{7ff}', '\u{800}', '─', '\u{ffff}', '\u{10000}', '🦀', '\u{10ffff}'] {
        let mut console = BufferedConsole::new();
        console.print(Pixel { value: glyph, background: Colors::BLACK(), foreground: Colors::WHITE() });
        let mut expected = b"\x1b[48;2;0;0;0m\x1b[38;2;255;255;255m".to_vec();
        expected.extend_from_slice(glyph.to_string().as_bytes());
        assert_eq!(console.buffer, expected, "{:?}", glyph);
    }
}

#[test]
fn the_cursor_is_placed_from_one() {
    let mut console = BufferedConsole::new();
    console.set_cursor_position(0, 0);
    assert_eq!(console.buffer, b"\x1b[1;1H".to_vec());
    console.clear();
    console.set_cursor_position(79, 23);
    assert_eq!(console.buffer, b"\x1b[24;80H".to_vec());
    console.clear();
    console.set_cursor_position(-3, 9);
    assert_eq!(console.buffer, b"\x1b[10;-2H".to_vec());
    console.clear();
    console.set_cursor_position(i64::MAX, i64::MIN);
    assert_eq!(
        console.buffer,
        b"\x1b[-9223372036854775807;9223372036854775808H".to_vec()
    );
}

#[test]
fn a_flush_ends_with_the_reset() {
    let mut console = BufferedConsole::new();
    console.set_cursor_position(1, 2);
    console.print(Pixel { value: 'x', background: Colors::BLACK(), foreground: Colors::WHITE() });
    let frame = console.flush();
    assert_eq!(
        frame,
        b"\x1b[3;2H\x1b[48;2;0;0;0m\x1b[38;2;255;255;255mx\x1b[39m\x1b[49m".to_vec()
    );
    assert!(console.buffer.is_empty());
    assert_eq!(console.last_pixel, Pixels::EMPTY());
    assert_eq!(console.flush(), b"\x1b[39m\x1b[49m".to_vec());
}

#[test]
fn a_cell_by_itself() {
    let p = Pixel {
        value: '─',
        background: Color::from_rgb(1, 20, 255),
        foreground: Color::from_rgb(0, 9, 100),
    };
    assert_eq!(
        String::from_utf8(p.to_bytes()).unwrap(),
        "\x1b[48;2;1;20;255m\x1b[38;2;0;9;100m─\x1b[39m\x1b[49m"
    );
}
