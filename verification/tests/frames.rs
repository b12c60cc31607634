use tui_renderer::colors::Colors;
use tui_renderer::geometry::{Dimension, Dimensions};
use tui_renderer::decimal::Decimal;
use tui_renderer::pixel::{Pixel, Pixels};
use tui_renderer::renderer::{Renderer, DEFAULT_PADDING};
use tui_renderer::renderer_object::RendererObject;
use tui_renderer::renderer_object_style::{AlignmentX, AlignmentY, RendererObjectStyle};

fn scene() -> RendererObject {
    let mut root = RendererObject::new();
    root.set_width(Dimension::VW(Decimal::from_int(100)));
    root.set_height(Dimension::VH(Decimal::from_int(100)));
    root.set_default_background_color(Colors::BLACK());
    root.set_default_character('.');
    let mut child = RendererObject::new();
    child.set_text("hi");
    child.set_geometry((Dimension::Pixel(1), Dimension::Pixel(1), Dimension::Auto, Dimension::Auto));
    root.add_child(child);
    root
}

#[test]
fn a_new_renderer() {
    let renderer = Renderer::new();
    assert!(renderer.previous_buffer.is_empty());
    assert_eq!((renderer.width, renderer.height), (0, 0));
    assert_eq!(renderer.padding, DEFAULT_PADDING);
    assert_eq!(renderer.padding, 5);
    assert!(renderer.get_object().is_none());
    assert!(!renderer.drawing);
    assert!(!renderer.disable_output);
    assert_eq!(renderer.hide_cursor(), b"\x1b[?25l".to_vec());
    assert_eq!(renderer.show_cursor(), b"\x1b[?25h".to_vec());
}

#[test]
fn the_padding_is_kept_in_range() {
    let mut renderer = Renderer::new();
    renderer.set_padding(3);
    assert_eq!(renderer.padding, 3);
    renderer.set_padding(-3);
    assert_eq!(renderer.padding, 0);
    renderer.set_padding(i64::MAX);
    assert_eq!(renderer.padding, 0xffff);
}

#[test]
fn without_a_scene_nothing_is_drawn() {
    let mut renderer = Renderer::new();
    let frame = renderer.draw_frame(Some((80, 24)), true);
    assert!(frame.bytes.is_empty());
    assert_eq!(frame.updates, 0);
    assert_eq!((renderer.width, renderer.height), (0, 0));
}

#[test]
fn a_frame_in_progress_is_not_drawn_over() {
    let mut renderer = Renderer::new();
    renderer.set_object(Some(scene()));
    renderer.drawing = true;
    let frame = renderer.draw_frame(Some((80, 24)), true);
    assert!(frame.bytes.is_empty());
    assert_eq!(frame.updates, 0);
    assert!(renderer.drawing);
    assert!(renderer.get_object().is_some());
}

#[test]
fn the_first_frame_writes_every_cell() {
    let mut renderer = Renderer::new();
    renderer.set_object(Some(scene()));
    let frame = renderer.draw_frame(Some((4, 3)), false);
    assert_eq!(frame.updates, 12);
    let text = String::from_utf8(frame.bytes).unwrap();
    assert_eq!(
        text,
        "\x1b[1;1H\x1b[48;2;0;0;0m\x1b[38;2;255;255;255m....\
         \x1b[2;1H.hi.\
         \x1b[3;1H....\
         \x1b[4;5H\x1b[39m\x1b[49m"
    );
    assert_eq!((renderer.width, renderer.height), (4, 3));
    assert_eq!(renderer.previous_buffer.len(), 3);
    assert_eq!(
        renderer.previous_buffer[1].iter().map(|p| p.value).collect::<String>(),
        ".hi."
    );
    assert!(!renderer.drawing);
    assert!(renderer.console.buffer.is_empty());
}

#[test]
fn a_second_frame_writes_no_cell() {
    for padding in [0, 1, 5] {
        let mut renderer = Renderer::new();
        renderer.set_padding(padding);
        renderer.set_object(Some(scene()));
        let first = renderer.draw_frame(Some((80, 24)), false);
        assert_eq!(first.updates, 80 * 24);
        let second = renderer.draw_frame(Some((80, 24)), false);
        assert_eq!(second.updates, 0);
        assert_eq!(second.bytes, b"\x1b[25;81H\x1b[39m\x1b[49m".to_vec());
        let third = renderer.draw_frame(Some((80, 24)), false);
        assert_eq!(third.updates, 0);
        assert_eq!(third.bytes, b"\x1b[25;81H\x1b[39m\x1b[49m".to_vec());
    }
}

#[test]
fn a_forced_frame_writes_every_cell() {
    let mut renderer = Renderer::new();
    renderer.set_object(Some(scene()));
    renderer.draw_frame(Some((80, 24)), false);
    let forced = renderer.draw_frame(Some((80, 24)), true);
    assert_eq!(forced.updates, 80 * 24);
    let again = renderer.draw_frame(Some((7, 3)), true);
    assert_eq!(again.updates, 21);

    let mut small = RendererObject::new();
    small.set_geometry(Dimensions::pixel(-2, 20, 10, 10));
    small.set_default_character('#');
    renderer.set_object(Some(small));
    let clipped = renderer.draw_frame(Some((80, 24)), true);
    assert_eq!(clipped.updates, 8 * 4);
}

#[test]
fn only_what_has_changed_is_written() {
    let mut renderer = Renderer::new();
    renderer.set_object(Some(scene()));
    renderer.draw_frame(Some((6, 3)), false);
    renderer.object.as_mut().unwrap().children[0].set_text("ho!");
    let frame = renderer.draw_frame(Some((6, 3)), false);
    assert_eq!(frame.updates, 2);
    assert_eq!(
        String::from_utf8(frame.bytes).unwrap(),
        "\x1b[2;3H\x1b[48;2;0;0;0m\x1b[38;2;255;255;255mo!\x1b[4;7H\x1b[39m\x1b[49m"
    );
    renderer.object.as_mut().unwrap().children[0].set_x(Dimension::Pixel(2));
    let moved = renderer.draw_frame(Some((6, 3)), false);
    assert_eq!(moved.updates, 4);
    assert_eq!(
        renderer.previous_buffer[1].iter().map(|p| p.value).collect::<String>(),
        "..ho!."
    );
}

#[test]
fn another_size_of_the_terminal_starts_afresh() {
    let mut renderer = Renderer::new();
    renderer.set_object(Some(scene()));
    renderer.draw_frame(Some((6, 3)), false);
    let wider = renderer.draw_frame(Some((7, 3)), false);
    assert_eq!(wider.updates, 21);
    assert_eq!(renderer.object.as_ref().unwrap().calculated_width, 7);
    let none = renderer.draw_frame(None, false);
    assert_eq!(none.updates, 0);
    assert_eq!(none.bytes, b"\x1b[1;1H\x1b[39m\x1b[49m".to_vec());
    assert_eq!((renderer.width, renderer.height), (0, 0));
    assert!(renderer.previous_buffer.is_empty());
}

#[test]
fn output_can_be_disabled() {
    let mut renderer = Renderer::new();
    renderer.disable_output = true;
    renderer.set_object(Some(scene()));
    let frame = renderer.draw_frame(Some((6, 3)), false);
    assert!(frame.bytes.is_empty());
    assert_eq!(frame.updates, 18);
    assert!(renderer.console.buffer.is_empty());
    assert_eq!(renderer.draw_frame(Some((6, 3)), false).updates, 0);
}

#[test]
fn the_root_is_aligned_on_the_screen() {
    let mut root = RendererObject::new();
    root.set_geometry(Dimensions::pixel(0, 0, 2, 1));
    root.set_text("ab");
    root.set_default_background_color(Colors::BLACK());
    let mut style = RendererObjectStyle::new();
    style.set_external_alignment(Some(AlignmentX::Right), Some(AlignmentY::Center));
    root.set_style(style);
    let mut renderer = Renderer::new();
    renderer.set_object(Some(root));
    let frame = renderer.draw_frame(Some((6, 3)), false);
    assert_eq!(frame.updates, 2);
    assert_eq!(
        String::from_utf8(frame.bytes).unwrap(),
        "\x1b[2;5H\x1b[48;2;0;0;0m\x1b[38;2;255;255;255mab\x1b[3;7H\x1b[39m\x1b[49m"
    );
    assert_eq!(renderer.previous_buffer[1][4].value, 'a');
    assert_eq!(renderer.previous_buffer[0][0], Pixels::EMPTY());
}

#[test]
fn cells_that_cannot_be_written_are_counted_but_not_written() {
    let mut root = RendererObject::new();
    root.set_geometry(Dimensions::pixel(0, 0, 3, 1));
    root.set_text("a\u{7}c");
    root.set_default_background_color(Colors::BLACK());
    let mut renderer = Renderer::new();
    renderer.set_object(Some(root));
    let frame = renderer.draw_frame(Some((3, 1)), false);
    assert_eq!(frame.updates, 3);
    assert_eq!(
        String::from_utf8(frame.bytes).unwrap(),
        "\x1b[1;1H\x1b[48;2;0;0;0m\x1b[38;2;255;255;255ma\x1b[1;3Hc\x1b[2;4H\x1b[39m\x1b[49m"
    );
    assert_eq!(
        renderer.previous_buffer[0][1],
        Pixel { value: '\u{7}', background: Colors::BLACK(), foreground: Colors::WHITE() }
    );
}

#[test]
fn the_terminal_is_asked_for_its_size() {
    let mut renderer = Renderer::new();
    renderer.disable_output = true;
    renderer.set_object(Some(scene()));
    let frame = renderer.draw(true);
    let cells = renderer.width as u64 * renderer.height as u64;
    assert_eq!(frame.updates, cells);
    assert!(frame.bytes.is_empty());
    assert_eq!(renderer.previous_buffer.len(), renderer.height as usize);
}

#[test]
fn a_narrower_terminal_reaches_the_children() {
    let mut root = RendererObject::new();
    root.set_geometry(Dimensions::pixel(0, 0, 8, 1));
    root.set_default_character('.');
    root.set_default_background_color(Colors::BLACK());
    let mut bar = RendererObject::new();
    bar.set_width(Dimension::VW(Decimal::from_int(50)));
    bar.set_height(Dimension::Pixel(1));
    bar.set_default_character('#');
    root.add_child(bar);
    let mut renderer = Renderer::new();
    renderer.set_object(Some(root));
    renderer.draw_frame(Some((8, 1)), false);
    assert_eq!(
        renderer.previous_buffer[0].iter().map(|p| p.value).collect::<String>(),
        "####...."
    );
    let frame = renderer.draw_frame(Some((4, 1)), false);
    assert_eq!(renderer.object.as_ref().unwrap().children[0].calculated_width, 2);
    assert_eq!(frame.updates, 4);
    assert_eq!(
        renderer.previous_buffer[0].iter().map(|p| p.value).collect::<String>(),
        "##.."
    );
    assert_eq!(renderer.draw_frame(Some((4, 1)), false).updates, 0);
}

#[test]
fn a_child_that_counts_before_it_is_laid_out_settles_a_frame_later() {
    // The box takes its width from a child that is laid out only after the
    // box, because the child's height hangs on the box.
    let mut root = RendererObject::new();
    root.set_geometry(Dimensions::pixel(0, 0, 6, 2));
    root.set_default_character('.');
    root.set_default_background_color(Colors::BLACK());
    let mut frame_box = RendererObject::new();
    frame_box.set_height(Dimension::Pixel(2));
    frame_box.set_default_character('-');
    let mut inner = RendererObject::new();
    inner.set_width(Dimension::Pixel(4));
    inner.set_height(Dimension::PH(Decimal::from_int(50)));
    frame_box.add_child(inner);
    root.add_child(frame_box);
    let mut renderer = Renderer::new();
    renderer.set_object(Some(root));

    let first = renderer.draw_frame(Some((6, 2)), false);
    assert_eq!(first.updates, 12);
    assert_eq!(renderer.object.as_ref().unwrap().children[0].calculated_width, 0);
    assert_eq!(
        renderer.previous_buffer[0].iter().map(|p| p.value).collect::<String>(),
        "......"
    );
    let second = renderer.draw_frame(Some((6, 2)), false);
    assert_eq!(renderer.object.as_ref().unwrap().children[0].calculated_width, 4);
    assert_eq!(second.updates, 8);
    assert_eq!(
        renderer.previous_buffer[1].iter().map(|p| p.value).collect::<String>(),
        "----.."
    );
    let third = renderer.draw_frame(Some((6, 2)), false);
    assert_eq!(third.updates, 0);
    assert_eq!(third.bytes, b"\x1b[3;7H\x1b[39m\x1b[49m".to_vec());
}
