use tui_renderer::color::Color;
use tui_renderer::color_area::{ColorArea, ColorLayer};
use tui_renderer::colors::Colors;
use tui_renderer::decimal::Decimal;
use tui_renderer::geometry::{Dimension, Dimensions};
use tui_renderer::pixel::{Pixel, Pixels};
use tui_renderer::renderer_object::RendererObject;
use tui_renderer::renderer_object_border::Borders;
use tui_renderer::renderer_object_style::{AlignmentX, AlignmentY, RendererObjectStyle};

fn percent(value: i32) -> Decimal {
    Decimal::from_int(value)
}

fn glyphs(node: &RendererObject) -> Vec<String> {
    node.buffer
        .iter()
        .map(|row| row.iter().map(|p| if p.value == '\0' { '.' } else { p.value }).collect())
        .collect()
}

#[test]
fn a_new_node() {
    let node = RendererObject::new();
    assert_eq!(node.get_geometry(), Dimensions::auto());
    assert_eq!(node.calculated_width, 0);
    assert_eq!(node.calculated_height, 0);
    assert!(node.update_size);
    assert!(node.update_content);
    assert_eq!(node.get_default_character(), '\0');
    assert_eq!(node.get_default_background_color(), Colors::TRANSPARENT());
    assert_eq!(node.get_default_foreground_color(), Colors::WHITE());
    assert_eq!(node.get_text(), "");
    assert!(node.get_children().is_empty());
    assert!(node.get_colors().is_empty());
    assert!(node.buffer.is_empty());
}

#[test]
fn an_empty_node_takes_no_room() {
    for (vw, vh, pw, ph, pad) in [(80, 24, 80, 24, 5), (0, 0, 0, 0, 0), (7, 9, 1000, 3, 2)] {
        let mut node = RendererObject::new();
        node.process_geometry(vw, vh, pw, ph, pad);
        assert_eq!(node.calculated_width, 0);
        assert_eq!(node.calculated_height, 0);
        assert!(!node.update_size);
    }
}

#[test]
fn a_child_takes_half_of_its_parent() {
    let mut root = RendererObject::new();
    root.set_width(Dimension::VW(percent(100)));
    root.set_height(Dimension::VH(percent(100)));
    let mut child = RendererObject::new();
    child.set_width(Dimension::PW(percent(50)));
    child.set_height(Dimension::PH(percent(50)));
    root.add_child(child);
    root.process_geometry(80, 24, 80, 24, 5);
    assert_eq!(root.calculated_width, 80);
    assert_eq!(root.calculated_height, 24);
    assert_eq!(root.children[0].calculated_width, 40);
    assert_eq!(root.children[0].calculated_height, 12);
    assert_eq!(root.children[0].parent_width, 80);
    assert_eq!(root.children[0].parent_height, 24);
}

#[test]
fn auto_extents_come_from_the_content() {
    let mut node = RendererObject::new();
    node.set_text("ab\ncdefg\n");
    node.process_geometry(80, 24, 80, 24, 5);
    assert_eq!((node.calculated_width, node.calculated_height), (5, 3));

    let mut node = RendererObject::new();
    node.set_animation(&vec!["a", "abc\nd\ne\nf", "ab"]);
    node.process_geometry(80, 24, 80, 24, 5);
    assert_eq!((node.calculated_width, node.calculated_height), (3, 4));

    let mut node = RendererObject::new();
    node.set_pattern("abcdefgh\nij");
    node.process_geometry(80, 24, 80, 24, 5);
    assert_eq!((node.calculated_width, node.calculated_height), (0, 0));

    let mut node = RendererObject::new();
    node.set_text("abc");
    node.set_height(Dimension::Pixel(7));
    node.process_geometry(80, 24, 80, 24, 5);
    assert_eq!((node.calculated_width, node.calculated_height), (3, 7));
}

#[test]
fn auto_extents_come_from_the_children_that_do_not_hang_on_the_parent() {
    let mut root = RendererObject::new();
    let mut a = RendererObject::new();
    a.set_geometry(Dimensions::pixel(3, 1, 10, 2));
    let mut b = RendererObject::new();
    b.set_geometry((
        Dimension::VW(percent(10)),
        Dimension::Auto,
        Dimension::VH(percent(50)),
        Dimension::Pixel(20),
    ));
    let mut c = RendererObject::new();
    c.set_geometry((
        Dimension::Pixel(0),
        Dimension::Pixel(0),
        Dimension::PW(percent(500)),
        Dimension::PH(percent(500)),
    ));
    let mut d = RendererObject::new();
    d.set_geometry((
        Dimension::Percent(percent(50)),
        Dimension::Pixel(30),
        Dimension::Pixel(100),
        Dimension::Pixel(1),
    ));
    root.set_children(vec![a, b, c, d]);
    root.process_geometry(80, 24, 80, 24, 5);
    // a reaches column 13 and row 3, b column 8 + 12 = 20 and row 20, d row 31.
    assert_eq!((root.calculated_width, root.calculated_height), (20, 31));
    assert_eq!(
        (root.children[2].calculated_width, root.children[2].calculated_height),
        (100, 155)
    );
    // d is sized by itself, so it was laid out before its parent had a width.
    assert_eq!(root.children[3].parent_width, 0);
    assert_eq!(root.children[2].parent_width, 20);
}

#[test]
fn extents_and_places_of_nodes_are_kept_within_32_bits() {
    let mut root = RendererObject::new();
    root.set_geometry(Dimensions::pixel(0, 0, 10, 10));
    let mut child = RendererObject::new();
    child.set_geometry((
        Dimension::PW(Decimal::from_micros(i64::MAX)),
        Dimension::Pixel(0),
        Dimension::PW(Decimal::from_micros(i64::MAX)),
        Dimension::Pixel(1),
    ));
    child.set_text("x");
    root.add_child(child);
    root.process_geometry(80, 24, 80, 24, 1);
    assert_eq!(root.children[0].calculated_width, i32::MAX as u32);
    root.get_buffer(0, 0, 1);
    assert_eq!(root.children[0].absolute_x, i32::MAX);
    assert_eq!(root.get_cell(1, 0, 0).value, '\0');
}

#[test]
fn negative_extents_count_as_none() {
    let mut node = RendererObject::new();
    node.set_geometry(Dimensions::pixel(0, 0, -4, -1));
    node.process_geometry(80, 24, 80, 24, 5);
    assert_eq!((node.calculated_width, node.calculated_height), (0, 0));
}

#[test]
fn the_buffer_holds_what_shows_and_a_margin() {
    let mut node = RendererObject::new();
    node.set_geometry(Dimensions::pixel(0, 0, 100, 50));
    node.process_geometry(80, 24, 80, 24, 5);
    assert_eq!(node.buffer.len(), 24 + 10);
    assert!(node.buffer.iter().all(|row| row.len() == 80 + 10));
    let blank = Pixel {
        value: ' ',
        background: Colors::TRANSPARENT(),
        foreground: Colors::WHITE(),
    };
    assert!(node.buffer.iter().all(|row| row.iter().all(|p| *p == blank)));
    assert!(node.update_content);

    let mut small = RendererObject::new();
    small.set_geometry(Dimensions::pixel(0, 0, 4, 2));
    small.process_geometry(80, 24, 80, 24, 3);
    assert_eq!(small.buffer.len(), 2 + 6);
    assert!(small.buffer.iter().all(|row| row.len() == 4 + 6));
}

#[test]
fn changes_leave_their_signals() {
    let mut node = RendererObject::new();
    node.process_geometry(80, 24, 80, 24, 5);
    node.get_buffer(0, 0, 5);
    assert!(!node.update_content && !node.update_size && !node.changed && !node.moved);

    node.set_x(Dimension::Auto);
    assert!(!node.moved && !node.changed && !node.update_content);
    node.set_x(Dimension::Pixel(3));
    assert!(node.moved && !node.changed && !node.update_content);
    node.set_y(Dimension::Pixel(3));
    assert!(node.moved);
    assert!(node.update_value());
    assert!(!node.moved && !node.update_content);

    node.set_width(Dimension::Auto);
    assert!(!node.changed && !node.update_size);
    node.set_width(Dimension::Pixel(3));
    assert!(node.changed && node.update_size && node.update_content);
    assert!(node.update_value());
    assert!(!node.changed && node.update_content);
    assert!(!node.update_value());
}

#[test]
fn signals_rise_to_the_root() {
    let mut root = RendererObject::new();
    let mut middle = RendererObject::new();
    middle.add_child(RendererObject::new());
    root.add_child(middle);
    root.add_child(RendererObject::new());
    assert!(root.update_value());
    root.process_geometry(80, 24, 80, 24, 5);
    root.get_buffer(0, 0, 5);
    assert!(!root.update_content);
    assert!(!root.children[0].update_content);
    assert!(!root.children[0].children[0].update_content);
    assert!(!root.update_value());

    root.children[0].children[0].set_default_character('x');
    assert!(root.update_value());
    assert!(root.update_content);
    assert!(root.children[0].update_content);
    assert!(root.children[0].children[0].update_content);
    assert!(!root.children[1].update_content);
    assert!(!root.children[0].children[0].changed);

    root.process_geometry(80, 24, 80, 24, 5);
    root.get_buffer(0, 0, 5);
    root.children[1].set_x(Dimension::Pixel(2));
    assert!(root.update_value());
    assert!(root.update_content);
    assert!(!root.children[0].update_content);
    assert!(!root.children[1].update_content);
    assert!(!root.children[1].moved);
}

#[test]
fn texts_are_kept_line_by_line() {
    let mut node = RendererObject::new();
    node.set_text("ab\r\ncd\n\ne\r");
    assert_eq!(
        node.text,
        vec![vec!['a', 'b'], vec!['c', 'd'], vec![], vec!['e', '\r']]
    );
    assert_eq!(node.get_text(), "ab\ncd\n\ne\r");
    node.set_text("");
    assert_eq!(node.text, vec![Vec::<char>::new()]);
    assert_eq!(node.get_text(), "");
    node.set_pattern("░▒\n▓");
    assert_eq!(node.pattern, vec![vec!['░', '▒'], vec!['▓']]);
    assert_eq!(node.get_pattern(), "░▒\n▓");
}

#[test]
fn animations_are_kept_frame_by_frame() {
    let mut node = RendererObject::new();
    node.set_animation(&vec!["a\nb", "c"]);
    assert_eq!(node.animation, vec![vec![vec!['a'], vec!['b']], vec![vec!['c']]]);
    assert_eq!(node.get_animation(), vec!["a\nb".to_string(), "c".to_string()]);
    node.set_animation_from_string("a\r\nb\n<FrameSeparator>\nc\n<FrameSeparator>\n<FrameSeparator>\nd");
    assert_eq!(
        node.get_animation(),
        vec!["a\nb".to_string(), "c".to_string(), "".to_string(), "d".to_string()]
    );
    assert_eq!(node.animation[2], Vec::<Vec<char>>::new());
    node.set_animated_pattern(&vec!["12", "3\n4"]);
    assert_eq!(node.get_animated_pattern(), vec!["12".to_string(), "3\n4".to_string()]);
    assert_eq!(node.get_animated_pattern_as_string(), "12\n<FrameSeparator>\n3\n4");
    node.set_animated_pattern_from_string("12\n<FrameSeparator>\n3\n4");
    assert_eq!(node.animated_pattern, vec![vec![vec!['1', '2']], vec![vec!['3'], vec!['4']]]);
    node.set_animated_pattern_from_string("no separator <FrameSeparator> here");
    assert_eq!(node.animated_pattern.len(), 1);
}

#[test]
fn frames_are_counted() {
    let mut node = RendererObject::new();
    node.set_current_animation_frame(5);
    assert_eq!(node.get_current_animation_frame(), 5);
    node.shift_current_animation_frame(-7);
    assert_eq!(node.get_current_animation_frame(), -2);
    node.shift_current_animation_frame(i64::MIN);
    assert_eq!(node.get_current_animation_frame(), i64::MIN);
    node.set_current_frame(9);
    assert_eq!(node.get_current_frame(), 9);
    node.set_current_animated_pattern_frame(i64::MAX);
    node.shift_current_animated_pattern_frame(1);
    assert_eq!(node.get_current_animated_pattern_frame(), i64::MAX);
}

#[test]
fn color_areas_are_numbered() {
    let mut node = RendererObject::new();
    let red = ColorArea::new(Colors::RED(), ColorLayer::Background);
    let mut blue = ColorArea::new(Colors::BLUE(), ColorLayer::Background);
    blue.renderer_object_index = 17;
    node.set_colors(vec![red, blue, red]);
    assert_eq!(
        node.get_colors().iter().map(|a| a.renderer_object_index).collect::<Vec<_>>(),
        vec![0, 1, 2]
    );
    let mut lime = ColorArea::new(Colors::LIME(), ColorLayer::Foreground);
    node.add_color(&mut lime);
    assert_eq!(lime.renderer_object_index, 3);
    assert_eq!(node.get_colors()[3], lime);
    let second = node.get_colors()[1];
    node.remove_color(&second);
    assert_eq!(
        node.get_colors().iter().map(|a| (a.color, a.renderer_object_index)).collect::<Vec<_>>(),
        vec![(Colors::RED(), 0), (Colors::RED(), 1), (Colors::LIME(), 2)]
    );
    node.remove_color_at(9);
    assert_eq!(node.get_colors().len(), 3);
    node.remove_color_at(0);
    node.remove_color_at(1);
    assert_eq!(
        node.get_colors().iter().map(|a| (a.color, a.renderer_object_index)).collect::<Vec<_>>(),
        vec![(Colors::RED(), 0)]
    );
}

#[test]
fn children_know_their_place() {
    let mut root = RendererObject::new();
    for c in ['a', 'b', 'c', 'd'] {
        let mut child = RendererObject::new();
        child.set_default_character(c);
        child.parent_location = 99;
        root.add_child(child);
    }
    let places = |root: &RendererObject| {
        root.get_children()
            .iter()
            .map(|k| (k.default_character, k.parent_location))
            .collect::<Vec<_>>()
    };
    assert_eq!(places(&root), vec![('a', 0), ('b', 1), ('c', 2), ('d', 3)]);
    root.remove_child_at(1);
    assert_eq!(places(&root), vec![('a', 0), ('c', 1), ('d', 2)]);
    root.remove_child_at(7);
    assert_eq!(places(&root), vec![('a', 0), ('c', 1), ('d', 2)]);
    let mut last = RendererObject::new();
    last.parent_location = 2;
    root.remove_child(&last);
    assert_eq!(places(&root), vec![('a', 0), ('c', 1)]);
    let mut x = RendererObject::new();
    x.set_default_character('x');
    x.parent_location = 5;
    root.set_children(vec![x, RendererObject::new()]);
    assert_eq!(places(&root), vec![('x', 0), ('\0', 1)]);
}

#[test]
fn a_red_area_at_half_strength_on_black() {
    let mut node = RendererObject::new();
    node.set_geometry(Dimensions::pixel(0, 0, 4, 2));
    node.set_default_background_color(Colors::BLACK());
    node.set_colors(vec![ColorArea::new(
        Color::from_rgba(255, 0, 0, Decimal::from_micros(500_000)),
        ColorLayer::Background,
    )]);
    node.process_geometry(80, 24, 80, 24, 5);
    node.get_buffer(0, 0, 5);
    for i in 0..2 {
        for j in 0..4 {
            let cell = node.get_cell(5, i, j);
            assert_eq!(cell.background, Color::from_rgb(128, 0, 0));
            assert_eq!(cell.foreground, Colors::WHITE());
            assert_eq!(cell, node.buffer[i as usize][j as usize]);
        }
    }
    assert_eq!(node.buffer[2][0].background, Colors::BLACK());
    assert_eq!(node.buffer[0][4].background, Colors::BLACK());
    assert_eq!(node.get_cell(5, -1, 0), Pixels::EMPTY());
    assert_eq!(node.get_cell(5, 0, 99), Pixels::EMPTY());
    assert!(!node.update_content);
}

#[test]
fn layers_of_glyphs() {
    let mut node = RendererObject::new();
    node.set_geometry(Dimensions::pixel(0, 0, 6, 3));
    node.set_default_character('.');
    node.set_pattern("ab\nc");
    node.process_geometry(80, 24, 80, 24, 0);
    node.get_buffer(0, 0, 0);
    assert_eq!(glyphs(&node), vec!["ababab", "cccccc", "ababab"]);

    node.set_animated_pattern(&vec!["\0\0X", "Y"]);
    node.set_current_animated_pattern_frame(2);
    node.get_buffer(0, 0, 0);
    assert_eq!(glyphs(&node), vec!["abXbaX", "ccXccX", "abXbaX"]);
    node.set_current_animated_pattern_frame(-1);
    node.get_buffer(0, 0, 0);
    assert_eq!(glyphs(&node), vec!["YYYYYY", "YYYYYY", "YYYYYY"]);

    node.set_animated_pattern(&vec![]);
    node.set_text("hi\n\0!");
    node.get_buffer(0, 0, 0);
    assert_eq!(glyphs(&node), vec!["hiabab", "c!cccc", "ababab"]);

    node.set_animation(&vec!["1", "\n2\0\n3"]);
    node.set_current_animation_frame(3);
    node.get_buffer(0, 0, 0);
    assert_eq!(glyphs(&node), vec!["hiabab", "2!cccc", "3babab"]);
}

#[test]
fn text_is_aligned_line_by_line() {
    let mut node = RendererObject::new();
    node.set_geometry(Dimensions::pixel(0, 0, 7, 5));
    node.set_default_character('.');
    node.set_text("abc\nd");
    let mut style = RendererObjectStyle::new();
    style.set_internal_alignment(AlignmentX::Center, AlignmentY::Center);
    node.set_style(style);
    node.process_geometry(80, 24, 80, 24, 0);
    node.get_buffer(0, 0, 0);
    assert_eq!(
        glyphs(&node),
        vec![".......", "..abc..", "...d...", ".......", "......."]
    );
    style.set_internal_alignment(AlignmentX::Right, AlignmentY::Bottom);
    node.set_style(style);
    node.get_buffer(0, 0, 0);
    assert_eq!(
        glyphs(&node),
        vec![".......", ".......", ".......", "....abc", "......d"]
    );
}

#[test]
fn color_areas_are_laid_on_in_their_order() {
    let mut node = RendererObject::new();
    node.set_geometry(Dimensions::pixel(0, 0, 4, 2));
    node.set_default_background_color(Colors::BLACK());
    let mut right = ColorArea::new(Colors::LIME(), ColorLayer::Foreground);
    right
        .set_geometry(Dimensions::pixel(-1, 0, 2, 1))
        .set_alignment(Some(AlignmentX::Right), Some(AlignmentY::Bottom));
    node.set_colors(vec![
        ColorArea::new(Colors::RED(), ColorLayer::Background),
        *ColorArea::new(Colors::BLUE(), ColorLayer::Background)
            .set_geometry(Dimensions::pixel(1, 0, 2, 1)),
        right,
    ]);
    node.process_geometry(80, 24, 80, 24, 0);
    node.get_buffer(0, 0, 0);
    let backgrounds: Vec<Vec<Color>> =
        node.buffer.iter().map(|r| r.iter().map(|p| p.background).collect()).collect();
    assert_eq!(
        backgrounds,
        vec![
            vec![Colors::RED(), Colors::BLUE(), Colors::BLUE(), Colors::RED()],
            vec![Colors::RED(); 4],
        ]
    );
    let foregrounds: Vec<Vec<Color>> =
        node.buffer.iter().map(|r| r.iter().map(|p| p.foreground).collect()).collect();
    assert_eq!(
        foregrounds,
        vec![
            vec![Colors::WHITE(); 4],
            vec![Colors::WHITE(), Colors::LIME(), Colors::LIME(), Colors::WHITE()],
        ]
    );
}

#[test]
fn children_and_their_frames() {
    let mut root = RendererObject::new();
    root.set_geometry(Dimensions::pixel(0, 0, 7, 5));
    root.set_default_character('.');
    root.set_default_background_color(Colors::BLACK());
    let mut child = RendererObject::new();
    child.set_geometry(Dimensions::pixel(2, 1, 3, 2));
    child.set_text("abc\nde");
    let mut style = RendererObjectStyle::new();
    style.set_border(Borders::SIMPLE());
    child.set_style(style);
    root.add_child(child);
    root.process_geometry(80, 24, 80, 24, 2);
    root.get_buffer(0, 0, 2);
    let shown: Vec<String> = (0..5)
        .map(|i| (0..7).map(|j| root.get_cell(2, i, j).value).collect())
        .collect();
    assert_eq!(
        shown,
        vec![".┌───┐.", ".│abc│.", ".│de.│.", ".└───┘.", "......."]
    );
    // The child stands at column 2 and row 1; a move by less than the margin
    // is not recorded.
    assert_eq!(root.children[0].absolute_x, 2);
    assert_eq!(root.children[0].absolute_y, 0);
    assert!(!root.children[0].update_content);
    // The child's own buffer: a glyph where it has text, none elsewhere.
    assert_eq!(root.children[0].get_cell(2, 0, 0).value, 'a');
    assert_eq!(root.children[0].get_cell(2, 1, 2).value, '\0');
}

#[test]
fn later_children_cover_earlier_ones() {
    let mut root = RendererObject::new();
    root.set_geometry(Dimensions::pixel(0, 0, 4, 1));
    root.set_default_character('.');
    let mut a = RendererObject::new();
    a.set_text("aaa");
    let mut b = RendererObject::new();
    b.set_text("bb");
    b.set_x(Dimension::Pixel(2));
    let mut c = RendererObject::new();
    c.set_text("c");
    c.set_style({
        let mut s = RendererObjectStyle::new();
        s.set_external_alignment(Some(AlignmentX::Center), None);
        s
    });
    root.set_children(vec![a, b, c]);
    root.process_geometry(80, 24, 80, 24, 0);
    root.get_buffer(0, 0, 0);
    assert_eq!(glyphs(&root), vec!["aacb"]);
}

#[test]
fn only_what_the_viewport_shows_is_painted() {
    let mut node = RendererObject::new();
    node.set_geometry(Dimensions::pixel(0, 0, 100, 3));
    node.set_pattern("0123456789");
    node.process_geometry(10, 2, 10, 2, 1);
    node.get_buffer(-20, -1, 1);
    // Columns 19 to 30 and rows 0 to 2 of the node are in the buffer.
    assert_eq!(node.absolute_x, -20);
    assert_eq!(node.absolute_y, -1);
    assert_eq!(node.get_cell(1, 0, 19).value, '9');
    assert_eq!(node.get_cell(1, 2, 30).value, '0');
    assert_eq!(node.get_cell(1, 0, 18), Pixels::EMPTY());
    assert_eq!(node.get_cell(1, 0, 31), Pixels::EMPTY());
    assert_eq!(node.buffer.len(), 2 + 2);
    assert!(node.buffer.iter().all(|r| r.len() == 10 + 2));
}

#[test]
fn a_small_move_keeps_the_buffer() {
    let mut node = RendererObject::new();
    node.set_geometry(Dimensions::pixel(0, 0, 3, 1));
    node.set_text("abc");
    node.process_geometry(80, 24, 80, 24, 5);
    node.get_buffer(10, 10, 5);
    assert_eq!((node.absolute_x, node.absolute_y), (10, 10));
    node.set_text("xyz");
    node.update_content = false;
    node.get_buffer(14, 6, 5);
    assert_eq!((node.absolute_x, node.absolute_y), (10, 10));
    assert_eq!(node.get_cell(5, 0, 0).value, 'a');
    node.get_buffer(15, 6, 5);
    assert_eq!((node.absolute_x, node.absolute_y), (15, 10));
    assert_eq!(node.get_cell(5, 0, 0).value, 'x');
    node.get_buffer(15, 5, 5);
    assert_eq!((node.absolute_x, node.absolute_y), (15, 5));
}

#[test]
fn a_change_of_the_viewport_reaches_every_child() {
    let mut root = RendererObject::new();
    root.set_geometry(Dimensions::pixel(0, 0, 100, 10));
    let mut child = RendererObject::new();
    child.set_width(Dimension::VW(percent(50)));
    child.set_height(Dimension::Pixel(1));
    let mut grandchild = RendererObject::new();
    grandchild.set_width(Dimension::VH(percent(50)));
    grandchild.set_height(Dimension::PH(percent(100)));
    child.add_child(grandchild);
    root.add_child(child);
    root.process_geometry(80, 24, 80, 24, 5);
    root.get_buffer(0, 0, 5);
    assert_eq!(root.children[0].calculated_width, 40);
    assert_eq!(root.children[0].children[0].calculated_width, 12);
    assert!(!root.update_content && !root.children[0].update_content);

    // The root has a size of its own and is not due, and yet its children
    // learn of the narrower viewport.
    root.process_geometry(40, 10, 40, 10, 5);
    assert_eq!((root.calculated_width, root.calculated_height), (100, 10));
    assert_eq!(root.renderer_width, 40);
    assert_eq!(root.children[0].renderer_width, 40);
    assert_eq!(root.children[0].calculated_width, 20);
    assert_eq!(root.children[0].children[0].renderer_height, 10);
    assert_eq!(root.children[0].children[0].calculated_width, 5);
    assert_eq!(root.children[0].children[0].calculated_height, 1);
    // What has another size is due, and so is all above it.
    assert!(root.children[0].children[0].update_content);
    assert!(root.children[0].update_content);
    assert!(root.update_content);

    root.get_buffer(0, 0, 5);
    root.process_geometry(40, 10, 40, 10, 5);
    assert!(!root.update_content && !root.children[0].update_content);
}

#[test]
fn auto_extents_are_taken_at_every_layout() {
    let mut node = RendererObject::new();
    node.process_geometry(80, 24, 80, 24, 5);
    node.get_buffer(0, 0, 5);
    // Extents that nothing accounts for do not outlive a layout, though the
    // node is not due.
    node.calculated_width = 5;
    node.calculated_height = 7;
    assert!(!node.update_content && !node.update_size);
    node.process_geometry(80, 24, 80, 24, 5);
    assert_eq!((node.calculated_width, node.calculated_height), (0, 0));
    assert!(node.update_content);

    let mut parent = RendererObject::new();
    let mut child = RendererObject::new();
    child.set_text("abc");
    parent.add_child(child);
    parent.process_geometry(80, 24, 80, 24, 5);
    parent.get_buffer(0, 0, 5);
    assert_eq!((parent.calculated_width, parent.calculated_height), (3, 1));
    parent.children[0].text = vec![vec!['a'; 9], vec![]];
    parent.process_geometry(80, 24, 80, 24, 5);
    assert_eq!((parent.calculated_width, parent.calculated_height), (9, 2));
}
