//! Reading and changing what a node holds.
//!
//! Every change that shows leaves its signal on the node: a change of place
//! asks for the parent to be painted again, any other change for the node
//! itself.
use vstd::prelude::*;
use vstd::string::*;
use crate::color::Color;
use crate::color_area::ColorArea;
use crate::decimal::clamp;
use crate::geometry::Dimension;
use crate::renderer_object::RendererObject;
use crate::renderer_object_style::RendererObjectStyle;
use crate::text::{
    lines,
    push_chars,
    same_chars,
    split,
    split_exec,
    to_chars,
    to_unix_lines,
    unix_lines,
};

verus! {

/// The lines of a text: line ends of two characters count as one, and the
/// text is cut at every line feed. A text has one line more than it has line
/// feeds.
pub open spec fn text_lines(s: Seq<char>) -> Seq<Seq<char>> {
    split(unix_lines(s), '\n')
}

/// The frames that lines fall into: a line that holds `<FrameSeparator>` and
/// nothing else ends one frame and begins the next.
pub open spec fn grouped(rows: Seq<Seq<char>>) -> Seq<Seq<Seq<char>>>
    decreases rows.len(),
{
    if rows.len() == 0 {
        seq![Seq::<Seq<char>>::empty()]
    } else {
        let before = grouped(rows.drop_last());
        if rows.last() == "<FrameSeparator>"@ {
            before.push(Seq::<Seq<char>>::empty())
        } else {
            before.update(before.len() - 1, before.last().push(rows.last()))
        }
    }
}

/// The frames of a text.
pub open spec fn text_frames(s: Seq<char>) -> Seq<Seq<Seq<char>>> {
    grouped(text_lines(s))
}

/// The first `n` of some pieces, with `sep` between each two.
pub open spec fn joined(pieces: Seq<Seq<char>>, sep: Seq<char>, n: int) -> Seq<char>
    decreases n,
{
    if n <= 0 {
        Seq::empty()
    } else if n == 1 {
        pieces[0]
    } else {
        joined(pieces, sep, n - 1) + sep + pieces[n - 1]
    }
}

/// Lines as one text, with a line feed between each two.
pub open spec fn lines_text(rows: Seq<Seq<char>>) -> Seq<char> {
    joined(rows, seq!['\n'], rows.len() as int)
}

/// The frames that a list of frames holds.
pub open spec fn frames(v: Vec<Vec<Vec<char>>>) -> Seq<Seq<Seq<char>>> {
    Seq::new(v@.len(), |i: int| lines(v@[i]))
}

/// The texts that a list of texts holds.
pub open spec fn texts(v: Vec<String>) -> Seq<Seq<char>> {
    Seq::new(v@.len(), |i: int| v@[i]@)
}

/// `v` moved by `by`, kept within 64 bits.
pub open spec fn shifted(v: int, by: int) -> int {
    clamp(v + by, -0x8000_0000_0000_0000, 0x7fff_ffff_ffff_ffff)
}

/// Colour areas that are numbered by their place in the list.
pub open spec fn numbered(areas: Seq<ColorArea>) -> bool {
    forall|i: int| 0 <= i < areas.len() ==> (#[trigger] areas[i]).renderer_object_index == i
}

/// An area with another number.
pub open spec fn renumbered(area: ColorArea, index: int) -> ColorArea {
    ColorArea { renderer_object_index: index as usize, ..area }
}

/// Children that know their place in the list.
pub open spec fn placed(kids: Seq<RendererObject>) -> bool {
    forall|i: int| 0 <= i < kids.len() ==> (#[trigger] kids[i]).parent_location == i
}

/// A child that was given the place `index` and is otherwise as it was.
pub open spec fn placed_at(before: RendererObject, after: RendererObject, index: int) -> bool {
    after == (RendererObject { parent_location: index as usize, ..before })
}

/// A node with another place and other extents. A place that differs
/// leaves the signal for the parent; an extent that differs marks the node
/// itself.
pub open spec fn with_geometry(
    pre: RendererObject,
    geometry: (Dimension, Dimension, Dimension, Dimension),
) -> RendererObject {
    let resized = pre.width != geometry.2 || pre.height != geometry.3;
    RendererObject {
        x: geometry.0,
        y: geometry.1,
        width: geometry.2,
        height: geometry.3,
        moved: pre.moved || pre.x != geometry.0 || pre.y != geometry.1,
        changed: pre.changed || resized,
        update_size: pre.update_size || resized,
        update_content: pre.update_content || resized,
        ..pre
    }
}

/// Whether `after` is the list of areas `before` without the area at
/// `index`: the areas behind it have moved up, and all are numbered by
/// their place. A place that no area has leaves the list as it is.
pub open spec fn without_area(before: Seq<ColorArea>, after: Seq<ColorArea>, index: int) -> bool {
    if 0 <= index < before.len() {
        &&& after.len() == before.len() - 1
        &&& forall|i: int| 0 <= i < index ==> after[i] == renumbered(#[trigger] before[i], i)
        &&& forall|i: int|
            index <= i < after.len() ==> #[trigger] after[i] == renumbered(before[i + 1], i)
    } else {
        after == before
    }
}

/// Whether `after` is the list of children `before` without the child at
/// `index`: the children behind it have moved up, and each was told its
/// place. A place that no child has leaves the list as it is.
pub open spec fn without_child(
    before: Seq<RendererObject>,
    after: Seq<RendererObject>,
    index: int,
) -> bool {
    if 0 <= index < before.len() {
        &&& after.len() == before.len() - 1
        &&& forall|i: int| 0 <= i < index ==> placed_at(#[trigger] before[i], after[i], i)
        &&& forall|i: int|
            index <= i < after.len() ==> placed_at(before[i + 1], #[trigger] after[i], i)
    } else {
        after == before
    }
}

/// The lines of a text.
pub fn lines_of(val: &str) -> (rows: Vec<Vec<char>>)
    ensures
        lines(rows) == text_lines(val@),
{
    let unix = to_unix_lines(&to_chars(val));
    split_exec(&unix, '\n')
}

/// The frames that lines fall into.
pub fn group_frames(rows: Vec<Vec<char>>) -> (out: Vec<Vec<Vec<char>>>)
    ensures
        frames(out) == grouped(lines(rows)),
{
    let separator: Vec<char> = to_chars("<FrameSeparator>");
    let ghost all = lines(rows);
    let n: usize = rows.len();
    let mut out: Vec<Vec<Vec<char>>> = Vec::new();
    let mut frame: Vec<Vec<char>> = Vec::new();
    let mut i: usize = 0;
    assert(all.take(0) =~= Seq::<Seq<char>>::empty());
    assert(frames(out).push(lines(frame)) =~~= grouped(all.take(0)));
    while i < n
        invariant
            i <= n,
            n == rows@.len(),
            all == lines(rows),
            separator@ == "<FrameSeparator>"@,
            frames(out).push(lines(frame)) == grouped(all.take(i as int)),
        decreases n - i,
    {
        let ghost before = grouped(all.take(i as int));
        assert(all.take(i + 1).drop_last() =~= all.take(i as int));
        assert(all.take(i + 1).last() == rows@[i as int]@);
        assert(before.last() == lines(frame));
        assert(before.drop_last() =~= frames(out));
        if same_chars(&rows[i], &separator) {
            let ghost old_out = frames(out);
            let ghost done = lines(frame);
            out.push(frame);
            frame = Vec::new();
            assert(frames(out) =~= old_out.push(done));
            assert(lines(frame) =~= Seq::<Seq<char>>::empty());
        } else {
            let ghost old_frame = lines(frame);
            let row: Vec<char> = rows[i].clone();
            assert(row@ == rows@[i as int]@);
            frame.push(row);
            assert(lines(frame) =~= old_frame.push(rows@[i as int]@));
            assert(frames(out).push(lines(frame)) =~= before.update(
                before.len() - 1,
                before.last().push(rows@[i as int]@),
            ));
        }
        i += 1;
    }
    assert(all.take(n as int) =~= all);
    let ghost old_out = frames(out);
    let ghost done = lines(frame);
    out.push(frame);
    assert(frames(out) =~= old_out.push(done));
    out
}

/// Lines as one text, with a line feed between each two.
pub fn text_of(rows: &Vec<Vec<char>>) -> (s: String)
    ensures
        s@ == lines_text(lines(*rows)),
{
    let mut s: String = String::new();
    let mut k: usize = 0;
    let ghost all = lines(*rows);
    let ghost sep = seq!['\n'];
    while k < rows.len()
        invariant
            k <= rows@.len(),
            all == lines(*rows),
            sep == seq!['\n'],
            s@ == joined(all, sep, k as int),
        decreases rows.len() - k,
    {
        if k > 0 {
            s.push('\n');
            assert(s@ =~= joined(all, sep, k as int) + sep);
        }
        push_chars(&mut s, &rows[k]);
        assert(all[k as int] == rows@[k as int]@);
        k += 1;
        assert(s@ =~= joined(all, sep, k as int));
    }
    s
}

impl RendererObject {
    /// Moves the node to another column of its parent.
    pub fn set_x(&mut self, x: Dimension) -> (me: &mut Self)
        ensures
            *me == (if old(self).x == x {
                *old(self)
            } else {
                RendererObject { x, moved: true, ..*old(self) }
            }),
            *final(me) == *final(self),
    {
        if self.x != x {
            self.x = x;
            self.moved = true;
        }
        self
    }

    /// The node's column in its parent.
    pub fn get_x(&self) -> (x: Dimension)
        ensures
            x == self.x,
    {
        self.x
    }

    /// Moves the node to another row of its parent.
    pub fn set_y(&mut self, y: Dimension) -> (me: &mut Self)
        ensures
            *me == (if old(self).y == y {
                *old(self)
            } else {
                RendererObject { y, moved: true, ..*old(self) }
            }),
            *final(me) == *final(self),
    {
        if self.y != y {
            self.y = y;
            self.moved = true;
        }
        self
    }

    /// The node's row in its parent.
    pub fn get_y(&self) -> (y: Dimension)
        ensures
            y == self.y,
    {
        self.y
    }

    /// Gives the node another width.
    pub fn set_width(&mut self, width: Dimension) -> (me: &mut Self)
        ensures
            *me == (if old(self).width == width {
                *old(self)
            } else {
                RendererObject {
                    width,
                    update_size: true,
                    update_content: true,
                    changed: true,
                    ..*old(self)
                }
            }),
            *final(me) == *final(self),
    {
        if self.width != width {
            self.width = width;
            self.update_size = true;
            self.update_content = true;
            self.changed = true;
        }
        self
    }

    /// The node's width.
    pub fn get_width(&self) -> (width: Dimension)
        ensures
            width == self.width,
    {
        self.width
    }

    /// Gives the node another height.
    pub fn set_height(&mut self, height: Dimension) -> (me: &mut Self)
        ensures
            *me == (if old(self).height == height {
                *old(self)
            } else {
                RendererObject {
                    height,
                    update_size: true,
                    update_content: true,
                    changed: true,
                    ..*old(self)
                }
            }),
            *final(me) == *final(self),
    {
        if self.height != height {
            self.height = height;
            self.update_size = true;
            self.update_content = true;
            self.changed = true;
        }
        self
    }

    /// The node's height.
    pub fn get_height(&self) -> (height: Dimension)
        ensures
            height == self.height,
    {
        self.height
    }

    /// Gives the node its place and its extents at once: x, y, width and
    /// height.
    pub fn set_geometry(&mut self, geometry: (Dimension, Dimension, Dimension, Dimension)) -> (me:
        &mut Self)
        ensures
            *me == with_geometry(*old(self), geometry),
            *final(me) == *final(self),
    {
        if self.x != geometry.0 {
            self.x = geometry.0;
            self.moved = true;
        }
        if self.y != geometry.1 {
            self.y = geometry.1;
            self.moved = true;
        }
        if self.width != geometry.2 {
            self.width = geometry.2;
            self.update_size = true;
            self.update_content = true;
            self.changed = true;
        }
        if self.height != geometry.3 {
            self.height = geometry.3;
            self.update_size = true;
            self.update_content = true;
            self.changed = true;
        }
        self
    }

    /// The node's place and extents: x, y, width and height.
    pub fn get_geometry(&self) -> (geometry: (Dimension, Dimension, Dimension, Dimension))
        ensures
            geometry == (self.x, self.y, self.width, self.height),
    {
        (self.x, self.y, self.width, self.height)
    }

    /// Sets the background that the node has where no colour area covers it.
    pub fn set_default_background_color(&mut self, color: Color) -> (me: &mut Self)
        ensures
            *me == (if old(self).default_background_color == color {
                *old(self)
            } else {
                RendererObject {
                    default_background_color: color,
                    update_content: true,
                    changed: true,
                    ..*old(self)
                }
            }),
            *final(me) == *final(self),
    {
        if self.default_background_color != color {
            self.default_background_color = color;
            self.update_content = true;
            self.changed = true;
        }
        self
    }

    /// The background that the node has where no colour area covers it.
    pub fn get_default_background_color(&self) -> (color: Color)
        ensures
            color == self.default_background_color,
    {
        self.default_background_color
    }

    /// Sets the foreground that the node has where no colour area covers it.
    pub fn set_default_foreground_color(&mut self, color: Color) -> (me: &mut Self)
        ensures
            *me == (if old(self).default_foreground_color == color {
                *old(self)
            } else {
                RendererObject {
                    default_foreground_color: color,
                    update_content: true,
                    changed: true,
                    ..*old(self)
                }
            }),
            *final(me) == *final(self),
    {
        if self.default_foreground_color != color {
            self.default_foreground_color = color;
            self.update_content = true;
            self.changed = true;
        }
        self
    }

    /// The foreground that the node has where no colour area covers it.
    pub fn get_default_foreground_color(&self) -> (color: Color)
        ensures
            color == self.default_foreground_color,
    {
        self.default_foreground_color
    }

    /// Sets the glyph that the node shows where it holds no other.
    pub fn set_default_character(&mut self, character: char) -> (me: &mut Self)
        ensures
            *me == (if old(self).default_character == character {
                *old(self)
            } else {
                RendererObject {
                    default_character: character,
                    update_content: true,
                    changed: true,
                    ..*old(self)
                }
            }),
            *final(me) == *final(self),
    {
        if self.default_character != character {
            self.default_character = character;
            self.update_content = true;
            self.changed = true;
        }
        self
    }

    /// The glyph that the node shows where it holds no other.
    pub fn get_default_character(&self) -> (character: char)
        ensures
            character == self.default_character,
    {
        self.default_character
    }

    /// Gives the node a text: lines that are placed by the node's internal
    /// alignment.
    pub fn set_text(&mut self, val: &str) -> (me: &mut Self)
        ensures
            lines(me.text) == text_lines(val@),
            *me == (RendererObject {
                text: me.text,
                update_content: true,
                changed: true,
                ..*old(self)
            }),
            *final(me) == *final(self),
    {
        self.text = lines_of(val);
        self.update_content = true;
        self.changed = true;
        self
    }

    /// The node's text, its lines parted by line feeds.
    pub fn get_text(&self) -> (s: String)
        ensures
            s@ == lines_text(lines(self.text)),
    {
        text_of(&self.text)
    }

    /// Gives the node a pattern: lines that are repeated over the whole
    /// node.
    pub fn set_pattern(&mut self, val: &str) -> (me: &mut Self)
        ensures
            lines(me.pattern) == text_lines(val@),
            *me == (RendererObject {
                pattern: me.pattern,
                update_content: true,
                changed: true,
                ..*old(self)
            }),
            *final(me) == *final(self),
    {
        self.pattern = lines_of(val);
        self.update_content = true;
        self.changed = true;
        self
    }

    /// The node's pattern, its lines parted by line feeds.
    pub fn get_pattern(&self) -> (s: String)
        ensures
            s@ == lines_text(lines(self.pattern)),
    {
        text_of(&self.pattern)
    }

    /// Gives the node an animation: one text for each frame.
    pub fn set_animation(&mut self, val: &Vec<&str>) -> (me: &mut Self)
        ensures
            frames(me.animation) == Seq::new(val@.len(), |i: int| text_lines(val@[i]@)),
            *me == (RendererObject {
                animation: me.animation,
                update_content: true,
                changed: true,
                ..*old(self)
            }),
            *final(me) == *final(self),
    {
        self.animation = frames_of_texts(val);
        self.update_content = true;
        self.changed = true;
        self
    }

    /// Gives the node an animation from one text, in which a line that
    /// holds `<FrameSeparator>` parts the frames.
    pub fn set_animation_from_string(&mut self, animation: &str) -> (me: &mut Self)
        ensures
            frames(me.animation) == text_frames(animation@),
            *me == (RendererObject {
                animation: me.animation,
                update_content: true,
                changed: true,
                ..*old(self)
            }),
            *final(me) == *final(self),
    {
        self.animation = group_frames(lines_of(animation));
        self.update_content = true;
        self.changed = true;
        self
    }

    /// The node's animation, one text for each frame.
    pub fn get_animation(&self) -> (v: Vec<String>)
        ensures
            texts(v) == Seq::new(
                self.animation@.len(),
                |i: int| lines_text(lines(self.animation@[i])),
            ),
    {
        texts_of_frames(&self.animation)
    }

    /// Gives the node an animated pattern: one text for each frame.
    pub fn set_animated_pattern(&mut self, animated_pattern: &Vec<&str>) -> (me: &mut Self)
        ensures
            frames(me.animated_pattern) == Seq::new(
                animated_pattern@.len(),
                |i: int| text_lines(animated_pattern@[i]@),
            ),
            *me == (RendererObject {
                animated_pattern: me.animated_pattern,
                update_content: true,
                changed: true,
                ..*old(self)
            }),
            *final(me) == *final(self),
    {
        self.animated_pattern = frames_of_texts(animated_pattern);
        self.update_content = true;
        self.changed = true;
        self
    }

    /// Gives the node an animated pattern from one text, in which a line
    /// that holds `<FrameSeparator>` parts the frames.
    pub fn set_animated_pattern_from_string(&mut self, animated_pattern: &str) -> (me: &mut Self)
        ensures
            frames(me.animated_pattern) == text_frames(animated_pattern@),
            *me == (RendererObject {
                animated_pattern: me.animated_pattern,
                update_content: true,
                changed: true,
                ..*old(self)
            }),
            *final(me) == *final(self),
    {
        self.animated_pattern = group_frames(lines_of(animated_pattern));
        self.update_content = true;
        self.changed = true;
        self
    }

    /// The node's animated pattern, one text for each frame.
    pub fn get_animated_pattern(&self) -> (v: Vec<String>)
        ensures
            texts(v) == Seq::new(
                self.animated_pattern@.len(),
                |i: int| lines_text(lines(self.animated_pattern@[i])),
            ),
    {
        texts_of_frames(&self.animated_pattern)
    }

    /// The node's animated pattern as one text, with a line that holds
    /// `<FrameSeparator>` between each two frames.
    pub fn get_animated_pattern_as_string(&self) -> (s: String)
        ensures
            s@ == joined(
                Seq::new(
                    self.animated_pattern@.len(),
                    |i: int| lines_text(lines(self.animated_pattern@[i])),
                ),
                "\n<FrameSeparator>\n"@,
                self.animated_pattern@.len() as int,
            ),
    {
        let parts = texts_of_frames(&self.animated_pattern);
        let separator: Vec<char> = to_chars("\n<FrameSeparator>\n");
        let ghost all = texts(parts);
        let ghost sep = "\n<FrameSeparator>\n"@;
        assert(all.len() == parts@.len());
        assert(parts@.len() == self.animated_pattern@.len());
        let mut s: String = String::new();
        let mut k: usize = 0;
        while k < parts.len()
            invariant
                k <= parts@.len(),
                all == texts(parts),
                separator@ == sep,
                s@ == joined(all, sep, k as int),
            decreases parts.len() - k,
        {
            if k > 0 {
                push_chars(&mut s, &separator);
            }
            let piece: Vec<char> = to_chars(parts[k].as_str());
            push_chars(&mut s, &piece);
            assert(all[k as int] == parts@[k as int]@);
            k += 1;
            assert(s@ =~= joined(all, sep, k as int));
        }
        s
    }

    /// Shows another frame of the animation. Frames repeat in both
    /// directions.
    pub fn set_current_animation_frame(&mut self, frame: i64) -> (me: &mut Self)
        ensures
            *me == (if old(self).current_animation_frame == frame {
                *old(self)
            } else {
                RendererObject {
                    current_animation_frame: frame,
                    update_content: true,
                    changed: true,
                    ..*old(self)
                }
            }),
            *final(me) == *final(self),
    {
        if self.current_animation_frame != frame {
            self.current_animation_frame = frame;
            self.update_content = true;
            self.changed = true;
        }
        self
    }

    /// Shows another frame of the animation.
    pub fn set_current_frame(&mut self, frame: i64) -> (me: &mut Self)
        ensures
            *me == (if old(self).current_animation_frame == frame {
                *old(self)
            } else {
                RendererObject {
                    current_animation_frame: frame,
                    update_content: true,
                    changed: true,
                    ..*old(self)
                }
            }),
            *final(me) == *final(self),
    {
        self.set_current_animation_frame(frame)
    }

    /// Moves on by `shift_val` frames of the animation. The count stays
    /// within 64 bits.
    pub fn shift_current_animation_frame(&mut self, shift_val: i64) -> (me: &mut Self)
        ensures
            *me == (RendererObject {
                current_animation_frame: shifted(
                    old(self).current_animation_frame as int,
                    shift_val as int,
                ) as i64,
                update_content: true,
                changed: true,
                ..*old(self)
            }),
            *final(me) == *final(self),
    {
        self.current_animation_frame = shift_exec(self.current_animation_frame, shift_val);
        self.update_content = true;
        self.changed = true;
        self
    }

    /// The count of the animation's frame that shows.
    pub fn get_current_animation_frame(&self) -> (frame: i64)
        ensures
            frame == self.current_animation_frame,
    {
        self.current_animation_frame
    }

    /// The count of the animation's frame that shows.
    pub fn get_current_frame(&self) -> (frame: i64)
        ensures
            frame == self.current_animation_frame,
    {
        self.current_animation_frame
    }

    /// Shows another frame of the animated pattern.
    pub fn set_current_animated_pattern_frame(&mut self, frame: i64) -> (me: &mut Self)
        ensures
            *me == (if old(self).current_animated_pattern_frame == frame {
                *old(self)
            } else {
                RendererObject {
                    current_animated_pattern_frame: frame,
                    update_content: true,
                    changed: true,
                    ..*old(self)
                }
            }),
            *final(me) == *final(self),
    {
        if self.current_animated_pattern_frame != frame {
            self.current_animated_pattern_frame = frame;
            self.update_content = true;
            self.changed = true;
        }
        self
    }

    /// Moves on by `shift_val` frames of the animated pattern. The count
    /// stays within 64 bits.
    pub fn shift_current_animated_pattern_frame(&mut self, shift_val: i64) -> (me: &mut Self)
        ensures
            *me == (RendererObject {
                current_animated_pattern_frame: shifted(
                    old(self).current_animated_pattern_frame as int,
                    shift_val as int,
                ) as i64,
                update_content: true,
                changed: true,
                ..*old(self)
            }),
            *final(me) == *final(self),
    {
        self.current_animated_pattern_frame = shift_exec(
            self.current_animated_pattern_frame,
            shift_val,
        );
        self.update_content = true;
        self.changed = true;
        self
    }

    /// The count of the animated pattern's frame that shows.
    pub fn get_current_animated_pattern_frame(&self) -> (frame: i64)
        ensures
            frame == self.current_animated_pattern_frame,
    {
        self.current_animated_pattern_frame
    }

    /// Gives the node another frame and other alignments.
    pub fn set_style(&mut self, style: RendererObjectStyle) -> (me: &mut Self)
        ensures
            *me == (RendererObject { style, update_content: true, changed: true, ..*old(self) }),
            *final(me) == *final(self),
    {
        self.style = style;
        self.update_content = true;
        self.changed = true;
        self
    }

    /// The node's frame and alignments.
    pub fn get_style(&self) -> (style: RendererObjectStyle)
        ensures
            style == self.style,
    {
        self.style
    }

    /// Gives the node its colour areas. They are laid on in the order of
    /// the list, and each is numbered by its place in it.
    pub fn set_colors(&mut self, val: Vec<ColorArea>) -> (me: &mut Self)
        ensures
            me.colors@.len() == val@.len(),
            forall|i: int|
                0 <= i < val@.len() ==> me.colors@[i] == renumbered(#[trigger] val@[i], i),
            numbered(me.colors@),
            *me == (RendererObject {
                colors: me.colors,
                update_content: true,
                changed: true,
                ..*old(self)
            }),
            *final(me) == *final(self),
    {
        let mut areas: Vec<ColorArea> = val;
        let n: usize = areas.len();
        let mut i: usize = 0;
        while i < n
            invariant
                i <= n,
                n == val@.len(),
                areas@.len() == n,
                forall|k: int| 0 <= k < i ==> areas@[k] == renumbered(#[trigger] val@[k], k),
                forall|k: int| i <= k < n ==> areas@[k] == val@[k],
            decreases n - i,
        {
            let mut area: ColorArea = areas[i];
            area.renderer_object_index = i;
            areas.set(i, area);
            i += 1;
        }
        self.colors = areas;
        self.update_content = true;
        self.changed = true;
        assert forall|i: int| 0 <= i < self.colors@.len() implies (#[trigger] self.colors@[i]).renderer_object_index
            == i by {
            assert(self.colors@[i] == renumbered(val@[i], i));
        }
        self
    }

    /// The node's colour areas.
    pub fn get_colors(&self) -> (areas: &Vec<ColorArea>)
        ensures
            *areas == self.colors,
    {
        &self.colors
    }

    /// Lays one more colour area over the others. The area is given its
    /// number, which is also written to `val`.
    pub fn add_color(&mut self, val: &mut ColorArea) -> (me: &mut Self)
        ensures
            *final(val) == renumbered(*old(val), old(self).colors@.len() as int),
            me.colors@ == old(self).colors@.push(*final(val)),
            numbered(old(self).colors@) ==> numbered(me.colors@),
            *me == (RendererObject {
                colors: me.colors,
                update_content: true,
                changed: true,
                ..*old(self)
            }),
            *final(me) == *final(self),
    {
        val.renderer_object_index = self.colors.len();
        self.colors.push(*val);
        self.update_content = true;
        self.changed = true;
        self
    }

    /// Takes the colour area with the number `index` away; the areas behind
    /// it move up and are numbered again. A number that no area has changes
    /// nothing but the marks.
    pub fn remove_color_at(&mut self, index: usize) -> (me: &mut Self)
        ensures
            without_area(old(self).colors@, me.colors@, index as int),
            index < old(self).colors@.len() || numbered(old(self).colors@) ==> numbered(me.colors@),
            *me == (RendererObject {
                colors: me.colors,
                update_content: true,
                changed: true,
                ..*old(self)
            }),
            *final(me) == *final(self),
    {
        if index < self.colors.len() {
            self.colors.remove(index);
            let n: usize = self.colors.len();
            let ghost removed = self.colors@;
            assert(removed =~= old(self).colors@.remove(index as int));
            let mut i: usize = 0;
            while i < n
                invariant
                    i <= n,
                    n == removed.len(),
                    self.colors@.len() == n,
                    forall|k: int|
                        0 <= k < i ==> self.colors@[k] == renumbered(#[trigger] removed[k], k),
                    forall|k: int| i <= k < n ==> self.colors@[k] == removed[k],
                    *self == (RendererObject { colors: self.colors, ..*old(self) }),
                decreases n - i,
            {
                let mut area: ColorArea = self.colors[i];
                area.renderer_object_index = i;
                self.colors.set(i, area);
                i += 1;
            }
            assert forall|i: int| 0 <= i < index implies self.colors@[i] == renumbered(
                #[trigger] old(self).colors@[i],
                i,
            ) by {
                assert(self.colors@[i] == renumbered(removed[i], i));
            }
            assert forall|i: int| index <= i < self.colors@.len() implies #[trigger] self.colors@[i]
                == renumbered(old(self).colors@[i + 1], i) by {
                assert(self.colors@[i] == renumbered(removed[i], i));
            }
            assert forall|i: int| 0 <= i < self.colors@.len() implies (#[trigger] self.colors@[i]).renderer_object_index
                == i by {
                assert(self.colors@[i] == renumbered(removed[i], i));
            }
        }
        self.update_content = true;
        self.changed = true;
        self
    }

    /// Takes away the colour area that has the number of `val`.
    pub fn remove_color(&mut self, val: &ColorArea) -> (me: &mut Self)
        ensures
            without_area(old(self).colors@, me.colors@, val.renderer_object_index as int),
            val.renderer_object_index < old(self).colors@.len() || numbered(old(self).colors@)
                ==> numbered(me.colors@),
            *me == (RendererObject {
                colors: me.colors,
                update_content: true,
                changed: true,
                ..*old(self)
            }),
            *final(me) == *final(self),
    {
        self.remove_color_at(val.renderer_object_index)
    }

    /// Gives the node its children, in the order in which they are painted.
    /// Each is told its place in the list.
    pub fn set_children(&mut self, children: Vec<RendererObject>)
        ensures
            final(self).children@.len() == children@.len(),
            forall|i: int|
                0 <= i < children@.len() ==> placed_at(
                    #[trigger] children@[i],
                    final(self).children@[i],
                    i,
                ),
            placed(final(self).children@),
            *final(self) == (RendererObject {
                children: final(self).children,
                update_content: true,
                changed: true,
                ..*old(self)
            }),
    {
        let mut kids: Vec<RendererObject> = children;
        let n: usize = kids.len();
        let mut i: usize = 0;
        while i < n
            invariant
                i <= n,
                n == children@.len(),
                kids@.len() == n,
                forall|k: int| 0 <= k < i ==> placed_at(#[trigger] children@[k], kids@[k], k),
                forall|k: int| i <= k < n ==> kids@[k] == children@[k],
            decreases n - i,
        {
            kids[i].parent_location = i;
            i += 1;
        }
        self.children = kids;
        self.update_content = true;
        self.changed = true;
        assert forall|i: int| 0 <= i < self.children@.len() implies (#[trigger] self.children@[i]).parent_location
            == i by {
            assert(placed_at(children@[i], self.children@[i], i));
        }
    }

    /// The node's children.
    pub fn get_children(&self) -> (children: &Vec<RendererObject>)
        ensures
            *children == self.children,
    {
        &self.children
    }

    /// Makes `child` the last of the node's children, which is painted over
    /// the others.
    pub fn add_child(&mut self, child: RendererObject)
        ensures
            final(self).children@.len() == old(self).children@.len() + 1,
            forall|i: int|
                0 <= i < old(self).children@.len() ==> final(self).children@[i] == old(self).children@[i],
            placed_at(
                child,
                final(self).children@[old(self).children@.len() as int],
                old(self).children@.len() as int,
            ),
            placed(old(self).children@) ==> placed(final(self).children@),
            *final(self) == (RendererObject {
                children: final(self).children,
                update_content: true,
                changed: true,
                ..*old(self)
            }),
    {
        let mut kid: RendererObject = child;
        kid.parent_location = self.children.len();
        self.children.push(kid);
        self.update_content = true;
        self.changed = true;
    }

    /// Takes the child at the place `index` away; the children behind it
    /// move up and are told their new places. A place that no child has
    /// changes nothing but the marks.
    pub fn remove_child_at(&mut self, index: usize)
        ensures
            without_child(old(self).children@, final(self).children@, index as int),
            index < old(self).children@.len() || placed(old(self).children@) ==> placed(
                final(self).children@,
            ),
            *final(self) == (RendererObject {
                children: final(self).children,
                update_content: true,
                changed: true,
                ..*old(self)
            }),
    {
        if index < self.children.len() {
            self.children.remove(index);
            let n: usize = self.children.len();
            let ghost removed = self.children@;
            assert(removed =~= old(self).children@.remove(index as int));
            let mut i: usize = 0;
            while i < n
                invariant
                    i <= n,
                    n == removed.len(),
                    self.children@.len() == n,
                    forall|k: int|
                        0 <= k < i ==> placed_at(#[trigger] removed[k], self.children@[k], k),
                    forall|k: int| i <= k < n ==> self.children@[k] == removed[k],
                    *self == (RendererObject { children: self.children, ..*old(self) }),
                decreases n - i,
            {
                self.children[i].parent_location = i;
                i += 1;
            }
            assert forall|i: int| 0 <= i < index implies placed_at(
                #[trigger] old(self).children@[i],
                self.children@[i],
                i,
            ) by {
                assert(placed_at(removed[i], self.children@[i], i));
            }
            assert forall|i: int| index <= i < self.children@.len() implies placed_at(
                old(self).children@[i + 1],
                #[trigger] self.children@[i],
                i,
            ) by {
                assert(placed_at(removed[i], self.children@[i], i));
            }
            assert forall|i: int| 0 <= i < self.children@.len() implies (#[trigger] self.children@[i]).parent_location
                == i by {
                assert(placed_at(removed[i], self.children@[i], i));
            }
        }
        self.update_content = true;
        self.changed = true;
    }

    /// Takes away the child that stands at the place that
    /// `renderer_object` names as its own.
    pub fn remove_child(&mut self, renderer_object: &RendererObject)
        ensures
            without_child(
                old(self).children@,
                final(self).children@,
                renderer_object.parent_location as int,
            ),
            renderer_object.parent_location < old(self).children@.len() || placed(
                old(self).children@,
            ) ==> placed(final(self).children@),
            *final(self) == (RendererObject {
                children: final(self).children,
                update_content: true,
                changed: true,
                ..*old(self)
            }),
    {
        self.remove_child_at(renderer_object.parent_location);
    }
}

/// `v` moved by `by`, kept within 64 bits.
pub fn shift_exec(v: i64, by: i64) -> (r: i64)
    ensures
        r == shifted(v as int, by as int),
{
    let sum: i128 = v as i128 + by as i128;
    if sum < -0x8000_0000_0000_0000 {
        -0x8000_0000_0000_0000
    } else if sum > 0x7fff_ffff_ffff_ffff {
        0x7fff_ffff_ffff_ffff
    } else {
        sum as i64
    }
}

/// The frames of a list of texts, one frame for each text.
pub fn frames_of_texts(val: &Vec<&str>) -> (out: Vec<Vec<Vec<char>>>)
    ensures
        frames(out) == Seq::new(val@.len(), |i: int| text_lines(val@[i]@)),
{
    let mut out: Vec<Vec<Vec<char>>> = Vec::new();
    let mut k: usize = 0;
    while k < val.len()
        invariant
            k <= val@.len(),
            out@.len() == k,
            forall|i: int| 0 <= i < k ==> lines(#[trigger] out@[i]) == text_lines(val@[i]@),
        decreases val.len() - k,
    {
        out.push(lines_of(val[k]));
        k += 1;
    }
    assert(frames(out) =~= Seq::new(val@.len(), |i: int| text_lines(val@[i]@)));
    out
}

/// The texts of a list of frames, one text for each frame.
pub fn texts_of_frames(list: &Vec<Vec<Vec<char>>>) -> (out: Vec<String>)
    ensures
        texts(out) == Seq::new(list@.len(), |i: int| lines_text(lines(list@[i]))),
{
    let mut out: Vec<String> = Vec::new();
    let mut k: usize = 0;
    while k < list.len()
        invariant
            k <= list@.len(),
            out@.len() == k,
            forall|i: int| 0 <= i < k ==> (#[trigger] out@[i])@ == lines_text(lines(list@[i])),
        decreases list.len() - k,
    {
        out.push(text_of(&list[k]));
        k += 1;
    }
    assert(texts(out) =~= Seq::new(list@.len(), |i: int| lines_text(lines(list@[i]))));
    out
}

} // verus!
