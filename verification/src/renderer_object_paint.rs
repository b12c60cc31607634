//! How a node is painted into its buffer.
//!
//! Every cell of the buffer is painted by itself: the node's glyphs, layer
//! on layer, then its colour areas in their order, then its children in
//! theirs, each with its frame.
use vstd::prelude::*;
use crate::color::overlay;
use crate::color_area::{ColorArea, ColorLayer};
use crate::decimal::clamp;
use crate::geometry::resolve;
use crate::misc::generic_dimension_calc;
use crate::pixel::{empty_pixel, overlaid, Pixel, Pixels};
use crate::renderer_object::{
    cells,
    clamp_exec,
    position,
    position_exec,
    same_content,
    same_layout,
    same_signals,
    view_extent,
    view_extent_exec,
    RendererObject,
};
use crate::renderer_object_border::Border;
use crate::renderer_object_style::{
    offset_x,
    offset_x_exec,
    offset_y,
    offset_y_exec,
    AlignmentX,
    AlignmentY,
    RendererObjectStyle,
};

verus! {

/// The space that a node gives to what it holds: its extents, those of the
/// viewport, and its alignment.
pub struct Space {
    pub width: u32,
    pub height: u32,
    pub view_width: u16,
    pub view_height: u16,
    pub align_x: AlignmentX,
    pub align_y: AlignmentY,
}

/// The glyph above where it is one, else the glyph below.
pub open spec fn over_glyph(below: char, above: char) -> char {
    if above != '\0' {
        above
    } else {
        below
    }
}

/// The glyph that rows of glyphs, repeated in both directions, have at row
/// `i` and column `j`.
pub open spec fn tile_glyph(rows: Seq<Vec<char>>, i: int, j: int) -> char {
    if rows.len() == 0 {
        '\0'
    } else {
        let row = rows[i % (rows.len() as int)]@;
        if row.len() == 0 {
            '\0'
        } else {
            row[j % (row.len() as int)]
        }
    }
}

/// The glyph that a block of lines has at row `i` and column `j` of the
/// space in which it is aligned: the block as a whole between top and
/// bottom, each line by itself between left and right.
pub open spec fn block_glyph(rows: Seq<Vec<char>>, space: Space, i: int, j: int) -> char {
    let ti = i - offset_y(space.align_y, space.height as int, rows.len() as int);
    if 0 <= ti < rows.len() {
        let line = rows[ti]@;
        let tj = j - offset_x(space.align_x, space.width as int, line.len() as int);
        if 0 <= tj < line.len() {
            line[tj]
        } else {
            '\0'
        }
    } else {
        '\0'
    }
}

/// Which of `count` frames is shown at the count `current`: frames repeat
/// in both directions.
pub open spec fn frame_index(current: int, count: int) -> int {
    if current >= 0 {
        current % count
    } else {
        let back = (-current) % count;
        if back == 0 {
            0
        } else {
            count - back
        }
    }
}

/// The frame that is shown at the count `current`; no lines where there are
/// no frames.
pub open spec fn frame_of(frames: Seq<Vec<Vec<char>>>, current: int) -> Seq<Vec<char>> {
    if frames.len() == 0 {
        Seq::empty()
    } else {
        frames[frame_index(current, frames.len() as int)]@
    }
}

/// The left edge of a colour area in its node.
pub open spec fn area_left(area: ColorArea, space: Space) -> int {
    offset_x(
        match area.external_alignment_x {
            Some(a) => a,
            None => space.align_x,
        },
        space.width as int,
        area_width(area, space),
    ) + resolve(
        area.x,
        space.width as int,
        space.height as int,
        space.view_width as int,
        space.view_height as int,
        true,
    )
}

/// The top edge of a colour area in its node.
pub open spec fn area_top(area: ColorArea, space: Space) -> int {
    offset_y(
        match area.external_alignment_y {
            Some(a) => a,
            None => space.align_y,
        },
        space.height as int,
        area_height(area, space),
    ) + resolve(
        area.y,
        space.width as int,
        space.height as int,
        space.view_width as int,
        space.view_height as int,
        false,
    )
}

/// The width of a colour area: that of its node for `Auto`.
pub open spec fn area_width(area: ColorArea, space: Space) -> int {
    if area.width is Auto {
        space.width as int
    } else {
        resolve(
            area.width,
            space.width as int,
            space.height as int,
            space.view_width as int,
            space.view_height as int,
            true,
        )
    }
}

/// The height of a colour area: that of its node for `Auto`.
pub open spec fn area_height(area: ColorArea, space: Space) -> int {
    if area.height is Auto {
        space.height as int
    } else {
        resolve(
            area.height,
            space.width as int,
            space.height as int,
            space.view_width as int,
            space.view_height as int,
            false,
        )
    }
}

/// Whether a colour area covers row `i` and column `j` of its node.
pub open spec fn area_covers(area: ColorArea, space: Space, i: int, j: int) -> bool {
    &&& area_left(area, space) <= j < area_left(area, space) + area_width(area, space)
    &&& area_top(area, space) <= i < area_top(area, space) + area_height(area, space)
}

/// The cell `p` with the colour of an area laid over the layer that the
/// area names, where the area covers the cell.
pub open spec fn tint(p: Pixel, area: ColorArea, space: Space, i: int, j: int) -> Pixel {
    if area_covers(area, space, i, j) {
        match area.layer {
            ColorLayer::Background => Pixel { background: overlay(p.background, area.color), ..p },
            ColorLayer::Foreground => Pixel { foreground: overlay(p.foreground, area.color), ..p },
        }
    } else {
        p
    }
}

/// The cell `p` under the first `n` colour areas, laid on in their order.
pub open spec fn tinted(colors: Seq<ColorArea>, space: Space, p: Pixel, i: int, j: int, n: int) -> Pixel
    decreases n,
{
    if n <= 0 {
        p
    } else {
        tint(tinted(colors, space, p, i, j, n - 1), colors[n - 1], space, i, j)
    }
}

/// The left edge of a child in its parent.
pub open spec fn child_left(child: RendererObject, space: Space) -> int {
    offset_x(
        match child.style.external_alignment_x {
            Some(a) => a,
            None => space.align_x,
        },
        space.width as int,
        child.calculated_width as int,
    ) + resolve(
        child.x,
        space.width as int,
        space.height as int,
        space.view_width as int,
        space.view_height as int,
        true,
    )
}

/// The top edge of a child in its parent.
pub open spec fn child_top(child: RendererObject, space: Space) -> int {
    offset_y(
        match child.style.external_alignment_y {
            Some(a) => a,
            None => space.align_y,
        },
        space.height as int,
        child.calculated_height as int,
    ) + resolve(
        child.y,
        space.width as int,
        space.height as int,
        space.view_width as int,
        space.view_height as int,
        false,
    )
}

/// The cell of a frame that belongs at row `i` and column `j`, for a body
/// whose top left corner is at row `top` and column `left`: an edge beside
/// the body, a corner beside two edges, and the empty cell anywhere else.
pub open spec fn border_cell(
    border: Border,
    top: int,
    left: int,
    width: int,
    height: int,
    i: int,
    j: int,
) -> Pixel {
    let bottom = top + height - 1;
    let right = left + width - 1;
    if i == top - 1 {
        if j == left - 1 {
            border.top_left
        } else if j == right + 1 {
            border.top_right
        } else if left <= j <= right {
            border.top
        } else {
            empty_pixel()
        }
    } else if i == bottom + 1 {
        if j == left - 1 {
            border.bottom_left
        } else if j == right + 1 {
            border.bottom_right
        } else if left <= j <= right {
            border.bottom
        } else {
            empty_pixel()
        }
    } else if top <= i <= bottom {
        if j == left - 1 {
            border.left
        } else if j == right + 1 {
            border.right
        } else {
            empty_pixel()
        }
    } else {
        empty_pixel()
    }
}

/// The cell `p` of a parent, at its row `i` and column `j`, with a child laid
/// onto it: the child's own cell where the child's body is, and its frame
/// just outside.
pub open spec fn child_layer(
    p: Pixel,
    child: RendererObject,
    space: Space,
    pad: int,
    i: int,
    j: int,
) -> Pixel {
    let top = child_top(child, space);
    let left = child_left(child, space);
    if top <= i < top + child.calculated_height && left <= j < left + child.calculated_width {
        overlaid(p, child.cell_at(pad, i - top, j - left))
    } else {
        overlaid(
            p,
            border_cell(
                child.style.border,
                top,
                left,
                child.calculated_width as int,
                child.calculated_height as int,
                i,
                j,
            ),
        )
    }
}

/// The cell `p` under the first `n` children, laid on in their order.
pub open spec fn with_children(
    kids: Seq<RendererObject>,
    space: Space,
    pad: int,
    p: Pixel,
    i: int,
    j: int,
    n: int,
) -> Pixel
    decreases n,
{
    if n <= 0 {
        p
    } else {
        child_layer(with_children(kids, space, pad, p, i, j, n - 1), kids[n - 1], space, pad, i, j)
    }
}

impl RendererObject {
    /// The space that the node gives to what it holds.
    pub open spec fn space(&self) -> Space {
        Space {
            width: self.calculated_width,
            height: self.calculated_height,
            view_width: self.renderer_width,
            view_height: self.renderer_height,
            align_x: self.style.internal_alignment_x,
            align_y: self.style.internal_alignment_y,
        }
    }

    /// The first column of the node that its buffer holds.
    pub open spec fn start_x(&self, pad: int) -> int {
        clamp(-self.absolute_x - pad, 0, self.calculated_width as int)
    }

    /// The first row of the node that its buffer holds.
    pub open spec fn start_y(&self, pad: int) -> int {
        clamp(-self.absolute_y - pad, 0, self.calculated_height as int)
    }

    /// The column of the node behind the last that is painted.
    pub open spec fn end_x(&self, pad: int) -> int {
        clamp(-self.absolute_x + pad + self.renderer_width, 0, self.calculated_width as int)
    }

    /// The row of the node behind the last that is painted.
    pub open spec fn end_y(&self, pad: int) -> int {
        clamp(-self.absolute_y + pad + self.renderer_height, 0, self.calculated_height as int)
    }

    /// The node's own glyph at its row `i` and column `j`: the default
    /// character, under the pattern, under the animated pattern, under the
    /// text, under the animation. A layer shows what is below it where it
    /// has no glyph.
    pub open spec fn glyph_at(&self, i: int, j: int) -> char {
        let tile = over_glyph(self.default_character, tile_glyph(self.pattern@, i, j));
        let moving = over_glyph(
            tile,
            tile_glyph(
                frame_of(self.animated_pattern@, self.current_animated_pattern_frame as int),
                i,
                j,
            ),
        );
        let text = over_glyph(moving, block_glyph(self.text@, self.space(), i, j));
        over_glyph(
            text,
            block_glyph(
                frame_of(self.animation@, self.current_animation_frame as int),
                self.space(),
                i,
                j,
            ),
        )
    }

    /// The node's painted cell at its row `i` and column `j`, as its buffer
    /// holds it; the empty cell where the buffer does not reach.
    pub open spec fn cell_at(&self, pad: int, i: int, j: int) -> Pixel {
        let r = i - self.start_y(pad);
        let c = j - self.start_x(pad);
        if 0 <= r < self.buffer@.len() && 0 <= c < self.buffer@[r]@.len() {
            self.buffer@[r]@[c]
        } else {
            empty_pixel()
        }
    }

    /// What the node shows at its row `i` and column `j`: its glyph in its
    /// default colours, under its colour areas, under its children.
    pub open spec fn painted_cell(&self, pad: int, i: int, j: int) -> Pixel {
        with_children(
            self.children@,
            self.space(),
            pad,
            tinted(
                self.colors@,
                self.space(),
                Pixel {
                    value: self.glyph_at(i, j),
                    background: self.default_background_color,
                    foreground: self.default_foreground_color,
                },
                i,
                j,
                self.colors@.len() as int,
            ),
            i,
            j,
            self.children@.len() as int,
        )
    }

    /// What the cell at row `r` and column `c` of the buffer holds after
    /// painting: what the node shows there, or only the default character in
    /// the default colours where the buffer reaches beyond what is painted.
    pub open spec fn buffer_cell(&self, pad: int, r: int, c: int) -> Pixel {
        let i = self.start_y(pad) + r;
        let j = self.start_x(pad) + c;
        if i < self.end_y(pad) && j < self.end_x(pad) {
            self.painted_cell(pad, i, j)
        } else {
            Pixel {
                value: self.default_character,
                background: self.default_background_color,
                foreground: self.default_foreground_color,
            }
        }
    }

    /// The painted buffer: the part of the node that the viewport shows,
    /// with a margin of `pad` cells round it.
    pub open spec fn painting(&self, pad: int) -> Seq<Seq<Pixel>> {
        Seq::new(
            self.buffer_height(pad) as nat,
            |r: int| Seq::new(self.buffer_width(pad) as nat, |c: int| self.buffer_cell(pad, r, c)),
        )
    }
}

/// Whether a node that stood at `from` and is handed the place `to` has
/// moved far enough to be painted again: by the margin or more, and at all.
pub open spec fn moved_far(from: int, to: int, pad: int) -> bool {
    to != from && (to - from >= pad || from - to >= pad)
}

/// Whether `post` is `pre` after its buffer was asked for at a place on the
/// screen and with a margin.
///
/// A node that has moved by the margin or more takes the new place and is
/// painted again, and so is a node that was marked for it. Painting a node
/// asks each of its children for its buffer first, at the place that the
/// node gives it. A node that is not painted again stays as it is, with all
/// that is below it.
pub open spec fn composed(
    pre: RendererObject,
    post: RendererObject,
    absolute_x: int,
    absolute_y: int,
    renderer_padding: int,
) -> bool
    decreases pre,
{
    let pad = view_extent(renderer_padding);
    let ax = position(absolute_x);
    let ay = position(absolute_y);
    let moved_x = moved_far(pre.absolute_x as int, ax, pad);
    let moved_y = moved_far(pre.absolute_y as int, ay, pad);
    let redraw = pre.update_content || moved_x || moved_y;
    &&& same_content(pre, post)
    &&& same_layout(pre, post)
    &&& same_signals(pre, post)
    &&& post.update_size == pre.update_size
    &&& post.absolute_x == (if moved_x {
        ax
    } else {
        pre.absolute_x as int
    })
    &&& post.absolute_y == (if moved_y {
        ay
    } else {
        pre.absolute_y as int
    })
    &&& !post.update_content
    &&& post.children@.len() == pre.children@.len()
    &&& if redraw {
        &&& forall|i: int|
            0 <= i < pre.children@.len() ==> composed(
                #[trigger] pre.children@[i],
                post.children@[i],
                post.absolute_x + child_left(pre.children@[i], post.space()),
                post.absolute_y + child_top(pre.children@[i], post.space()),
                pad,
            )
        &&& cells(post.buffer) == post.painting(pad)
    } else {
        post.children == pre.children && post.buffer == pre.buffer
    }
}

/// Of the place that a node is handed, only what is kept of it counts.
pub proof fn lemma_composed_by_place(
    pre: RendererObject,
    post: RendererObject,
    ax: int,
    ay: int,
    bx: int,
    by: int,
    pad: int,
)
    requires
        composed(pre, post, ax, ay, pad),
        position(ax) == position(bx),
        position(ay) == position(by),
    ensures
        composed(pre, post, bx, by, pad),
{
}

/// What a node shows hangs on what it holds, on its layout, its place and
/// its children alone: not on its buffer, nor on what is due.
pub proof fn lemma_painting_of_state(a: RendererObject, b: RendererObject, pad: int)
    requires
        same_content(a, b),
        same_layout(a, b),
        a.absolute_x == b.absolute_x,
        a.absolute_y == b.absolute_y,
        a.children == b.children,
    ensures
        a.painting(pad) == b.painting(pad),
{
    assert(a.space() == b.space());
    assert forall|r: int, c: int| a.buffer_cell(pad, r, c) == b.buffer_cell(pad, r, c) by {
        let i = a.start_y(pad) + r;
        let j = a.start_x(pad) + c;
        assert(a.glyph_at(i, j) == b.glyph_at(i, j));
    }
    assert(a.painting(pad) =~~= b.painting(pad));
}

fn tile_glyph_exec(rows: &Vec<Vec<char>>, i: u32, j: u32) -> (g: char)
    ensures
        g == tile_glyph(rows@, i as int, j as int),
{
    if rows.len() == 0 {
        return '\0';
    }
    let row = &rows[(i as u64 % rows.len() as u64) as usize];
    if row.len() == 0 {
        return '\0';
    }
    row[(j as u64 % row.len() as u64) as usize]
}

fn block_glyph_exec(rows: &Vec<Vec<char>>, space: &Space, i: u32, j: u32) -> (g: char)
    ensures
        g == block_glyph(rows@, *space, i as int, j as int),
{
    let ti: i128 = i as i128 - offset_y_exec(space.align_y, space.height as i128, rows.len() as i128);
    if 0 <= ti && ti < rows.len() as i128 {
        let line = &rows[ti as usize];
        let tj: i128 = j as i128 - offset_x_exec(
            space.align_x,
            space.width as i128,
            line.len() as i128,
        );
        if 0 <= tj && tj < line.len() as i128 {
            line[tj as usize]
        } else {
            '\0'
        }
    } else {
        '\0'
    }
}

fn frame_index_exec(current: i64, count: usize) -> (k: usize)
    requires
        count > 0,
    ensures
        k == frame_index(current as int, count as int),
        k < count,
{
    if current >= 0 {
        (current as u64 % count as u64) as usize
    } else {
        let back: u64 = ((-(current as i128)) as u64) % (count as u64);
        if back == 0 {
            0
        } else {
            count - back as usize
        }
    }
}

fn over_glyph_exec(below: char, above: char) -> (g: char)
    ensures
        g == over_glyph(below, above),
{
    if above != '\0' {
        above
    } else {
        below
    }
}

fn area_width_exec(area: &ColorArea, space: &Space) -> (w: i128)
    ensures
        w == area_width(*area, *space),
        -0x1_0000_0000_0000_0000_0000 <= w <= 0x1_0000_0000_0000_0000_0000,
{
    if area.width.is_auto() {
        space.width as i128
    } else {
        generic_dimension_calc(
            &area.width,
            space.width as i64,
            space.height as i64,
            space.view_width as i64,
            space.view_height as i64,
            true,
        ) as i128
    }
}

fn area_height_exec(area: &ColorArea, space: &Space) -> (h: i128)
    ensures
        h == area_height(*area, *space),
        -0x1_0000_0000_0000_0000_0000 <= h <= 0x1_0000_0000_0000_0000_0000,
{
    if area.height.is_auto() {
        space.height as i128
    } else {
        generic_dimension_calc(
            &area.height,
            space.width as i64,
            space.height as i64,
            space.view_width as i64,
            space.view_height as i64,
            false,
        ) as i128
    }
}

fn area_covers_exec(area: &ColorArea, space: &Space, i: u32, j: u32) -> (b: bool)
    ensures
        b == area_covers(*area, *space, i as int, j as int),
{
    let w: i128 = area_width_exec(area, space);
    let h: i128 = area_height_exec(area, space);
    let left: i128 = offset_x_exec(
        match area.external_alignment_x {
            Some(a) => a,
            None => space.align_x,
        },
        space.width as i128,
        w,
    ) + generic_dimension_calc(
        &area.x,
        space.width as i64,
        space.height as i64,
        space.view_width as i64,
        space.view_height as i64,
        true,
    ) as i128;
    let top: i128 = offset_y_exec(
        match area.external_alignment_y {
            Some(a) => a,
            None => space.align_y,
        },
        space.height as i128,
        h,
    ) + generic_dimension_calc(
        &area.y,
        space.width as i64,
        space.height as i64,
        space.view_width as i64,
        space.view_height as i64,
        false,
    ) as i128;
    left <= j as i128 && (j as i128) < left + w && top <= i as i128 && (i as i128) < top + h
}

fn child_left_exec(child: &RendererObject, space: &Space) -> (left: i128)
    ensures
        left == child_left(*child, *space),
        -0x1_0000_0000_0000_0000_0000 <= left <= 0x1_0000_0000_0000_0000_0000,
{
    offset_x_exec(
        match child.style.external_alignment_x {
            Some(a) => a,
            None => space.align_x,
        },
        space.width as i128,
        child.calculated_width as i128,
    ) + generic_dimension_calc(
        &child.x,
        space.width as i64,
        space.height as i64,
        space.view_width as i64,
        space.view_height as i64,
        true,
    ) as i128
}

fn child_top_exec(child: &RendererObject, space: &Space) -> (top: i128)
    ensures
        top == child_top(*child, *space),
        -0x1_0000_0000_0000_0000_0000 <= top <= 0x1_0000_0000_0000_0000_0000,
{
    offset_y_exec(
        match child.style.external_alignment_y {
            Some(a) => a,
            None => space.align_y,
        },
        space.height as i128,
        child.calculated_height as i128,
    ) + generic_dimension_calc(
        &child.y,
        space.width as i64,
        space.height as i64,
        space.view_width as i64,
        space.view_height as i64,
        false,
    ) as i128
}

fn border_cell_exec(
    border: &Border,
    top: i128,
    left: i128,
    width: i128,
    height: i128,
    i: i128,
    j: i128,
) -> (p: Pixel)
    requires
        -0x1_0000_0000_0000_0000_0000 <= top <= 0x1_0000_0000_0000_0000_0000,
        -0x1_0000_0000_0000_0000_0000 <= left <= 0x1_0000_0000_0000_0000_0000,
        0 <= width <= 0x4_0000_0000,
        0 <= height <= 0x4_0000_0000,
    ensures
        p == border_cell(*border, top as int, left as int, width as int, height as int, i as int, j as int),
{
    let bottom: i128 = top + height - 1;
    let right: i128 = left + width - 1;
    if i == top - 1 {
        if j == left - 1 {
            border.top_left
        } else if j == right + 1 {
            border.top_right
        } else if left <= j && j <= right {
            border.top
        } else {
            Pixels::EMPTY()
        }
    } else if i == bottom + 1 {
        if j == left - 1 {
            border.bottom_left
        } else if j == right + 1 {
            border.bottom_right
        } else if left <= j && j <= right {
            border.bottom
        } else {
            Pixels::EMPTY()
        }
    } else if top <= i && i <= bottom {
        if j == left - 1 {
            border.left
        } else if j == right + 1 {
            border.right
        } else {
            Pixels::EMPTY()
        }
    } else {
        Pixels::EMPTY()
    }
}

impl RendererObject {
    /// The space that the node gives to what it holds.
    pub fn space_exec(&self) -> (s: Space)
        ensures
            s == self.space(),
    {
        Space {
            width: self.calculated_width,
            height: self.calculated_height,
            view_width: self.renderer_width,
            view_height: self.renderer_height,
            align_x: self.style.internal_alignment_x,
            align_y: self.style.internal_alignment_y,
        }
    }

    fn start_x_exec(&self, pad: u16) -> (s: i128)
        ensures
            s == self.start_x(pad as int),
            0 <= s <= self.calculated_width,
    {
        clamp_exec(-(self.absolute_x as i128) - pad as i128, 0, self.calculated_width as i128)
    }

    fn start_y_exec(&self, pad: u16) -> (s: i128)
        ensures
            s == self.start_y(pad as int),
            0 <= s <= self.calculated_height,
    {
        clamp_exec(-(self.absolute_y as i128) - pad as i128, 0, self.calculated_height as i128)
    }

    fn end_x_exec(&self, pad: u16) -> (e: i128)
        ensures
            e == self.end_x(pad as int),
            0 <= e <= self.calculated_width,
    {
        clamp_exec(
            -(self.absolute_x as i128) + pad as i128 + self.renderer_width as i128,
            0,
            self.calculated_width as i128,
        )
    }

    fn end_y_exec(&self, pad: u16) -> (e: i128)
        ensures
            e == self.end_y(pad as int),
            0 <= e <= self.calculated_height,
    {
        clamp_exec(
            -(self.absolute_y as i128) + pad as i128 + self.renderer_height as i128,
            0,
            self.calculated_height as i128,
        )
    }

    /// The node's painted cell at its row `i` and column `j`, as its buffer
    /// holds it; the empty cell where the buffer does not reach.
    pub fn get_cell(&self, renderer_padding: i64, i: i64, j: i64) -> (p: Pixel)
        ensures
            p == self.cell_at(view_extent(renderer_padding as int), i as int, j as int),
    {
        self.wide_cell(view_extent_exec(renderer_padding), i as i128, j as i128)
    }

    /// The node's painted cell at a row and a column that need not fit 64
    /// bits.
    pub(crate) fn wide_cell(&self, pad: u16, i: i128, j: i128) -> (p: Pixel)
        requires
            -0x4_0000_0000_0000_0000_0000 <= i <= 0x4_0000_0000_0000_0000_0000,
            -0x4_0000_0000_0000_0000_0000 <= j <= 0x4_0000_0000_0000_0000_0000,
        ensures
            p == self.cell_at(pad as int, i as int, j as int),
    {
        let r: i128 = i - self.start_y_exec(pad);
        let c: i128 = j - self.start_x_exec(pad);
        if 0 <= r && r < self.buffer.len() as i128 {
            let row = &self.buffer[r as usize];
            if 0 <= c && c < row.len() as i128 {
                return row[c as usize];
            }
        }
        Pixels::EMPTY()
    }

    /// The glyph of the pattern at row `i` and column `j`, over `below`.
    fn draw_pattern(&self, below: char, i: u32, j: u32) -> (g: char)
        ensures
            g == over_glyph(below, tile_glyph(self.pattern@, i as int, j as int)),
    {
        over_glyph_exec(below, tile_glyph_exec(&self.pattern, i, j))
    }

    /// The glyph of the animated pattern's frame at row `i` and column `j`,
    /// over `below`.
    fn draw_animated_pattern(&self, below: char, i: u32, j: u32) -> (g: char)
        ensures
            g == over_glyph(
                below,
                tile_glyph(
                    frame_of(self.animated_pattern@, self.current_animated_pattern_frame as int),
                    i as int,
                    j as int,
                ),
            ),
    {
        if self.animated_pattern.len() == 0 {
            return below;
        }
        let k: usize = frame_index_exec(
            self.current_animated_pattern_frame,
            self.animated_pattern.len(),
        );
        over_glyph_exec(below, tile_glyph_exec(&self.animated_pattern[k], i, j))
    }

    /// The glyph of the text at row `i` and column `j`, over `below`.
    fn draw_text(&self, below: char, i: u32, j: u32) -> (g: char)
        ensures
            g == over_glyph(below, block_glyph(self.text@, self.space(), i as int, j as int)),
    {
        let space = self.space_exec();
        over_glyph_exec(below, block_glyph_exec(&self.text, &space, i, j))
    }

    /// The glyph of the animation's frame at row `i` and column `j`, over
    /// `below`.
    fn draw_animation(&self, below: char, i: u32, j: u32) -> (g: char)
        ensures
            g == over_glyph(
                below,
                block_glyph(
                    frame_of(self.animation@, self.current_animation_frame as int),
                    self.space(),
                    i as int,
                    j as int,
                ),
            ),
    {
        let space = self.space_exec();
        if self.animation.len() == 0 {
            let none: Vec<Vec<char>> = Vec::new();
            return over_glyph_exec(below, block_glyph_exec(&none, &space, i, j));
        }
        let k: usize = frame_index_exec(self.current_animation_frame, self.animation.len());
        over_glyph_exec(below, block_glyph_exec(&self.animation[k], &space, i, j))
    }

    /// The cell `p`, at row `i` and column `j`, under the node's colour
    /// areas.
    fn draw_colors(&self, p: Pixel, i: u32, j: u32) -> (q: Pixel)
        ensures
            q == tinted(
                self.colors@,
                self.space(),
                p,
                i as int,
                j as int,
                self.colors@.len() as int,
            ),
    {
        let space = self.space_exec();
        let mut q: Pixel = p;
        let mut k: usize = 0;
        while k < self.colors.len()
            invariant
                k <= self.colors@.len(),
                space == self.space(),
                q == tinted(self.colors@, space, p, i as int, j as int, k as int),
            decreases self.colors.len() - k,
        {
            let area = &self.colors[k];
            if area_covers_exec(area, &space, i, j) {
                match area.layer {
                    ColorLayer::Background => {
                        q.background = q.background.with_overlay(area.color);
                    },
                    ColorLayer::Foreground => {
                        q.foreground = q.foreground.with_overlay(area.color);
                    },
                }
            }
            k += 1;
        }
        q
    }

    /// The cell `p`, at row `i` and column `j`, under the node's children
    /// and their frames.
    fn draw_children(&self, p: Pixel, pad: u16, i: u32, j: u32) -> (q: Pixel)
        ensures
            q == with_children(
                self.children@,
                self.space(),
                pad as int,
                p,
                i as int,
                j as int,
                self.children@.len() as int,
            ),
    {
        let space = self.space_exec();
        let mut q: Pixel = p;
        let mut k: usize = 0;
        while k < self.children.len()
            invariant
                k <= self.children@.len(),
                space == self.space(),
                q == with_children(self.children@, space, pad as int, p, i as int, j as int, k as int),
            decreases self.children.len() - k,
        {
            let child = &self.children[k];
            let top: i128 = child_top_exec(child, &space);
            let left: i128 = child_left_exec(child, &space);
            let row: i128 = i as i128;
            let col: i128 = j as i128;
            if top <= row && row < top + child.calculated_height as i128 && left <= col && col
                < left + child.calculated_width as i128 {
                let inner = child.get_cell(pad as i64, (row - top) as i64, (col - left) as i64);
                q = q.with_overlay(&inner);
            } else {
                let edge = border_cell_exec(
                    &child.style.border,
                    top,
                    left,
                    child.calculated_width as i128,
                    child.calculated_height as i128,
                    row,
                    col,
                );
                q = q.with_overlay(&edge);
            }
            k += 1;
        }
        q
    }

    fn paint_cell(&self, pad: u16, i: u32, j: u32) -> (p: Pixel)
        ensures
            p == self.painted_cell(pad as int, i as int, j as int),
    {
        let tile = self.draw_pattern(self.default_character, i, j);
        let moving = self.draw_animated_pattern(tile, i, j);
        let text = self.draw_text(moving, i, j);
        let glyph = self.draw_animation(text, i, j);
        let ground = Pixel {
            value: glyph,
            background: self.default_background_color,
            foreground: self.default_foreground_color,
        };
        let tinted = self.draw_colors(ground, i, j);
        self.draw_children(tinted, pad, i, j)
    }

    fn paint(&self, pad: u16) -> (b: Vec<Vec<Pixel>>)
        ensures
            cells(b) == self.painting(pad as int),
    {
        let rows: i128 = self.visible_height_exec() + 2 * (pad as i128);
        let cols: i128 = self.visible_width_exec() + 2 * (pad as i128);
        let sx: i128 = self.start_x_exec(pad);
        let sy: i128 = self.start_y_exec(pad);
        let ex: i128 = self.end_x_exec(pad);
        let ey: i128 = self.end_y_exec(pad);
        let clear = Pixel {
            value: self.default_character,
            background: self.default_background_color,
            foreground: self.default_foreground_color,
        };
        let mut b: Vec<Vec<Pixel>> = Vec::new();
        let mut r: i128 = 0;
        while r < rows
            invariant
                0 <= r <= rows,
                rows == self.buffer_height(pad as int),
                cols == self.buffer_width(pad as int),
                0 <= cols <= 0x3_ffff,
                rows <= 0x3_ffff,
                sx == self.start_x(pad as int),
                sy == self.start_y(pad as int),
                ex == self.end_x(pad as int),
                ey == self.end_y(pad as int),
                0 <= sx <= 0xffff_ffff,
                0 <= sy <= 0xffff_ffff,
                ex <= 0xffff_ffff,
                ey <= 0xffff_ffff,
                clear == (Pixel {
                    value: self.default_character,
                    background: self.default_background_color,
                    foreground: self.default_foreground_color,
                }),
                b@.len() == r,
                forall|k: int|
                    0 <= k < r ==> (#[trigger] b@[k])@ == Seq::new(
                        cols as nat,
                        |c: int| self.buffer_cell(pad as int, k, c),
                    ),
            decreases rows - r,
        {
            let mut row: Vec<Pixel> = Vec::new();
            let mut c: i128 = 0;
            while c < cols
                invariant
                    0 <= c <= cols,
                    0 <= r < rows,
                    cols <= 0x3_ffff,
                    rows <= 0x3_ffff,
                    sx == self.start_x(pad as int),
                    sy == self.start_y(pad as int),
                    ex == self.end_x(pad as int),
                    ey == self.end_y(pad as int),
                    0 <= sx <= 0xffff_ffff,
                    0 <= sy <= 0xffff_ffff,
                    ex <= 0xffff_ffff,
                    ey <= 0xffff_ffff,
                    clear == (Pixel {
                        value: self.default_character,
                        background: self.default_background_color,
                        foreground: self.default_foreground_color,
                    }),
                    row@.len() == c,
                    forall|k: int| 0 <= k < c ==> row@[k] == self.buffer_cell(pad as int, r as int, k),
                decreases cols - c,
            {
                let i: i128 = sy + r;
                let j: i128 = sx + c;
                let p: Pixel = if i < ey && j < ex {
                    self.paint_cell(pad, i as u32, j as u32)
                } else {
                    clear
                };
                row.push(p);
                c += 1;
            }
            assert(row@ =~= Seq::new(cols as nat, |c: int| self.buffer_cell(pad as int, r as int, c)));
            b.push(row);
            r += 1;
        }
        assert(cells(b) =~= self.painting(pad as int));
        b
    }

    /// Takes the place that the node is handed, where it is far enough
    /// from the place at which the node was last painted. The result says
    /// whether the node must be painted again.
    fn settle_place(&mut self, ax: i32, ay: i32, pad: u16) -> (redraw: bool)
        ensures
            same_content(*old(self), *final(self)),
            same_layout(*old(self), *final(self)),
            same_signals(*old(self), *final(self)),
            final(self).update_size == old(self).update_size,
            final(self).update_content == old(self).update_content,
            final(self).children == old(self).children,
            final(self).buffer == old(self).buffer,
            final(self).absolute_x == (if moved_far(
                old(self).absolute_x as int,
                ax as int,
                pad as int,
            ) {
                ax
            } else {
                old(self).absolute_x
            }),
            final(self).absolute_y == (if moved_far(
                old(self).absolute_y as int,
                ay as int,
                pad as int,
            ) {
                ay
            } else {
                old(self).absolute_y
            }),
            redraw == (old(self).update_content || moved_far(
                old(self).absolute_x as int,
                ax as int,
                pad as int,
            ) || moved_far(old(self).absolute_y as int, ay as int, pad as int)),
    {
        let mut redraw: bool = self.update_content;
        let apart_x: i64 = ax as i64 - self.absolute_x as i64;
        if ax != self.absolute_x && (apart_x >= pad as i64 || -apart_x >= pad as i64) {
            self.absolute_x = ax;
            redraw = true;
        }
        let apart_y: i64 = ay as i64 - self.absolute_y as i64;
        if ay != self.absolute_y && (apart_y >= pad as i64 || -apart_y >= pad as i64) {
            self.absolute_y = ay;
            redraw = true;
        }
        redraw
    }

    /// Paints the node's buffer from what the node holds and from the
    /// buffers of its children, and takes the mark for it away.
    fn repaint(&mut self, pad: u16)
        ensures
            same_content(*old(self), *final(self)),
            same_layout(*old(self), *final(self)),
            same_signals(*old(self), *final(self)),
            final(self).update_size == old(self).update_size,
            final(self).absolute_x == old(self).absolute_x,
            final(self).absolute_y == old(self).absolute_y,
            final(self).children == old(self).children,
            !final(self).update_content,
            cells(final(self).buffer) == final(self).painting(pad as int),
    {
        let painted = self.paint(pad);
        let ghost before = *self;
        self.update_content = false;
        self.buffer = painted;
        proof {
            lemma_painting_of_state(before, *self, pad as int);
        }
    }

    /// The node's buffer, painted again where that is due.
    ///
    /// `absolute_x` and `absolute_y` say where the node stands on the
    /// screen; they are kept between `CELLS_MIN` and `CELLS_MAX`, and the
    /// margin between 0 and `VIEW_MAX`.
    pub fn get_buffer(&mut self, absolute_x: i64, absolute_y: i64, renderer_padding: i64) -> (b:
        &Vec<Vec<Pixel>>)
        ensures
            composed(
                *old(self),
                *final(self),
                absolute_x as int,
                absolute_y as int,
                renderer_padding as int,
            ),
            *b == final(self).buffer,
        decreases *old(self),
    {
        let pad: u16 = view_extent_exec(renderer_padding);
        let ax: i32 = position_exec(absolute_x as i128);
        let ay: i32 = position_exec(absolute_y as i128);
        let redraw: bool = self.settle_place(ax, ay, pad);
        if redraw {
            let space = self.space_exec();
            let here_x: i128 = self.absolute_x as i128;
            let here_y: i128 = self.absolute_y as i128;
            let n: usize = self.children.len();
            let mut k: usize = 0;
            while k < n
                invariant
                    k <= n,
                    n == old(self).children@.len(),
                    self.children@.len() == n,
                    same_content(*old(self), *self),
                    same_layout(*old(self), *self),
                    same_signals(*old(self), *self),
                    self.update_size == old(self).update_size,
                    self.absolute_x == here_x,
                    self.absolute_y == here_y,
                    space == self.space(),
                    pad == view_extent(renderer_padding as int),
                    forall|i: int|
                        0 <= i < k ==> composed(
                            #[trigger] old(self).children@[i],
                            self.children@[i],
                            here_x + child_left(old(self).children@[i], space),
                            here_y + child_top(old(self).children@[i], space),
                            pad as int,
                        ),
                    forall|i: int| k <= i < n ==> self.children@[i] == old(self).children@[i],
                decreases n - k,
            {
                let left: i128 = child_left_exec(&self.children[k], &space);
                let top: i128 = child_top_exec(&self.children[k], &space);
                let ghost before = self.children@[k as int];
                let to_x: i32 = position_exec(here_x + left);
                let to_y: i32 = position_exec(here_y + top);
                self.children[k].get_buffer(to_x as i64, to_y as i64, pad as i64);
                proof {
                    lemma_composed_by_place(
                        before,
                        self.children@[k as int],
                        to_x as int,
                        to_y as int,
                        here_x + left,
                        here_y + top,
                        pad as int,
                    );
                }
                k += 1;
            }
            self.repaint(pad);
        }
        &self.buffer
    }
}

} // verus!
