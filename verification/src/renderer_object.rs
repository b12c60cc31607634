//! The nodes of the scene graph: what they hold, how they are laid out and
//! how they are painted.
//!
//! A node owns its children, so the graph is a tree and no node is among
//! its own descendants. A change to a node leaves a signal on it; before a
//! frame is drawn the signals are gathered from the leaves up, and every
//! node with a changed descendant is marked to be painted again.
use vstd::prelude::*;
use crate::color::Color;
use crate::color_area::ColorArea;
use crate::colors::opaque;
use crate::decimal::clamp;
use crate::geometry::{
    max_of,
    parent_relative,
    resolve,
    viewport_relative,
    Dimension,
    CELLS_MAX,
    CELLS_MIN,
};
use crate::misc::generic_dimension_calc;
use crate::pixel::Pixel;
use crate::renderer_object_style::{plain_style, RendererObjectStyle};

verus! {

/// The largest extent of a viewport, and the widest margin round a buffer.
pub const VIEW_MAX: i64 = 0xffff;

/// An extent of the viewport, or a margin: kept between 0 and `VIEW_MAX`.
pub open spec fn view_extent(v: int) -> int {
    clamp(v, 0, VIEW_MAX as int)
}

/// An extent of a node: kept between 0 and `CELLS_MAX`.
pub open spec fn size_extent(v: int) -> int {
    clamp(v, 0, CELLS_MAX as int)
}

/// A position: kept between `CELLS_MIN` and `CELLS_MAX`.
pub open spec fn position(v: int) -> int {
    clamp(v, CELLS_MIN as int, CELLS_MAX as int)
}

/// The rows of cells that a buffer holds.
pub open spec fn cells(b: Vec<Vec<Pixel>>) -> Seq<Seq<Pixel>> {
    Seq::new(b@.len(), |r: int| b@[r]@)
}

/// A grid of `rows` by `cols` cells, all alike.
pub open spec fn blank_grid(rows: int, cols: int, cell: Pixel) -> Seq<Seq<Pixel>> {
    Seq::new(rows as nat, |r: int| Seq::new(cols as nat, |c: int| cell))
}

/// The length of the longest of the first `n` lines.
pub open spec fn lines_width(lines: Seq<Vec<char>>, n: int) -> int
    decreases n,
{
    if n <= 0 {
        0
    } else {
        max_of(lines_width(lines, n - 1), lines[n - 1]@.len() as int)
    }
}

/// The length of the longest line of the first `n` frames.
pub open spec fn frames_width(frames: Seq<Vec<Vec<char>>>, n: int) -> int
    decreases n,
{
    if n <= 0 {
        0
    } else {
        max_of(frames_width(frames, n - 1), lines_width(frames[n - 1]@, frames[n - 1]@.len() as int))
    }
}

/// The number of lines of the tallest of the first `n` frames.
pub open spec fn frames_height(frames: Seq<Vec<Vec<char>>>, n: int) -> int
    decreases n,
{
    if n <= 0 {
        0
    } else {
        max_of(frames_height(frames, n - 1), frames[n - 1]@.len() as int)
    }
}

/// A node of the scene graph.
#[derive(Debug)]
pub struct RendererObject {
    /// Where the node stands in its parent, and how large it is.
    pub x: Dimension,
    pub y: Dimension,
    pub width: Dimension,
    pub height: Dimension,
    /// Where the node stood on the screen when it was last painted.
    pub absolute_x: i32,
    pub absolute_y: i32,
    /// The extents of the parent and of the viewport at the last layout.
    pub parent_width: u32,
    pub parent_height: u32,
    pub renderer_width: u16,
    pub renderer_height: u16,
    /// The extents that the last layout gave the node.
    pub calculated_width: u32,
    pub calculated_height: u32,
    /// The extents must be computed again.
    pub update_size: bool,
    /// The buffer must be painted again.
    pub update_content: bool,
    /// Something but the position has changed since the signals were last
    /// gathered.
    pub changed: bool,
    /// The position has changed since the signals were last gathered.
    pub moved: bool,
    pub default_character: char,
    pub text: Vec<Vec<char>>,
    pub pattern: Vec<Vec<char>>,
    pub animation: Vec<Vec<Vec<char>>>,
    pub current_animation_frame: i64,
    pub animated_pattern: Vec<Vec<Vec<char>>>,
    pub current_animated_pattern_frame: i64,
    pub colors: Vec<ColorArea>,
    pub default_background_color: Color,
    pub default_foreground_color: Color,
    pub children: Vec<RendererObject>,
    pub style: RendererObjectStyle,
    /// The node's place among the children of its parent.
    pub parent_location: usize,
    /// The painted cells: the part of the node that the viewport shows, and
    /// a margin round it.
    pub buffer: Vec<Vec<Pixel>>,
}

/// A node, for those who tell the node as a value from a handle to it. Here
/// the two are one.
pub type RendererObjectValue = RendererObject;

/// Whether two nodes hold the same: the same geometry, content, decoration
/// and place, whatever their children and the state of their layout.
pub open spec fn same_content(a: RendererObject, b: RendererObject) -> bool {
    &&& a.x == b.x
    &&& a.y == b.y
    &&& a.width == b.width
    &&& a.height == b.height
    &&& a.default_character == b.default_character
    &&& a.text == b.text
    &&& a.pattern == b.pattern
    &&& a.animation == b.animation
    &&& a.current_animation_frame == b.current_animation_frame
    &&& a.animated_pattern == b.animated_pattern
    &&& a.current_animated_pattern_frame == b.current_animated_pattern_frame
    &&& a.colors == b.colors
    &&& a.default_background_color == b.default_background_color
    &&& a.default_foreground_color == b.default_foreground_color
    &&& a.style == b.style
    &&& a.parent_location == b.parent_location
}

/// Whether two nodes were laid out alike: for the same parent and viewport,
/// to the same extents.
pub open spec fn same_layout(a: RendererObject, b: RendererObject) -> bool {
    &&& a.parent_width == b.parent_width
    &&& a.parent_height == b.parent_height
    &&& a.renderer_width == b.renderer_width
    &&& a.renderer_height == b.renderer_height
    &&& a.calculated_width == b.calculated_width
    &&& a.calculated_height == b.calculated_height
}

/// Whether two nodes carry the same signals of change.
pub open spec fn same_signals(a: RendererObject, b: RendererObject) -> bool {
    a.changed == b.changed && a.moved == b.moved
}

/// Whether two nodes stood at the same place when they were last painted.
pub open spec fn same_place(a: RendererObject, b: RendererObject) -> bool {
    a.absolute_x == b.absolute_x && a.absolute_y == b.absolute_y
}

impl RendererObject {
    /// Whether the node's extents are taken of its parent.
    pub open spec fn sized_by_parent(&self) -> bool {
        parent_relative(self.width) || parent_relative(self.height)
    }

    /// Whether the node's place or extents are taken of its parent.
    pub open spec fn tied_to_parent(&self) -> bool {
        parent_relative(self.x) || parent_relative(self.y) || parent_relative(self.width)
            || parent_relative(self.height)
    }

    /// Whether the node's place or extents are taken of the viewport.
    pub open spec fn tied_to_viewport(&self) -> bool {
        viewport_relative(self.x) || viewport_relative(self.y) || viewport_relative(self.width)
            || viewport_relative(self.height)
    }

    /// Whether the node is new: without content, children or decoration,
    /// with every dimension `Auto`, and still to be laid out and painted.
    pub open spec fn is_new(&self) -> bool {
        &&& self.x is Auto
        &&& self.y is Auto
        &&& self.width is Auto
        &&& self.height is Auto
        &&& self.absolute_x == 0
        &&& self.absolute_y == 0
        &&& self.parent_width == 0
        &&& self.parent_height == 0
        &&& self.renderer_width == 0
        &&& self.renderer_height == 0
        &&& self.calculated_width == 0
        &&& self.calculated_height == 0
        &&& self.update_size
        &&& self.update_content
        &&& !self.changed
        &&& !self.moved
        &&& self.default_character == '\0'
        &&& self.text@.len() == 0
        &&& self.pattern@.len() == 0
        &&& self.animation@.len() == 0
        &&& self.current_animation_frame == 0
        &&& self.animated_pattern@.len() == 0
        &&& self.current_animated_pattern_frame == 0
        &&& self.colors@.len() == 0
        &&& self.default_background_color == (Color {
            red: 0,
            green: 0,
            blue: 0,
            alpha: 0,
            valid: true,
        })
        &&& self.default_foreground_color == opaque(255, 255, 255)
        &&& self.children@.len() == 0
        &&& self.style == plain_style()
        &&& self.parent_location == 0
        &&& self.buffer@.len() == 0
    }

    /// Whether one of the first `n` children reports a change.
    pub open spec fn child_reports(&self, n: int) -> bool
        decreases *self, 0int, n,
    {
        if n <= 0 || n > self.children@.len() {
            false
        } else {
            self.child_reports(n - 1) || self.children@[n - 1].reports()
        }
    }

    /// Whether the node must be painted again because it or one of its
    /// descendants has changed.
    pub open spec fn needs_update(&self) -> bool
        decreases *self, 1int, 0int,
    {
        self.changed || self.child_reports(self.children@.len() as int)
    }

    /// Whether the node's parent must be painted again: the node has moved,
    /// or it must be painted again itself.
    pub open spec fn reports(&self) -> bool
        decreases *self, 2int, 0int,
    {
        self.moved || self.needs_update()
    }

    /// Whether the viewport or the parent that a layout is made for differs
    /// from the last in a way that the node's geometry depends on, or the
    /// node was already waiting for its extents.
    pub open spec fn stale_by_inputs(&self, vw: int, vh: int, pw: int, ph: int) -> bool {
        ||| self.update_size
        ||| ((vw != self.renderer_width || vh != self.renderer_height) && self.tied_to_viewport())
        ||| ((pw != self.parent_width || ph != self.parent_height) && self.tied_to_parent())
    }

    /// The number of cells of the node's width that the viewport shows.
    pub open spec fn visible_width(&self) -> int {
        clamp(-self.absolute_x + self.renderer_width, 0, self.calculated_width as int) - clamp(
            -self.absolute_x as int,
            0,
            self.calculated_width as int,
        )
    }

    /// The number of cells of the node's height that the viewport shows.
    pub open spec fn visible_height(&self) -> int {
        clamp(-self.absolute_y + self.renderer_height, 0, self.calculated_height as int) - clamp(
            -self.absolute_y as int,
            0,
            self.calculated_height as int,
        )
    }

    /// The number of columns of the node's buffer, for a margin `pad`.
    pub open spec fn buffer_width(&self, pad: int) -> int {
        self.visible_width() + 2 * pad
    }

    /// The number of rows of the node's buffer, for a margin `pad`.
    pub open spec fn buffer_height(&self, pad: int) -> int {
        self.visible_height() + 2 * pad
    }
}

/// Whether a child counts for its parent's width: neither its place nor its
/// width is taken of the parent.
pub open spec fn counts_across(kid: RendererObject) -> bool {
    !parent_relative(kid.x) && !parent_relative(kid.width)
}

/// Whether a child counts for its parent's height.
pub open spec fn counts_down(kid: RendererObject) -> bool {
    !parent_relative(kid.y) && !parent_relative(kid.height)
}

/// How far to the right the first `n` children reach that count for the
/// width, or 0.
pub open spec fn kids_right(kids: Seq<RendererObject>, vw: int, vh: int, n: int) -> int
    decreases n,
{
    if n <= 0 {
        0
    } else if counts_across(kids[n - 1]) {
        max_of(
            kids_right(kids, vw, vh, n - 1),
            kids[n - 1].calculated_width + resolve(kids[n - 1].x, 0, 0, vw, vh, true),
        )
    } else {
        kids_right(kids, vw, vh, n - 1)
    }
}

/// How far down the first `n` children reach that count for the height, or
/// 0.
pub open spec fn kids_bottom(kids: Seq<RendererObject>, vw: int, vh: int, n: int) -> int
    decreases n,
{
    if n <= 0 {
        0
    } else if counts_down(kids[n - 1]) {
        max_of(
            kids_bottom(kids, vw, vh, n - 1),
            kids[n - 1].calculated_height + resolve(kids[n - 1].y, 0, 0, vw, vh, false),
        )
    } else {
        kids_bottom(kids, vw, vh, n - 1)
    }
}

/// The width that a node takes with the children `kids`: what its width
/// comes to, or for `Auto` the width of the widest among its children that
/// count, its text and its animation.
pub open spec fn natural_width(
    node: RendererObject,
    kids: Seq<RendererObject>,
    pw: int,
    ph: int,
    vw: int,
    vh: int,
) -> int {
    if node.width is Auto {
        size_extent(
            max_of(
                max_of(
                    kids_right(kids, vw, vh, kids.len() as int),
                    lines_width(node.text@, node.text@.len() as int),
                ),
                frames_width(node.animation@, node.animation@.len() as int),
            ),
        )
    } else {
        size_extent(resolve(node.width, pw, ph, vw, vh, true))
    }
}

/// The height that a node takes with the children `kids`.
pub open spec fn natural_height(
    node: RendererObject,
    kids: Seq<RendererObject>,
    pw: int,
    ph: int,
    vw: int,
    vh: int,
) -> int {
    if node.height is Auto {
        size_extent(
            max_of(
                max_of(kids_bottom(kids, vw, vh, kids.len() as int), node.text@.len() as int),
                frames_height(node.animation@, node.animation@.len() as int),
            ),
        )
    } else {
        size_extent(resolve(node.height, pw, ph, vw, vh, false))
    }
}

/// The children as a layout sees them when it takes the node's own
/// extents: those that are not sized by the node have been laid out
/// already; the others have not.
pub open spec fn seen_children(pre: RendererObject, post: RendererObject) -> Seq<RendererObject> {
    Seq::new(
        pre.children@.len(),
        |i: int|
            if !pre.children@[i].sized_by_parent() {
                post.children@[i]
            } else {
                pre.children@[i]
            },
    )
}

/// Whether one of the first `n` children is to be painted again.
pub open spec fn any_due(kids: Seq<RendererObject>, n: int) -> bool
    decreases n,
{
    if n <= 0 {
        false
    } else {
        any_due(kids, n - 1) || kids[n - 1].update_content
    }
}

/// What a layout decides for a node with the children `kids`: whether the
/// extents were taken again, and the extents.
pub open spec fn layout_of(
    pre: RendererObject,
    kids: Seq<RendererObject>,
    vw: int,
    vh: int,
    pw: int,
    ph: int,
) -> (bool, int, int) {
    let natural = (
        natural_width(pre, kids, pw, ph, vw, vh),
        natural_height(pre, kids, pw, ph, vw, vh),
    );
    let cached = (pre.calculated_width as int, pre.calculated_height as int);
    let resized = (pre.width is Auto || pre.height is Auto) && natural != cached;
    let stale = pre.stale_by_inputs(vw, vh, pw, ph) || resized;
    if resized || (stale && !(pre.width is Auto) && !(pre.height is Auto)) {
        (true, natural.0, natural.1)
    } else {
        (stale, cached.0, cached.1)
    }
}

/// Whether `post` is `pre` after a layout for a viewport, a parent and a
/// margin.
///
/// The layout goes in five steps. It marks the extents as stale where the
/// viewport or the parent has changed and the geometry depends on it. It
/// lays out the children that are not sized by the node, as under a parent
/// without extents. It takes the extents of an `Auto` axis from the content,
/// and marks them as stale where they have changed. If the extents are stale
/// it resolves them, unless an axis is `Auto`, and gives the node a blank
/// buffer for the part that shows and a margin round it. It lays out the
/// children that are sized by the node. A node whose extents were stale, or
/// one of whose children is to be painted again, is to be painted again.
pub open spec fn laid_out(
    pre: RendererObject,
    post: RendererObject,
    renderer_width: int,
    renderer_height: int,
    parent_width: int,
    parent_height: int,
    renderer_padding: int,
) -> bool
    decreases pre,
{
    let vw = view_extent(renderer_width);
    let vh = view_extent(renderer_height);
    let pw = size_extent(parent_width);
    let ph = size_extent(parent_height);
    let pad = view_extent(renderer_padding);
    let decided = layout_of(pre, seen_children(pre, post), vw, vh, pw, ph);
    let stale = decided.0;
    &&& same_content(pre, post)
    &&& same_signals(pre, post)
    &&& same_place(pre, post)
    &&& post.renderer_width == vw
    &&& post.renderer_height == vh
    &&& post.parent_width == pw
    &&& post.parent_height == ph
    &&& post.calculated_width == decided.1
    &&& post.calculated_height == decided.2
    &&& !post.update_size
    &&& post.update_content == (pre.update_content || stale || any_due(
        post.children@,
        post.children@.len() as int,
    ))
    &&& if stale {
        cells(post.buffer) == blank_grid(
            post.buffer_height(pad),
            post.buffer_width(pad),
            Pixel {
                value: ' ',
                background: post.default_background_color,
                foreground: post.default_foreground_color,
            },
        )
    } else {
        post.buffer == pre.buffer
    }
    &&& post.children@.len() == pre.children@.len()
    &&& forall|i: int|
        0 <= i < pre.children@.len() ==> if (#[trigger] pre.children@[i]).sized_by_parent() {
            laid_out(pre.children@[i], post.children@[i], vw, vh, decided.1, decided.2, pad)
        } else {
            laid_out(pre.children@[i], post.children@[i], vw, vh, 0, 0, pad)
        }
}

/// Whether `post` is `pre` after the signals of change were gathered: no
/// node of it carries a signal any more, and every node that had changed, or
/// below which something had changed or moved, is to be painted again.
pub open spec fn gathered(pre: RendererObject, post: RendererObject) -> bool
    decreases pre,
{
    &&& same_content(pre, post)
    &&& same_layout(pre, post)
    &&& same_place(pre, post)
    &&& post.buffer == pre.buffer
    &&& post.update_size == pre.update_size
    &&& post.update_content == (pre.update_content || pre.needs_update())
    &&& !post.changed
    &&& !post.moved
    &&& post.children@.len() == pre.children@.len()
    &&& forall|i: int|
        0 <= i < pre.children@.len() ==> gathered(#[trigger] pre.children@[i], post.children@[i])
}

/// An extent of the viewport, kept in range.
pub fn view_extent_exec(v: i64) -> (r: u16)
    ensures
        r == view_extent(v as int),
{
    if v < 0 {
        0
    } else if v > VIEW_MAX {
        0xffff
    } else {
        v as u16
    }
}

/// An extent of a node, kept in range.
pub fn size_extent_exec(v: i128) -> (r: u32)
    ensures
        r == size_extent(v as int),
{
    if v < 0 {
        0
    } else if v > 0x7fff_ffff {
        0x7fff_ffff
    } else {
        v as u32
    }
}

/// A position, kept in range.
pub fn position_exec(v: i128) -> (r: i32)
    ensures
        r == position(v as int),
{
    if v < -0x8000_0000 {
        -0x8000_0000
    } else if v > 0x7fff_ffff {
        0x7fff_ffff
    } else {
        v as i32
    }
}

/// `v` kept between `lo` and `hi`.
pub fn clamp_exec(v: i128, lo: i128, hi: i128) -> (r: i128)
    ensures
        r == clamp(v as int, lo as int, hi as int),
{
    if v < lo {
        lo
    } else if v > hi {
        hi
    } else {
        v
    }
}

/// A grid of `rows` by `cols` cells, all alike.
pub fn blank(rows: usize, cols: usize, cell: Pixel) -> (b: Vec<Vec<Pixel>>)
    ensures
        cells(b) == blank_grid(rows as int, cols as int, cell),
{
    let mut b: Vec<Vec<Pixel>> = Vec::new();
    let mut r: usize = 0;
    while r < rows
        invariant
            r <= rows,
            b@.len() == r,
            forall|k: int| 0 <= k < r ==> (#[trigger] b@[k])@ == Seq::new(cols as nat, |c: int| cell),
        decreases rows - r,
    {
        let mut row: Vec<Pixel> = Vec::new();
        let mut c: usize = 0;
        while c < cols
            invariant
                c <= cols,
                row@.len() == c,
                forall|k: int| 0 <= k < c ==> row@[k] == cell,
            decreases cols - c,
        {
            row.push(cell);
            c += 1;
        }
        assert(row@ =~= Seq::new(cols as nat, |c: int| cell));
        b.push(row);
        r += 1;
    }
    assert(cells(b) =~= blank_grid(rows as int, cols as int, cell));
    b
}

fn lines_width_exec(lines: &Vec<Vec<char>>) -> (w: usize)
    ensures
        w == lines_width(lines@, lines@.len() as int),
{
    let mut w: usize = 0;
    let mut k: usize = 0;
    while k < lines.len()
        invariant
            k <= lines.len(),
            w == lines_width(lines@, k as int),
        decreases lines.len() - k,
    {
        if lines[k].len() > w {
            w = lines[k].len();
        }
        k += 1;
    }
    w
}

fn frames_width_exec(frames: &Vec<Vec<Vec<char>>>) -> (w: usize)
    ensures
        w == frames_width(frames@, frames@.len() as int),
{
    let mut w: usize = 0;
    let mut k: usize = 0;
    while k < frames.len()
        invariant
            k <= frames.len(),
            w == frames_width(frames@, k as int),
        decreases frames.len() - k,
    {
        let f: usize = lines_width_exec(&frames[k]);
        if f > w {
            w = f;
        }
        k += 1;
    }
    w
}

fn frames_height_exec(frames: &Vec<Vec<Vec<char>>>) -> (h: usize)
    ensures
        h == frames_height(frames@, frames@.len() as int),
{
    let mut h: usize = 0;
    let mut k: usize = 0;
    while k < frames.len()
        invariant
            k <= frames.len(),
            h == frames_height(frames@, k as int),
        decreases frames.len() - k,
    {
        if frames[k].len() > h {
            h = frames[k].len();
        }
        k += 1;
    }
    h
}

impl RendererObject {
    /// A new node: without content, children or decoration, with every
    /// dimension `Auto`, transparent behind white, still to be laid out and
    /// painted.
    pub fn new() -> (node: RendererObject)
        ensures
            node.is_new(),
    {
        RendererObject {
            x: Dimension::Auto,
            y: Dimension::Auto,
            width: Dimension::Auto,
            height: Dimension::Auto,
            absolute_x: 0,
            absolute_y: 0,
            parent_width: 0,
            parent_height: 0,
            renderer_width: 0,
            renderer_height: 0,
            calculated_width: 0,
            calculated_height: 0,
            update_size: true,
            update_content: true,
            changed: false,
            moved: false,
            default_character: '\0',
            text: Vec::new(),
            pattern: Vec::new(),
            animation: Vec::new(),
            current_animation_frame: 0,
            animated_pattern: Vec::new(),
            current_animated_pattern_frame: 0,
            colors: Vec::new(),
            default_background_color: Color { red: 0, green: 0, blue: 0, alpha: 0, valid: true },
            default_foreground_color: Color {
                red: 255,
                green: 255,
                blue: 255,
                alpha: 255,
                valid: true,
            },
            children: Vec::new(),
            style: RendererObjectStyle::new(),
            parent_location: 0,
            buffer: Vec::new(),
        }
    }

    /// Marks the node to be painted again, and leaves the signal for its
    /// ancestors.
    pub fn update(&mut self)
        ensures
            same_content(*old(self), *final(self)),
            same_layout(*old(self), *final(self)),
            same_place(*old(self), *final(self)),
            final(self).children == old(self).children,
            final(self).buffer == old(self).buffer,
            final(self).update_size == old(self).update_size,
            final(self).moved == old(self).moved,
            final(self).update_content,
            final(self).changed,
    {
        self.update_content = true;
        self.changed = true;
    }

    /// Leaves the signal that the node's parent must be painted again; the
    /// node itself need not be.
    pub fn update_parent(&mut self)
        ensures
            same_content(*old(self), *final(self)),
            same_layout(*old(self), *final(self)),
            same_place(*old(self), *final(self)),
            final(self).children == old(self).children,
            final(self).buffer == old(self).buffer,
            final(self).update_size == old(self).update_size,
            final(self).update_content == old(self).update_content,
            final(self).changed == old(self).changed,
            final(self).moved,
    {
        self.moved = true;
    }

    /// Gathers the signals of change from the leaves up. Every node that has
    /// changed, or below which something has changed or moved, is marked to
    /// be painted again, and all signals are taken away. The result says
    /// whether the node's parent must be painted again.
    pub fn update_value(&mut self) -> (update_parent: bool)
        ensures
            gathered(*old(self), *final(self)),
            update_parent == old(self).reports(),
        decreases *old(self),
    {
        let mut update: bool = self.changed;
        let n: usize = self.children.len();
        let mut k: usize = 0;
        while k < n
            invariant
                k <= n,
                n == old(self).children@.len(),
                self.children@.len() == n,
                same_content(*old(self), *self),
                same_layout(*old(self), *self),
                same_place(*old(self), *self),
                self.buffer == old(self).buffer,
                self.update_size == old(self).update_size,
                self.update_content == old(self).update_content,
                self.changed == old(self).changed,
                self.moved == old(self).moved,
                update == (old(self).changed || old(self).child_reports(k as int)),
                forall|i: int|
                    0 <= i < k ==> gathered(#[trigger] old(self).children@[i], self.children@[i]),
                forall|i: int| k <= i < n ==> self.children@[i] == old(self).children@[i],
            decreases n - k,
        {
            let reported: bool = self.children[k].update_value();
            update = reported || update;
            k += 1;
        }
        let update_parent: bool = self.moved || update;
        if update {
            self.update_content = true;
        }
        self.changed = false;
        self.moved = false;
        update_parent
    }

    /// The extents that the node takes for a parent and a viewport: what
    /// its dimensions come to, and for an `Auto` axis the extent of its
    /// content.
    pub fn calculate_geometry(
        &self,
        parent_width: i64,
        parent_height: i64,
        renderer_width: i64,
        renderer_height: i64,
    ) -> (size: (u32, u32))
        ensures
            size.0 == natural_width(
                *self,
                self.children@,
                parent_width as int,
                parent_height as int,
                renderer_width as int,
                renderer_height as int,
            ),
            size.1 == natural_height(
                *self,
                self.children@,
                parent_width as int,
                parent_height as int,
                renderer_width as int,
                renderer_height as int,
            ),
    {
        let width: u32 = if self.width.is_auto() {
            let mut reach: i128 = 0;
            let mut k: usize = 0;
            while k < self.children.len()
                invariant
                    k <= self.children@.len(),
                    reach == kids_right(
                        self.children@,
                        renderer_width as int,
                        renderer_height as int,
                        k as int,
                    ),
                    0 <= reach <= 0x1_0000_0000_0000_0000_0000,
                decreases self.children.len() - k,
            {
                let kid = &self.children[k];
                if !kid.x.is_parent_relative() && !kid.width.is_parent_relative() {
                    let right: i128 = kid.calculated_width as i128 + generic_dimension_calc(
                        &kid.x,
                        0,
                        0,
                        renderer_width,
                        renderer_height,
                        true,
                    ) as i128;
                    if right > reach {
                        reach = right;
                    }
                }
                k += 1;
            }
            let text: usize = lines_width_exec(&self.text);
            if text as i128 > reach {
                reach = text as i128;
            }
            let frames: usize = frames_width_exec(&self.animation);
            if frames as i128 > reach {
                reach = frames as i128;
            }
            size_extent_exec(reach)
        } else {
            size_extent_exec(
                generic_dimension_calc(
                    &self.width,
                    parent_width,
                    parent_height,
                    renderer_width,
                    renderer_height,
                    true,
                ) as i128,
            )
        };
        let height: u32 = if self.height.is_auto() {
            let mut reach: i128 = 0;
            let mut k: usize = 0;
            while k < self.children.len()
                invariant
                    k <= self.children@.len(),
                    reach == kids_bottom(
                        self.children@,
                        renderer_width as int,
                        renderer_height as int,
                        k as int,
                    ),
                    0 <= reach <= 0x1_0000_0000_0000_0000_0000,
                decreases self.children.len() - k,
            {
                let kid = &self.children[k];
                if !kid.y.is_parent_relative() && !kid.height.is_parent_relative() {
                    let bottom: i128 = kid.calculated_height as i128 + generic_dimension_calc(
                        &kid.y,
                        0,
                        0,
                        renderer_width,
                        renderer_height,
                        false,
                    ) as i128;
                    if bottom > reach {
                        reach = bottom;
                    }
                }
                k += 1;
            }
            let text: usize = self.text.len();
            if text as i128 > reach {
                reach = text as i128;
            }
            let frames: usize = frames_height_exec(&self.animation);
            if frames as i128 > reach {
                reach = frames as i128;
            }
            size_extent_exec(reach)
        } else {
            size_extent_exec(
                generic_dimension_calc(
                    &self.height,
                    parent_width,
                    parent_height,
                    renderer_width,
                    renderer_height,
                    false,
                ) as i128,
            )
        };
        (width, height)
    }

    fn is_sized_by_parent(&self) -> (b: bool)
        ensures
            b == self.sized_by_parent(),
    {
        self.width.is_parent_relative() || self.height.is_parent_relative()
    }

    fn is_tied_to_parent(&self) -> (b: bool)
        ensures
            b == self.tied_to_parent(),
    {
        self.x.is_parent_relative() || self.y.is_parent_relative()
            || self.width.is_parent_relative() || self.height.is_parent_relative()
    }

    fn is_tied_to_viewport(&self) -> (b: bool)
        ensures
            b == self.tied_to_viewport(),
    {
        self.x.is_viewport_relative() || self.y.is_viewport_relative()
            || self.width.is_viewport_relative() || self.height.is_viewport_relative()
    }

    pub(crate) fn visible_width_exec(&self) -> (w: i128)
        ensures
            w == self.visible_width(),
            0 <= w <= 0xffff,
    {
        let a: i128 = -(self.absolute_x as i128);
        let cw: i128 = self.calculated_width as i128;
        clamp_exec(a + self.renderer_width as i128, 0, cw) - clamp_exec(a, 0, cw)
    }

    pub(crate) fn visible_height_exec(&self) -> (h: i128)
        ensures
            h == self.visible_height(),
            0 <= h <= 0xffff,
    {
        let a: i128 = -(self.absolute_y as i128);
        let ch: i128 = self.calculated_height as i128;
        clamp_exec(a + self.renderer_height as i128, 0, ch) - clamp_exec(a, 0, ch)
    }

    /// Takes the node's extents where they are due, and gives the node a
    /// blank buffer where they were taken. The viewport and the parent are
    /// those of the last layout. The result says whether the extents were
    /// taken again.
    fn settle_size(&mut self, pad: u16) -> (stale: bool)
        ensures
            same_content(*old(self), *final(self)),
            same_signals(*old(self), *final(self)),
            same_place(*old(self), *final(self)),
            final(self).children == old(self).children,
            final(self).renderer_width == old(self).renderer_width,
            final(self).renderer_height == old(self).renderer_height,
            final(self).parent_width == old(self).parent_width,
            final(self).parent_height == old(self).parent_height,
            ({
                let decided = layout_of(
                    *old(self),
                    old(self).children@,
                    old(self).renderer_width as int,
                    old(self).renderer_height as int,
                    old(self).parent_width as int,
                    old(self).parent_height as int,
                );
                &&& stale == decided.0
                &&& final(self).calculated_width == decided.1
                &&& final(self).calculated_height == decided.2
                &&& final(self).update_content == (old(self).update_content || stale)
                &&& !final(self).update_size
                &&& if stale {
                    cells(final(self).buffer) == blank_grid(
                        final(self).buffer_height(pad as int),
                        final(self).buffer_width(pad as int),
                        Pixel {
                            value: ' ',
                            background: final(self).default_background_color,
                            foreground: final(self).default_foreground_color,
                        },
                    )
                } else {
                    final(self).buffer == old(self).buffer
                }
            }),
    {
        let vw: i64 = self.renderer_width as i64;
        let vh: i64 = self.renderer_height as i64;
        let pw: i64 = self.parent_width as i64;
        let ph: i64 = self.parent_height as i64;
        // The extents of an axis that the content decides.
        if self.width.is_auto() || self.height.is_auto() {
            let natural = self.calculate_geometry(pw, ph, vw, vh);
            if natural.0 != self.calculated_width || natural.1 != self.calculated_height {
                self.calculated_width = natural.0;
                self.calculated_height = natural.1;
                self.update_size = true;
            }
        }
        // The extents that the dimensions come to, and a blank buffer.

        let stale: bool = self.update_size;
        if stale {
            self.update_content = true;
            if !self.width.is_auto() && !self.height.is_auto() {
                let natural = self.calculate_geometry(pw, ph, vw, vh);
                self.calculated_width = natural.0;
                self.calculated_height = natural.1;
            }
            let rows: i128 = self.visible_height_exec() + 2 * (pad as i128);
            let cols: i128 = self.visible_width_exec() + 2 * (pad as i128);
            self.buffer = blank(
                rows as usize,
                cols as usize,
                Pixel {
                    value: ' ',
                    background: self.default_background_color,
                    foreground: self.default_foreground_color,
                },
            );
            self.update_size = false;
        }
        stale
    }

    /// Lays the node and its descendants out for a viewport, a parent and
    /// the margin of the buffers.
    ///
    /// The extents of the viewport and the margin are kept between 0 and
    /// `VIEW_MAX`, those of the parent between 0 and `CELLS_MAX`.
    pub fn process_geometry(
        &mut self,
        renderer_width: i64,
        renderer_height: i64,
        parent_width: i64,
        parent_height: i64,
        renderer_padding: i64,
    )
        ensures
            laid_out(
                *old(self),
                *final(self),
                renderer_width as int,
                renderer_height as int,
                parent_width as int,
                parent_height as int,
                renderer_padding as int,
            ),
        decreases *old(self),
    {
        let vw: u16 = view_extent_exec(renderer_width);
        let vh: u16 = view_extent_exec(renderer_height);
        let pw: u32 = size_extent_exec(parent_width as i128);
        let ph: u32 = size_extent_exec(parent_height as i128);
        let pad: u16 = view_extent_exec(renderer_padding);
        let n: usize = self.children.len();

        // The viewport and the parent, and whether the geometry hangs on them.
        if ((vw != self.renderer_width || vh != self.renderer_height) && self.is_tied_to_viewport())
            || ((pw != self.parent_width || ph != self.parent_height) && self.is_tied_to_parent()) {
            self.update_size = true;
        }
        self.renderer_width = vw;
        self.renderer_height = vh;
        self.parent_width = pw;
        self.parent_height = ph;
        let ghost stale_in = old(self).stale_by_inputs(vw as int, vh as int, pw as int, ph as int);
        assert(self.update_size == stale_in);

        // The children that are not sized by this node.
        let mut k: usize = 0;
        while k < n
            invariant
                k <= n,
                n == old(self).children@.len(),
                self.children@.len() == n,
                same_content(*old(self), *self),
                same_signals(*old(self), *self),
                same_place(*old(self), *self),
                self.buffer == old(self).buffer,
                self.update_size == stale_in,
                self.update_content == old(self).update_content,
                self.renderer_width == vw,
                self.renderer_height == vh,
                self.parent_width == pw,
                self.parent_height == ph,
                self.calculated_width == old(self).calculated_width,
                self.calculated_height == old(self).calculated_height,
                vw == view_extent(renderer_width as int),
                vh == view_extent(renderer_height as int),
                pad == view_extent(renderer_padding as int),
                forall|i: int|
                    0 <= i < k ==> if (#[trigger] old(self).children@[i]).sized_by_parent() {
                        self.children@[i] == old(self).children@[i]
                    } else {
                        laid_out(
                            old(self).children@[i],
                            self.children@[i],
                            vw as int,
                            vh as int,
                            0,
                            0,
                            pad as int,
                        )
                    },
                forall|i: int| k <= i < n ==> self.children@[i] == old(self).children@[i],
            decreases n - k,
        {
            if !self.children[k].is_sized_by_parent() {
                self.children[k].process_geometry(vw as i64, vh as i64, 0, 0, pad as i64);
            }
            k += 1;
        }
        let ghost mid = self.children@;
        assert(mid =~= seen_children(*old(self), *self));

        // The extents, and a blank buffer where they were taken again.
        let ghost entry = *self;
        self.settle_size(pad);
        let ghost decided = layout_of(*old(self), mid, vw as int, vh as int, pw as int, ph as int);
        assert(decided == layout_of(entry, mid, vw as int, vh as int, pw as int, ph as int));

        // The children that are sized by this node.
        let ghost settled = *self;
        assert forall|i: int| 0 <= i < n implies (#[trigger] old(self).children@[i]).sized_by_parent()
            == mid[i].sized_by_parent() by {
            if !old(self).children@[i].sized_by_parent() {
                assert(same_content(old(self).children@[i], mid[i]));
            }
        }
        let cw: i64 = self.calculated_width as i64;
        let ch: i64 = self.calculated_height as i64;
        let mut k: usize = 0;
        while k < n
            invariant
                k <= n,
                n == old(self).children@.len(),
                self.children@.len() == n,
                mid.len() == n,
                *self == (RendererObject { children: self.children, ..settled }),
                cw == settled.calculated_width,
                ch == settled.calculated_height,
                vw == view_extent(renderer_width as int),
                vh == view_extent(renderer_height as int),
                pad == view_extent(renderer_padding as int),
                forall|i: int|
                    0 <= i < n ==> (#[trigger] old(self).children@[i]).sized_by_parent()
                        == mid[i].sized_by_parent(),
                forall|i: int|
                    0 <= i < n && (#[trigger] old(self).children@[i]).sized_by_parent() ==> mid[i]
                        == old(self).children@[i],
                forall|i: int|
                    0 <= i < k ==> if (#[trigger] mid[i]).sized_by_parent() {
                        laid_out(
                            mid[i],
                            self.children@[i],
                            vw as int,
                            vh as int,
                            cw as int,
                            ch as int,
                            pad as int,
                        )
                    } else {
                        self.children@[i] == mid[i]
                    },
                forall|i: int| k <= i < n ==> self.children@[i] == mid[i],
            decreases n - k,
        {
            assert(old(self).children@[k as int].sized_by_parent() == mid[k as int].sized_by_parent());
            if self.children[k].is_sized_by_parent() {
                self.children[k].process_geometry(vw as i64, vh as i64, cw, ch, pad as i64);
            }
            k += 1;
        }
        assert(seen_children(*old(self), *self) =~= mid);

        // A node below which something is to be painted is to be painted.
        let mut due: bool = false;
        let mut k: usize = 0;
        while k < n
            invariant
                k <= n,
                n == self.children@.len(),
                due == any_due(self.children@, k as int),
            decreases n - k,
        {
            if self.children[k].update_content {
                due = true;
            }
            k += 1;
        }
        if due {
            self.update_content = true;
        }
    }
}

} // verus!
