//! The frame driver: it lays the root node out for the terminal, has it
//! painted, and writes what differs from the frame before.
use vstd::prelude::*;
use crate::decimal::clamp;
use crate::geometry::resolve;
use crate::misc::{
    cell_bytes,
    cursor_sequence,
    generic_dimension_calc,
    hide_cursor_sequence,
    printable,
    reset_sequence,
    show_cursor_sequence,
    shown,
    BufferedConsole,
};
use crate::pixel::{empty_pixel, Pixel, Pixels};
use crate::renderer_object::{
    blank,
    blank_grid,
    cells,
    clamp_exec,
    gathered,
    laid_out,
    position_exec,
    view_extent,
    view_extent_exec,
    RendererObject,
};
use crate::renderer_object_paint::{composed, lemma_composed_by_place};
use crate::renderer_object_style::{offset_x, offset_x_exec, offset_y, offset_y_exec};

verus! {

/// The margin of the buffers of a new renderer.
pub const DEFAULT_PADDING: u16 = 5;

/// What a frame came to: the bytes that are to be written to the terminal in
/// one piece, and the number of cells that were written afresh.
pub struct Frame {
    pub bytes: Vec<u8>,
    pub updates: u64,
}

/// The frame driver.
pub struct Renderer {
    /// The cells that the terminal shows: what the frames so far have
    /// written.
    pub previous_buffer: Vec<Vec<Pixel>>,
    /// The extents of the terminal at the last frame.
    pub width: u16,
    pub height: u16,
    /// The margin of the buffers.
    pub padding: u16,
    /// The root of the scene.
    pub object: Option<RendererObject>,
    pub console: BufferedConsole,
    /// A frame is being drawn.
    pub drawing: bool,
    /// Frames are drawn but their bytes are dropped.
    pub disable_output: bool,
}

/// What has been written in the course of a frame: the bytes, the cell that
/// was written last and where, and the number of cells.
pub struct Emission {
    pub bytes: Seq<u8>,
    pub last_pixel: Pixel,
    pub last_row: int,
    pub last_column: int,
    pub updates: nat,
}

/// Whether `g` is a grid of `rows` by `cols` cells.
pub open spec fn is_grid(g: Seq<Seq<Pixel>>, rows: int, cols: int) -> bool {
    g.len() == rows && forall|r: int| 0 <= r < rows ==> (#[trigger] g[r]).len() == cols
}

/// The cells of the terminal as a frame finds them: those that the last
/// frame left, or none that is known where the terminal has another size
/// now.
pub open spec fn fitted(r: Renderer, w: int, h: int) -> Seq<Seq<Pixel>> {
    if r.width == w && r.height == h && is_grid(cells(r.previous_buffer), h, w) {
        cells(r.previous_buffer)
    } else {
        blank_grid(h, w, empty_pixel())
    }
}

/// The column of the screen at which the root's first column stands.
pub open spec fn root_left(root: RendererObject, w: int, h: int) -> int {
    (match root.style.external_alignment_x {
        Some(a) => offset_x(a, w, root.calculated_width as int),
        None => 0,
    }) + resolve(root.x, w, h, w, h, true)
}

/// The row of the screen at which the root's first row stands.
pub open spec fn root_top(root: RendererObject, w: int, h: int) -> int {
    (match root.style.external_alignment_y {
        Some(a) => offset_y(a, h, root.calculated_height as int),
        None => 0,
    }) + resolve(root.y, w, h, w, h, false)
}

/// Whether `post` is the root `pre` made ready for a frame on a terminal of
/// `w` by `h` cells: the signals of change gathered, the tree laid out with
/// the terminal as viewport and as parent, and the root painted at its place
/// on the screen.
pub open spec fn framed(pre: RendererObject, post: RendererObject, w: int, h: int, pad: int) -> bool {
    exists|a: RendererObject, b: RendererObject|
        #![trigger gathered(pre, a), laid_out(a, b, w, h, w, h, pad)]
        gathered(pre, a) && laid_out(a, b, w, h, w, h, pad) && composed(
            b,
            post,
            root_left(b, w, h),
            root_top(b, w, h),
            pad,
        )
}

/// What has been written after the cell at row `i` and column `j` had its
/// turn. A cell that shows what the terminal has there already is passed
/// over, unless every cell is asked for. Else the cursor is moved, unless
/// the cell written last stands just to the left, and the cell is written;
/// a cell that cannot be written is only counted.
pub open spec fn emit_cell(
    e: Emission,
    before: Pixel,
    now: Pixel,
    force: bool,
    i: int,
    j: int,
) -> Emission {
    if before != now || force {
        let bytes = if j == e.last_column + 1 && i == e.last_row {
            e.bytes
        } else {
            e.bytes + cursor_sequence(j, i)
        };
        if printable(shown(now)) {
            Emission {
                bytes: bytes + cell_bytes(e.last_pixel, shown(now)),
                last_pixel: shown(now),
                last_row: i,
                last_column: j,
                updates: e.updates + 1,
            }
        } else {
            Emission { bytes, updates: e.updates + 1, ..e }
        }
    } else {
        e
    }
}

/// What has been written after the cells of row `i` from column `sx` up to
/// column `j_end` had their turn, from left to right.
pub open spec fn emit_row(
    e: Emission,
    before: Seq<Pixel>,
    root: RendererObject,
    pad: int,
    top: int,
    left: int,
    force: bool,
    i: int,
    sx: int,
    j_end: int,
) -> Emission
    decreases j_end - sx,
{
    if j_end <= sx {
        e
    } else {
        emit_cell(
            emit_row(e, before, root, pad, top, left, force, i, sx, j_end - 1),
            before[j_end - 1],
            root.cell_at(pad, i - top, j_end - 1 - left),
            force,
            i,
            j_end - 1,
        )
    }
}

/// What has been written after the rows from `sy` up to `i_end` had their
/// turn, from the top down, each from column `sx` up to column `ex`.
pub open spec fn emit_rows(
    e: Emission,
    before: Seq<Seq<Pixel>>,
    root: RendererObject,
    pad: int,
    top: int,
    left: int,
    force: bool,
    sy: int,
    i_end: int,
    sx: int,
    ex: int,
) -> Emission
    decreases i_end - sy,
{
    if i_end <= sy {
        e
    } else {
        emit_row(
            emit_rows(e, before, root, pad, top, left, force, sy, i_end - 1, sx, ex),
            before[i_end - 1],
            root,
            pad,
            top,
            left,
            force,
            i_end - 1,
            sx,
            ex,
        )
    }
}

/// The cells of the terminal after a frame: what the root shows, where the
/// root is on the screen, and what was there before elsewhere.
pub open spec fn committed(
    before: Seq<Seq<Pixel>>,
    root: RendererObject,
    pad: int,
    top: int,
    left: int,
    sy: int,
    ey: int,
    sx: int,
    ex: int,
) -> Seq<Seq<Pixel>> {
    Seq::new(
        before.len(),
        |i: int|
            Seq::new(
                before[i].len(),
                |j: int|
                    if sy <= i < ey && sx <= j < ex {
                        root.cell_at(pad, i - top, j - left)
                    } else {
                        before[i][j]
                    },
            ),
    )
}

/// Whether `post` is the renderer `pre` after a frame for a terminal of the
/// size `size`, and `frame` what the frame came to.
///
/// Without a root, or while another frame is being drawn, nothing happens.
/// A terminal whose size is not known counts as one without any cell. The
/// root is made ready; then its cells on the screen have their turn, row by
/// row; then the cursor is put behind the last of them. The bytes end with
/// the reset of the colours, or are dropped if output is disabled.
pub open spec fn drawn(
    pre: Renderer,
    post: Renderer,
    size: Option<(u16, u16)>,
    force: bool,
    frame: Frame,
) -> bool {
    let w = match size {
        Some(s) => s.0 as int,
        None => 0,
    };
    let h = match size {
        Some(s) => s.1 as int,
        None => 0,
    };
    if pre.drawing || pre.object is None {
        &&& post.previous_buffer == pre.previous_buffer
        &&& post.width == pre.width
        &&& post.height == pre.height
        &&& post.padding == pre.padding
        &&& post.object == pre.object
        &&& post.console == pre.console
        &&& post.drawing == pre.drawing
        &&& post.disable_output == pre.disable_output
        &&& frame.bytes@.len() == 0
        &&& frame.updates == 0
    } else {
        let pad = pre.padding as int;
        let root = post.object->Some_0;
        let top = root_top(root, w, h);
        let left = root_left(root, w, h);
        let sx = clamp(left, 0, w);
        let ex = clamp(left + root.calculated_width, 0, w);
        let sy = clamp(top, 0, h);
        let ey = clamp(top + root.calculated_height, 0, h);
        let before = fitted(pre, w, h);
        let start = Emission {
            bytes: pre.console.buffer@,
            last_pixel: pre.console.last_pixel,
            last_row: -1,
            last_column: -1,
            updates: 0,
        };
        let e = emit_rows(start, before, root, pad, top, left, force, sy, ey, sx, ex);
        &&& post.width == w
        &&& post.height == h
        &&& post.padding == pre.padding
        &&& !post.drawing
        &&& post.disable_output == pre.disable_output
        &&& post.object is Some
        &&& framed(pre.object->Some_0, root, w, h, pad)
        &&& cells(post.previous_buffer) == committed(before, root, pad, top, left, sy, ey, sx, ex)
        &&& post.console.buffer@.len() == 0
        &&& post.console.last_pixel == empty_pixel()
        &&& frame.updates == e.updates
        &&& frame.bytes@ == (if pre.disable_output {
            Seq::<u8>::empty()
        } else {
            e.bytes + cursor_sequence(ex, ey) + reset_sequence()
        })
    }
}

/// Asks the operating system for the size of the terminal, through
/// `terminal_size::terminal_size`. The answer is the terminal's columns and
/// rows, or nothing where no standard stream is a terminal. Nothing is
/// claimed of it: it changes whenever the user resizes the window.
#[verifier::external_body]
fn query_terminal_size() -> (size: Option<(u16, u16)>) {
    match terminal_size::terminal_size() {
        Some((w, h)) => Some((w.0, h.0)),
        None => None,
    }
}

fn is_grid_exec(g: &Vec<Vec<Pixel>>, rows: usize, cols: usize) -> (b: bool)
    ensures
        b == is_grid(cells(*g), rows as int, cols as int),
{
    if g.len() != rows {
        return false;
    }
    let mut r: usize = 0;
    while r < rows
        invariant
            r <= rows,
            g@.len() == rows,
            forall|k: int| 0 <= k < r ==> (#[trigger] cells(*g)[k]).len() == cols,
        decreases rows - r,
    {
        if g[r].len() != cols {
            assert(cells(*g)[r as int].len() != cols);
            return false;
        }
        r += 1;
    }
    true
}

fn root_left_exec(root: &RendererObject, w: u16, h: u16) -> (left: i128)
    ensures
        left == root_left(*root, w as int, h as int),
        -0x1_0000_0000_0000_0000_0000 <= left <= 0x1_0000_0000_0000_0000_0000,
{
    let align: i128 = match root.style.external_alignment_x {
        Some(a) => offset_x_exec(a, w as i128, root.calculated_width as i128),
        None => 0,
    };
    align + generic_dimension_calc(&root.x, w as i64, h as i64, w as i64, h as i64, true) as i128
}

fn root_top_exec(root: &RendererObject, w: u16, h: u16) -> (top: i128)
    ensures
        top == root_top(*root, w as int, h as int),
        -0x1_0000_0000_0000_0000_0000 <= top <= 0x1_0000_0000_0000_0000_0000,
{
    let align: i128 = match root.style.external_alignment_y {
        Some(a) => offset_y_exec(a, h as i128, root.calculated_height as i128),
        None => 0,
    };
    align + generic_dimension_calc(&root.y, w as i64, h as i64, w as i64, h as i64, false) as i128
}

/// Makes the root ready for a frame on a terminal of `w` by `h` cells.
fn frame_root(root: &mut RendererObject, w: u16, h: u16, pad: u16)
    ensures
        framed(*old(root), *final(root), w as int, h as int, pad as int),
{
    root.update_value();
    let ghost a = *root;
    root.process_geometry(w as i64, h as i64, w as i64, h as i64, pad as i64);
    let ghost b = *root;
    let left: i128 = root_left_exec(root, w, h);
    let top: i128 = root_top_exec(root, w, h);
    let to_x: i32 = position_exec(left);
    let to_y: i32 = position_exec(top);
    root.get_buffer(to_x as i64, to_y as i64, pad as i64);
    proof {
        lemma_composed_by_place(b, *root, to_x as int, to_y as int, left as int, top as int, pad as int);
    }
    assert(gathered(*old(root), a) && laid_out(a, b, w as int, h as int, w as int, h as int, pad as int));
    assert(view_extent(pad as int) == pad);
}

impl Renderer {
    /// A renderer without a scene, for a terminal that is not known yet.
    pub fn new() -> (r: Renderer)
        ensures
            r.previous_buffer@.len() == 0,
            r.width == 0,
            r.height == 0,
            r.padding == DEFAULT_PADDING,
            r.object is None,
            r.console.buffer@.len() == 0,
            r.console.last_pixel == empty_pixel(),
            !r.drawing,
            !r.disable_output,
    {
        Renderer {
            previous_buffer: Vec::new(),
            width: 0,
            height: 0,
            padding: DEFAULT_PADDING,
            object: None,
            console: BufferedConsole::new(),
            drawing: false,
            disable_output: false,
        }
    }

    /// The bytes that hide the cursor when they are written to the terminal.
    pub fn hide_cursor(&self) -> (bytes: Vec<u8>)
        ensures
            bytes@ == hide_cursor_sequence(),
    {
        let mut bytes: Vec<u8> = Vec::new();
        bytes.push(27);
        bytes.push(91);
        bytes.push(63);
        bytes.push(50);
        bytes.push(53);
        bytes.push(108);
        assert(bytes@ =~= hide_cursor_sequence());
        bytes
    }

    /// The bytes that show the cursor when they are written to the terminal.
    pub fn show_cursor(&self) -> (bytes: Vec<u8>)
        ensures
            bytes@ == show_cursor_sequence(),
    {
        let mut bytes: Vec<u8> = Vec::new();
        bytes.push(27);
        bytes.push(91);
        bytes.push(63);
        bytes.push(50);
        bytes.push(53);
        bytes.push(104);
        assert(bytes@ =~= show_cursor_sequence());
        bytes
    }

    /// Sets the root of the scene, or takes it away.
    pub fn set_object(&mut self, renderer_object: Option<RendererObject>)
        ensures
            final(self).object == renderer_object,
            final(self).previous_buffer == old(self).previous_buffer,
            final(self).width == old(self).width,
            final(self).height == old(self).height,
            final(self).padding == old(self).padding,
            final(self).console == old(self).console,
            final(self).drawing == old(self).drawing,
            final(self).disable_output == old(self).disable_output,
    {
        self.object = renderer_object;
    }

    /// The root of the scene.
    pub fn get_object(&self) -> (o: &Option<RendererObject>)
        ensures
            *o == self.object,
    {
        &self.object
    }

    /// Sets the margin of the buffers, kept between 0 and `VIEW_MAX`.
    pub fn set_padding(&mut self, buffer: i64)
        ensures
            final(self).padding == view_extent(buffer as int),
            final(self).object == old(self).object,
            final(self).previous_buffer == old(self).previous_buffer,
            final(self).width == old(self).width,
            final(self).height == old(self).height,
            final(self).console == old(self).console,
            final(self).drawing == old(self).drawing,
            final(self).disable_output == old(self).disable_output,
    {
        self.padding = view_extent_exec(buffer);
    }

    /// Forgets what the terminal shows where the terminal has another size
    /// than at the last frame.
    fn fit_screen(&mut self, w: u16, h: u16)
        ensures
            cells(final(self).previous_buffer) == fitted(*old(self), w as int, h as int),
            is_grid(cells(final(self).previous_buffer), h as int, w as int),
            final(self).width == w,
            final(self).height == h,
            final(self).padding == old(self).padding,
            final(self).object == old(self).object,
            final(self).console == old(self).console,
            final(self).drawing == old(self).drawing,
            final(self).disable_output == old(self).disable_output,
    {
        if self.width != w || self.height != h || !is_grid_exec(
            &self.previous_buffer,
            h as usize,
            w as usize,
        ) {
            self.width = w;
            self.height = h;
            self.previous_buffer = blank(h as usize, w as usize, Pixels::EMPTY());
            assert(is_grid(cells(self.previous_buffer), h as int, w as int));
        }
    }

    /// Gives the cell at row `i` and column `j` of the screen its turn.
    fn emit_one(
        &mut self,
        now: Pixel,
        force: bool,
        i: u16,
        j: u16,
        last: (i64, i64),
        updates: u64,
        Ghost(e): Ghost<Emission>,
    ) -> (out: ((i64, i64), u64))
        requires
            i < old(self).previous_buffer@.len(),
            j < old(self).previous_buffer@[i as int]@.len(),
            e.bytes == old(self).console.buffer@,
            e.last_pixel == old(self).console.last_pixel,
            e.last_row == last.0,
            e.last_column == last.1,
            e.updates == updates,
            -1 <= last.0 <= 0xffff,
            -1 <= last.1 <= 0xffff,
            updates < 0x2_0000_0000,
        ensures
            ({
                let next = emit_cell(
                    e,
                    old(self).previous_buffer@[i as int]@[j as int],
                    now,
                    force,
                    i as int,
                    j as int,
                );
                &&& next.bytes == final(self).console.buffer@
                &&& next.last_pixel == final(self).console.last_pixel
                &&& next.last_row == out.0.0
                &&& next.last_column == out.0.1
                &&& next.updates == out.1
            }),
            -1 <= out.0.0 <= 0xffff,
            -1 <= out.0.1 <= 0xffff,
            out.1 <= updates + 1,
            final(self).previous_buffer@.len() == old(self).previous_buffer@.len(),
            forall|r: int|
                0 <= r < old(self).previous_buffer@.len() && r != i
                    ==> final(self).previous_buffer@[r] == old(self).previous_buffer@[r],
            final(self).previous_buffer@[i as int]@ == old(self).previous_buffer@[i as int]@.update(
                j as int,
                now,
            ),
            final(self).width == old(self).width,
            final(self).height == old(self).height,
            final(self).padding == old(self).padding,
            final(self).object == old(self).object,
            final(self).drawing == old(self).drawing,
            final(self).disable_output == old(self).disable_output,
    {
        let before: Pixel = self.previous_buffer[i as usize][j as usize];
        if before != now || force {
            let mut at: (i64, i64) = last;
            if !(j as i64 == last.1 + 1 && i as i64 == last.0) {
                self.console.set_cursor_position(j as i64, i as i64);
            }
            self.console.print(now);
            if (now.value == '\0' || now.value >= ' ') && (now.value == '\0' || (now.background.valid
                && now.foreground.valid)) {
                at = (i as i64, j as i64);
            }
            self.previous_buffer[i as usize][j as usize] = now;
            (at, updates + 1)
        } else {
            assert(self.previous_buffer@[i as int]@ =~= old(self).previous_buffer@[i as int]@.update(
                j as int,
                now,
            ));
            (last, updates)
        }
    }

    /// Gives the cells of row `i` of the screen from column `sx` up to
    /// column `ex` their turn.
    fn emit_line(
        &mut self,
        root: &RendererObject,
        top: i128,
        left: i128,
        force: bool,
        i: u16,
        sx: u16,
        ex: u16,
        last: (i64, i64),
        updates: u64,
        Ghost(e0): Ghost<Emission>,
    ) -> (out: ((i64, i64), u64))
        requires
            sx <= ex,
            is_grid(cells(old(self).previous_buffer), old(self).height as int, old(self).width as int),
            i < old(self).height,
            ex <= old(self).width,
            -0x1_0000_0000_0000_0000_0000 <= top <= 0x1_0000_0000_0000_0000_0000,
            -0x1_0000_0000_0000_0000_0000 <= left <= 0x1_0000_0000_0000_0000_0000,
            e0.bytes == old(self).console.buffer@,
            e0.last_pixel == old(self).console.last_pixel,
            e0.last_row == last.0,
            e0.last_column == last.1,
            e0.updates == updates,
            -1 <= last.0 <= 0xffff,
            -1 <= last.1 <= 0xffff,
            updates < 0x1_0000_0000,
        ensures
            ({
                let e = emit_row(
                    e0,
                    cells(old(self).previous_buffer)[i as int],
                    *root,
                    old(self).padding as int,
                    top as int,
                    left as int,
                    force,
                    i as int,
                    sx as int,
                    ex as int,
                );
                &&& e.bytes == final(self).console.buffer@
                &&& e.last_pixel == final(self).console.last_pixel
                &&& e.last_row == out.0.0
                &&& e.last_column == out.0.1
                &&& e.updates == out.1
            }),
            -1 <= out.0.0 <= 0xffff,
            -1 <= out.0.1 <= 0xffff,
            out.1 <= updates + (ex - sx),
            is_grid(cells(final(self).previous_buffer), old(self).height as int, old(self).width as int),
            forall|r: int|
                0 <= r < old(self).height && r != i ==> cells(final(self).previous_buffer)[r]
                    == cells(old(self).previous_buffer)[r],
            forall|c: int|
                0 <= c < old(self).width ==> cells(final(self).previous_buffer)[i as int][c] == (if sx
                    <= c < ex {
                    root.cell_at(old(self).padding as int, i - top, c - left)
                } else {
                    cells(old(self).previous_buffer)[i as int][c]
                }),
            final(self).width == old(self).width,
            final(self).height == old(self).height,
            final(self).padding == old(self).padding,
            final(self).object == old(self).object,
            final(self).drawing == old(self).drawing,
            final(self).disable_output == old(self).disable_output,
    {
        let pad: u16 = self.padding;
        let ghost before = cells(self.previous_buffer);
        let ghost w = self.width;
        let ghost h = self.height;
        let mut last: (i64, i64) = last;
        let mut count: u64 = updates;
        let mut j: u16 = sx;
        while j < ex
            invariant
                sx <= j <= ex,
                i < h,
                ex <= w,
                -0x1_0000_0000_0000_0000_0000 <= top <= 0x1_0000_0000_0000_0000_0000,
                -0x1_0000_0000_0000_0000_0000 <= left <= 0x1_0000_0000_0000_0000_0000,
                before == cells(old(self).previous_buffer),
                is_grid(before, h as int, w as int),
                is_grid(cells(self.previous_buffer), h as int, w as int),
                self.width == w,
                self.height == h,
                w == old(self).width,
                h == old(self).height,
                self.padding == pad,
                pad == old(self).padding,
                self.object == old(self).object,
                self.drawing == old(self).drawing,
                self.disable_output == old(self).disable_output,
                -1 <= last.0 <= 0xffff,
                -1 <= last.1 <= 0xffff,
                count <= updates + (j - sx),
                updates < 0x1_0000_0000,
                ({
                    let e = emit_row(
                        e0,
                        before[i as int],
                        *root,
                        pad as int,
                        top as int,
                        left as int,
                        force,
                        i as int,
                        sx as int,
                        j as int,
                    );
                    &&& e.bytes == self.console.buffer@
                    &&& e.last_pixel == self.console.last_pixel
                    &&& e.last_row == last.0
                    &&& e.last_column == last.1
                    &&& e.updates == count
                }),
                forall|r: int| 0 <= r < h && r != i ==> cells(self.previous_buffer)[r] == before[r],
                forall|c: int|
                    0 <= c < w ==> cells(self.previous_buffer)[i as int][c] == (if sx <= c < j {
                        root.cell_at(pad as int, i - top, c - left)
                    } else {
                        before[i as int][c]
                    }),
            decreases ex - j,
        {
            let ghost e = emit_row(
                e0,
                before[i as int],
                *root,
                pad as int,
                top as int,
                left as int,
                force,
                i as int,
                sx as int,
                j as int,
            );
            let now: Pixel = root.wide_cell(pad, i as i128 - top, j as i128 - left);
            let ghost grid_before = cells(self.previous_buffer);
            assert(grid_before[i as int].len() == w);
            assert(grid_before[i as int][j as int] == before[i as int][j as int]);
            let out = self.emit_one(now, force, i, j, last, count, Ghost(e));
            last = out.0;
            count = out.1;
            assert forall|r: int| 0 <= r < h implies (#[trigger] cells(self.previous_buffer)[r]).len()
                == w by {
                if r != i {
                    assert(cells(self.previous_buffer)[r] == grid_before[r]);
                }
            }
            assert forall|r: int| 0 <= r < h && r != i implies cells(self.previous_buffer)[r]
                == before[r] by {
                assert(cells(self.previous_buffer)[r] == grid_before[r]);
            }
            j += 1;
        }
        (last, count)
    }

    /// Gives the cells of the screen from row `sy` up to row `ey` and from
    /// column `sx` up to column `ex` their turn, row by row.
    fn emit_screen(
        &mut self,
        root: &RendererObject,
        top: i128,
        left: i128,
        force: bool,
        sy: u16,
        ey: u16,
        sx: u16,
        ex: u16,
    ) -> (updates: u64)
        requires
            sx <= ex,
            sy <= ey,
            is_grid(cells(old(self).previous_buffer), old(self).height as int, old(self).width as int),
            ey <= old(self).height,
            ex <= old(self).width,
            -0x1_0000_0000_0000_0000_0000 <= top <= 0x1_0000_0000_0000_0000_0000,
            -0x1_0000_0000_0000_0000_0000 <= left <= 0x1_0000_0000_0000_0000_0000,
        ensures
            ({
                let e = emit_rows(
                    Emission {
                        bytes: old(self).console.buffer@,
                        last_pixel: old(self).console.last_pixel,
                        last_row: -1,
                        last_column: -1,
                        updates: 0,
                    },
                    cells(old(self).previous_buffer),
                    *root,
                    old(self).padding as int,
                    top as int,
                    left as int,
                    force,
                    sy as int,
                    ey as int,
                    sx as int,
                    ex as int,
                );
                &&& e.bytes == final(self).console.buffer@
                &&& e.updates == updates
            }),
            cells(final(self).previous_buffer) == committed(
                cells(old(self).previous_buffer),
                *root,
                old(self).padding as int,
                top as int,
                left as int,
                sy as int,
                ey as int,
                sx as int,
                ex as int,
            ),
            final(self).width == old(self).width,
            final(self).height == old(self).height,
            final(self).padding == old(self).padding,
            final(self).object == old(self).object,
            final(self).drawing == old(self).drawing,
            final(self).disable_output == old(self).disable_output,
    {
        let ghost before = cells(self.previous_buffer);
        let ghost w = self.width;
        let ghost h = self.height;
        let ghost pad = self.padding;
        let ghost start = Emission {
            bytes: self.console.buffer@,
            last_pixel: self.console.last_pixel,
            last_row: -1,
            last_column: -1,
            updates: 0,
        };
        let mut last: (i64, i64) = (-1, -1);
        let mut updates: u64 = 0;
        let mut i: u16 = sy;
        while i < ey
            invariant
                sy <= i <= ey,
                sx <= ex,
                ey <= h,
                ex <= w,
                -0x1_0000_0000_0000_0000_0000 <= top <= 0x1_0000_0000_0000_0000_0000,
                -0x1_0000_0000_0000_0000_0000 <= left <= 0x1_0000_0000_0000_0000_0000,
                before == cells(old(self).previous_buffer),
                is_grid(before, h as int, w as int),
                is_grid(cells(self.previous_buffer), h as int, w as int),
                self.width == w,
                self.height == h,
                self.padding == pad,
                w == old(self).width,
                h == old(self).height,
                pad == old(self).padding,
                self.object == old(self).object,
                self.drawing == old(self).drawing,
                self.disable_output == old(self).disable_output,
                -1 <= last.0 <= 0xffff,
                -1 <= last.1 <= 0xffff,
                updates <= (i - sy) * 0x1_0000,
                ({
                    let e = emit_rows(
                        start,
                        before,
                        *root,
                        pad as int,
                        top as int,
                        left as int,
                        force,
                        sy as int,
                        i as int,
                        sx as int,
                        ex as int,
                    );
                    &&& e.bytes == self.console.buffer@
                    &&& e.last_pixel == self.console.last_pixel
                    &&& e.last_row == last.0
                    &&& e.last_column == last.1
                    &&& e.updates == updates
                }),
                forall|r: int, c: int|
                    0 <= r < h && 0 <= c < w ==> (#[trigger] cells(self.previous_buffer)[r][c]) == (if sy
                        <= r < i && sx <= c < ex {
                        root.cell_at(pad as int, r - top, c - left)
                    } else {
                        before[r][c]
                    }),
            decreases ey - i,
        {
            let ghost e = emit_rows(
                start,
                before,
                *root,
                pad as int,
                top as int,
                left as int,
                force,
                sy as int,
                i as int,
                sx as int,
                ex as int,
            );
            let ghost grid_before = cells(self.previous_buffer);
            assert(grid_before[i as int] =~= before[i as int]) by {
                assert(grid_before[i as int].len() == w);
                assert(before[i as int].len() == w);
                assert forall|c: int| 0 <= c < w implies grid_before[i as int][c] == before[i as int][c] by {
                    assert(grid_before[i as int][c] == cells(self.previous_buffer)[i as int][c]);
                }
            }
            let out = self.emit_line(root, top, left, force, i, sx, ex, last, updates, Ghost(e));
            last = out.0;
            updates = out.1;
            assert forall|r: int, c: int| 0 <= r < h && 0 <= c < w implies (#[trigger] cells(
                self.previous_buffer,
            )[r][c]) == (if sy <= r < i + 1 && sx <= c < ex {
                root.cell_at(pad as int, r - top, c - left)
            } else {
                before[r][c]
            }) by {
                if r != i {
                    assert(cells(self.previous_buffer)[r] == grid_before[r]);
                    assert(grid_before[r][c] == (if sy <= r < i && sx <= c < ex {
                        root.cell_at(pad as int, r - top, c - left)
                    } else {
                        before[r][c]
                    }));
                }
            }
            i += 1;
        }
        assert(cells(self.previous_buffer) =~~= committed(
            before,
            *root,
            pad as int,
            top as int,
            left as int,
            sy as int,
            ey as int,
            sx as int,
            ex as int,
        ));
        updates
    }

    /// Draws a frame: asks for the size of the terminal, and draws for it
    /// as `draw_frame` says. The result holds the bytes that are to be
    /// written to the terminal.
    pub fn draw(&mut self, force_update: bool) -> (frame: Frame)
        ensures
            exists|size: Option<(u16, u16)>|
                drawn(*old(self), *final(self), size, force_update, frame),
    {
        let size = query_terminal_size();
        self.draw_frame(size, force_update)
    }

    /// Draws a frame for a terminal of the size `size`; `None` stands for
    /// a terminal whose size is not known, on which nothing shows.
    ///
    /// With `force_update` every cell of the root that is on the screen is
    /// written; without, only those that differ from what the terminal
    /// shows.
    pub fn draw_frame(&mut self, size: Option<(u16, u16)>, force_update: bool) -> (frame: Frame)
        ensures
            drawn(*old(self), *final(self), size, force_update, frame),
    {
        if self.drawing {
            return Frame { bytes: Vec::new(), updates: 0 };
        }
        let mut slot: Option<RendererObject> = None;
        core::mem::swap(&mut slot, &mut self.object);
        let mut root: RendererObject = match slot {
            Some(root) => root,
            None => {
                return Frame { bytes: Vec::new(), updates: 0 };
            },
        };
        let (w, h): (u16, u16) = match size {
            Some(s) => s,
            None => (0, 0),
        };
        let pad: u16 = self.padding;
        self.fit_screen(w, h);
        frame_root(&mut root, w, h, pad);
        let left: i128 = root_left_exec(&root, w, h);
        let top: i128 = root_top_exec(&root, w, h);
        let sx: u16 = clamp_exec(left, 0, w as i128) as u16;
        let ex: u16 = clamp_exec(left + root.calculated_width as i128, 0, w as i128) as u16;
        let sy: u16 = clamp_exec(top, 0, h as i128) as u16;
        let ey: u16 = clamp_exec(top + root.calculated_height as i128, 0, h as i128) as u16;
        let updates: u64 = self.emit_screen(&root, top, left, force_update, sy, ey, sx, ex);
        self.console.set_cursor_position(ex as i64, ey as i64);
        let bytes: Vec<u8> = if self.disable_output {
            self.console.clear();
            Vec::new()
        } else {
            self.console.flush()
        };
        self.object = Some(root);
        Frame { bytes, updates }
    }
}

} // verus!
