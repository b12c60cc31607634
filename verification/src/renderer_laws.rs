//! What holds of every layout and of every frame.
use vstd::prelude::*;
use crate::decimal::clamp;
use crate::misc::{cursor_sequence, reset_sequence};
use crate::pixel::Pixel;
use crate::renderer::{
    committed,
    drawn,
    emit_cell,
    emit_row,
    emit_rows,
    fitted,
    framed,
    is_grid,
    root_left,
    root_top,
    Emission,
    Frame,
    Renderer,
};
use crate::geometry::CELLS_MAX;
use crate::renderer_object::{
    any_due,
    counts_across,
    counts_down,
    cells,
    gathered,
    kids_bottom,
    kids_right,
    laid_out,
    layout_of,
    lines_width,
    frames_width,
    frames_height,
    natural_height,
    natural_width,
    position,
    same_content,
    same_layout,
    same_place,
    same_signals,
    seen_children,
    size_extent,
    view_extent,
    RendererObject,
};
use crate::renderer_object_paint::{child_left, child_top, composed, moved_far};

verus! {

/// A node without content and without children, whose width and height are
/// `Auto`, takes no room: once it has been laid out, both of its extents
/// are 0.
pub proof fn lemma_empty_node_takes_no_room(
    pre: RendererObject,
    post: RendererObject,
    renderer_width: int,
    renderer_height: int,
    parent_width: int,
    parent_height: int,
    renderer_padding: int,
)
    requires
        pre.width is Auto,
        pre.height is Auto,
        pre.children@.len() == 0,
        pre.text@.len() == 0,
        pre.animation@.len() == 0,
        laid_out(
            pre,
            post,
            renderer_width,
            renderer_height,
            parent_width,
            parent_height,
            renderer_padding,
        ),
    ensures
        post.calculated_width == 0,
        post.calculated_height == 0,
{
    let kids = seen_children(pre, post);
    assert(kids.len() == 0);
    let vw = view_extent(renderer_width);
    let vh = view_extent(renderer_height);
    let pw = size_extent(parent_width);
    let ph = size_extent(parent_height);
    assert(kids_right(kids, vw, vh, 0) == 0);
    assert(kids_bottom(kids, vw, vh, 0) == 0);
    assert(lines_width(pre.text@, 0) == 0);
    assert(frames_width(pre.animation@, 0) == 0);
    assert(frames_height(pre.animation@, 0) == 0);
    assert(natural_width(pre, kids, pw, ph, vw, vh) == 0);
    assert(natural_height(pre, kids, pw, ph, vw, vh) == 0);
}

/// Where every cell is asked for, each cell of a row is counted once.
pub proof fn lemma_forced_row(
    e: Emission,
    before: Seq<Pixel>,
    root: RendererObject,
    pad: int,
    top: int,
    left: int,
    i: int,
    sx: int,
    j_end: int,
)
    requires
        sx <= j_end,
    ensures
        emit_row(e, before, root, pad, top, left, true, i, sx, j_end).updates == e.updates + (j_end
            - sx),
    decreases j_end - sx,
{
    if j_end > sx {
        lemma_forced_row(e, before, root, pad, top, left, i, sx, j_end - 1);
    }
}

/// Where every cell is asked for, each cell of the rows is counted once.
pub proof fn lemma_forced_rows(
    e: Emission,
    before: Seq<Seq<Pixel>>,
    root: RendererObject,
    pad: int,
    top: int,
    left: int,
    sy: int,
    i_end: int,
    sx: int,
    ex: int,
)
    requires
        sy <= i_end,
        sx <= ex,
    ensures
        emit_rows(e, before, root, pad, top, left, true, sy, i_end, sx, ex).updates == e.updates + (
        i_end - sy) * (ex - sx),
    decreases i_end - sy,
{
    if i_end > sy {
        lemma_forced_rows(e, before, root, pad, top, left, sy, i_end - 1, sx, ex);
        let inner = emit_rows(e, before, root, pad, top, left, true, sy, i_end - 1, sx, ex);
        lemma_forced_row(inner, before[i_end - 1], root, pad, top, left, i_end - 1, sx, ex);
        assert((i_end - sy) * (ex - sx) == (i_end - 1 - sy) * (ex - sx) + (ex - sx))
            by (nonlinear_arith);
    } else {
        assert((i_end - sy) * (ex - sx) == 0) by (nonlinear_arith)
            requires
                i_end - sy == 0,
        ;
    }
}

/// A frame that is drawn with every cell asked for counts one update for
/// each cell of the root that is on the screen: the rows of the root between
/// the top and the bottom of the terminal, times its columns between the
/// terminal's left and right.
pub proof fn lemma_forced_frame_updates_every_cell(
    pre: Renderer,
    post: Renderer,
    size: Option<(u16, u16)>,
    frame: Frame,
)
    requires
        !pre.drawing,
        pre.object is Some,
        drawn(pre, post, size, true, frame),
    ensures
        ({
            let w = match size {
                Some(s) => s.0 as int,
                None => 0,
            };
            let h = match size {
                Some(s) => s.1 as int,
                None => 0,
            };
            let root = post.object->Some_0;
            let left = root_left(root, w, h);
            let top = root_top(root, w, h);
            frame.updates == (clamp(top + root.calculated_height, 0, h) - clamp(top, 0, h)) * (clamp(
                left + root.calculated_width,
                0,
                w,
            ) - clamp(left, 0, w))
        }),
{
    let w = match size {
        Some(s) => s.0 as int,
        None => 0,
    };
    let h = match size {
        Some(s) => s.1 as int,
        None => 0,
    };
    let root = post.object->Some_0;
    let left = root_left(root, w, h);
    let top = root_top(root, w, h);
    let start = Emission {
        bytes: pre.console.buffer@,
        last_pixel: pre.console.last_pixel,
        last_row: -1,
        last_column: -1,
        updates: 0,
    };
    lemma_forced_rows(
        start,
        fitted(pre, w, h),
        root,
        pre.padding as int,
        top,
        left,
        clamp(top, 0, h),
        clamp(top + root.calculated_height, 0, h),
        clamp(left, 0, w),
        clamp(left + root.calculated_width, 0, w),
    );
}

/// Where the terminal shows in every cell of a row what the root shows
/// there, and not every cell is asked for, the row writes nothing.
pub proof fn lemma_silent_row(
    e: Emission,
    before: Seq<Pixel>,
    root: RendererObject,
    pad: int,
    top: int,
    left: int,
    i: int,
    sx: int,
    j_end: int,
)
    requires
        forall|j: int| sx <= j < j_end ==> #[trigger] before[j] == root.cell_at(pad, i - top, j - left),
    ensures
        emit_row(e, before, root, pad, top, left, false, i, sx, j_end) == e,
    decreases j_end - sx,
{
    if j_end > sx {
        lemma_silent_row(e, before, root, pad, top, left, i, sx, j_end - 1);
        assert(before[j_end - 1] == root.cell_at(pad, i - top, j_end - 1 - left));
    }
}

/// Where the terminal shows in every cell what the root shows there, and
/// not every cell is asked for, the rows write nothing.
pub proof fn lemma_silent_rows(
    e: Emission,
    before: Seq<Seq<Pixel>>,
    root: RendererObject,
    pad: int,
    top: int,
    left: int,
    sy: int,
    i_end: int,
    sx: int,
    ex: int,
)
    requires
        forall|i: int, j: int|
            sy <= i < i_end && sx <= j < ex ==> #[trigger] before[i][j] == root.cell_at(
                pad,
                i - top,
                j - left,
            ),
    ensures
        emit_rows(e, before, root, pad, top, left, false, sy, i_end, sx, ex) == e,
    decreases i_end - sy,
{
    if i_end > sy {
        lemma_silent_rows(e, before, root, pad, top, left, sy, i_end - 1, sx, ex);
        assert forall|j: int| sx <= j < ex implies #[trigger] before[i_end - 1][j] == root.cell_at(
            pad,
            i_end - 1 - top,
            j - left,
        ) by {}
        lemma_silent_row(e, before[i_end - 1], root, pad, top, left, i_end - 1, sx, ex);
    }
}

/// Once the signals of change have been gathered, none of the first `n`
/// children reports any.
pub proof fn lemma_gathered_children_quiet(pre: RendererObject, post: RendererObject, n: int)
    requires
        gathered(pre, post),
        0 <= n <= pre.children@.len(),
    ensures
        !post.child_reports(n),
    decreases pre, n,
{
    if n > 0 {
        lemma_gathered_children_quiet(pre, post, n - 1);
        lemma_gathered_quiet(pre.children@[n - 1], post.children@[n - 1]);
    }
}

/// Once the signals of change have been gathered, the node reports none.
pub proof fn lemma_gathered_quiet(pre: RendererObject, post: RendererObject)
    requires
        gathered(pre, post),
    ensures
        !post.needs_update(),
        !post.reports(),
    decreases pre, pre.children@.len() + 1,
{
    lemma_gathered_children_quiet(pre, post, pre.children@.len() as int);
}

/// A layout leaves the signals of the first `n` children as they are.
pub proof fn lemma_layout_keeps_child_signals(
    pre: RendererObject,
    post: RendererObject,
    rw: int,
    rh: int,
    pw: int,
    ph: int,
    pad: int,
    n: int,
)
    requires
        laid_out(pre, post, rw, rh, pw, ph, pad),
        0 <= n <= pre.children@.len(),
    ensures
        post.child_reports(n) == pre.child_reports(n),
    decreases pre, n,
{
    if n > 0 {
        lemma_layout_keeps_child_signals(pre, post, rw, rh, pw, ph, pad, n - 1);
        let before = pre.children@[n - 1];
        let after = post.children@[n - 1];
        let vw = view_extent(rw);
        let vh = view_extent(rh);
        let p = view_extent(pad);
        let decided = layout_of(
            pre,
            seen_children(pre, post),
            vw,
            vh,
            size_extent(pw),
            size_extent(ph),
        );
        if before.sized_by_parent() {
            lemma_layout_keeps_signals(before, after, vw, vh, decided.1, decided.2, p);
        } else {
            lemma_layout_keeps_signals(before, after, vw, vh, 0, 0, p);
        }
    }
}

/// A layout leaves the signals of change as they are.
pub proof fn lemma_layout_keeps_signals(
    pre: RendererObject,
    post: RendererObject,
    rw: int,
    rh: int,
    pw: int,
    ph: int,
    pad: int,
)
    requires
        laid_out(pre, post, rw, rh, pw, ph, pad),
    ensures
        post.needs_update() == pre.needs_update(),
        post.reports() == pre.reports(),
    decreases pre, pre.children@.len() + 1,
{
    lemma_layout_keeps_child_signals(pre, post, rw, rh, pw, ph, pad, pre.children@.len() as int);
}

/// Painting leaves the signals of the first `n` children as they are.
pub proof fn lemma_painting_keeps_child_signals(
    pre: RendererObject,
    post: RendererObject,
    ax: int,
    ay: int,
    pad: int,
    n: int,
)
    requires
        composed(pre, post, ax, ay, pad),
        0 <= n <= pre.children@.len(),
    ensures
        post.child_reports(n) == pre.child_reports(n),
    decreases pre, n,
{
    if n > 0 {
        lemma_painting_keeps_child_signals(pre, post, ax, ay, pad, n - 1);
        let p = view_extent(pad);
        let redraw = pre.update_content || moved_far(pre.absolute_x as int, position(ax), p)
            || moved_far(pre.absolute_y as int, position(ay), p);
        if redraw {
            lemma_painting_keeps_signals(
                pre.children@[n - 1],
                post.children@[n - 1],
                post.absolute_x + child_left(pre.children@[n - 1], post.space()),
                post.absolute_y + child_top(pre.children@[n - 1], post.space()),
                p,
            );
        }
    }
}

/// Painting leaves the signals of change as they are.
pub proof fn lemma_painting_keeps_signals(
    pre: RendererObject,
    post: RendererObject,
    ax: int,
    ay: int,
    pad: int,
)
    requires
        composed(pre, post, ax, ay, pad),
    ensures
        post.needs_update() == pre.needs_update(),
        post.reports() == pre.reports(),
    decreases pre, pre.children@.len() + 1,
{
    lemma_painting_keeps_child_signals(pre, post, ax, ay, pad, pre.children@.len() as int);
}

/// A root that was made ready for a frame is at rest: nothing of it is due,
/// it was laid out for the terminal, and it stands where it was painted or
/// within the margin of it.
pub open spec fn at_rest(root: RendererObject, w: int, h: int, pad: int) -> bool {
    &&& !root.update_content
    &&& !root.update_size
    &&& !root.needs_update()
    &&& !root.reports()
    &&& root.renderer_width == w
    &&& root.renderer_height == h
    &&& root.parent_width == w
    &&& root.parent_height == h
    &&& !moved_far(root.absolute_x as int, position(root_left(root, w, h)), pad)
    &&& !moved_far(root.absolute_y as int, position(root_top(root, w, h)), pad)
}

/// A root that was made ready for a frame is at rest.
pub proof fn lemma_framed_is_at_rest(pre: RendererObject, post: RendererObject, w: u16, h: u16, pad: u16)
    requires
        framed(pre, post, w as int, h as int, pad as int),
    ensures
        at_rest(post, w as int, h as int, pad as int),
{
    let (a, b) = choose|a: RendererObject, b: RendererObject|
        #![trigger gathered(pre, a), laid_out(a, b, w as int, h as int, w as int, h as int, pad as int)]
        gathered(pre, a) && laid_out(a, b, w as int, h as int, w as int, h as int, pad as int)
            && composed(
            b,
            post,
            root_left(b, w as int, h as int),
            root_top(b, w as int, h as int),
            pad as int,
        );
    lemma_gathered_quiet(pre, a);
    lemma_layout_keeps_signals(a, b, w as int, h as int, w as int, h as int, pad as int);
    lemma_painting_keeps_signals(
        b,
        post,
        root_left(b, w as int, h as int),
        root_top(b, w as int, h as int),
        pad as int,
    );
    assert(root_left(post, w as int, h as int) == root_left(b, w as int, h as int));
    assert(root_top(post, w as int, h as int) == root_top(b, w as int, h as int));
}

/// Whether a node and all below it are settled for a viewport and a
/// parent: nothing of them is due or carries a signal, they were laid out
/// for just that viewport and parent, and the extents of every `Auto` axis
/// are what the content gives. A layout of a settled node finds nothing to
/// do.
pub open spec fn settled(node: RendererObject, vw: int, vh: int, pw: int, ph: int) -> bool
    decreases node,
{
    &&& !node.update_size
    &&& !node.update_content
    &&& !node.changed
    &&& !node.moved
    &&& node.renderer_width == vw
    &&& node.renderer_height == vh
    &&& node.parent_width == pw
    &&& node.parent_height == ph
    &&& pw <= CELLS_MAX
    &&& ph <= CELLS_MAX
    &&& (node.width is Auto || node.height is Auto) ==> {
        &&& natural_width(node, node.children@, pw, ph, vw, vh) == node.calculated_width
        &&& natural_height(node, node.children@, pw, ph, vw, vh) == node.calculated_height
    }
    &&& forall|i: int|
        0 <= i < node.children@.len() ==> settled(
            #[trigger] node.children@[i],
            vw,
            vh,
            child_parent_width(node, node.children@[i]),
            child_parent_height(node, node.children@[i]),
        )
}

/// The parent's width for which a child is laid out: that of the node for
/// a child that is sized by it, and none for another.
pub open spec fn child_parent_width(node: RendererObject, kid: RendererObject) -> int {
    if kid.sized_by_parent() {
        size_extent(node.calculated_width as int)
    } else {
        0
    }
}

/// The parent's height for which a child is laid out.
pub open spec fn child_parent_height(node: RendererObject, kid: RendererObject) -> int {
    if kid.sized_by_parent() {
        size_extent(node.calculated_height as int)
    } else {
        0
    }
}

/// Whether `post` is `pre` in all but the identity of its lists: every
/// field of it and of all below it holds the same.
pub open spec fn unchanged(pre: RendererObject, post: RendererObject) -> bool
    decreases pre,
{
    &&& same_content(pre, post)
    &&& same_layout(pre, post)
    &&& same_place(pre, post)
    &&& same_signals(pre, post)
    &&& post.update_size == pre.update_size
    &&& post.update_content == pre.update_content
    &&& post.buffer == pre.buffer
    &&& post.children@.len() == pre.children@.len()
    &&& forall|i: int|
        0 <= i < pre.children@.len() ==> unchanged(#[trigger] pre.children@[i], post.children@[i])
}

/// Whether two lists of children reach as far: child by child they stand
/// at the same place with the same dimensions and extents.
pub open spec fn same_reach(a: Seq<RendererObject>, b: Seq<RendererObject>) -> bool {
    &&& a.len() == b.len()
    &&& forall|i: int|
        0 <= i < a.len() ==> {
            &&& (#[trigger] a[i]).x == b[i].x
            &&& a[i].y == b[i].y
            &&& a[i].width == b[i].width
            &&& a[i].height == b[i].height
            &&& a[i].calculated_width == b[i].calculated_width
            &&& a[i].calculated_height == b[i].calculated_height
        }
}

/// How far children reach hangs on their places, dimensions and extents
/// alone.
pub proof fn lemma_same_reach(
    a: Seq<RendererObject>,
    b: Seq<RendererObject>,
    vw: int,
    vh: int,
    n: int,
)
    requires
        same_reach(a, b),
        0 <= n <= a.len(),
    ensures
        kids_right(a, vw, vh, n) == kids_right(b, vw, vh, n),
        kids_bottom(a, vw, vh, n) == kids_bottom(b, vw, vh, n),
    decreases n,
{
    if n > 0 {
        lemma_same_reach(a, b, vw, vh, n - 1);
        assert(a[n - 1].x == b[n - 1].x);
    }
}

/// None of the first `n` children that are not due is due.
pub proof fn lemma_none_due(kids: Seq<RendererObject>, n: int)
    requires
        0 <= n <= kids.len(),
        forall|i: int| 0 <= i < kids.len() ==> !(#[trigger] kids[i]).update_content,
    ensures
        !any_due(kids, n),
    decreases n,
{
    if n > 0 {
        lemma_none_due(kids, n - 1);
        assert(!kids[n - 1].update_content);
    }
}

/// None of the first `n` children of a settled node reports a change.
pub proof fn lemma_settled_children_quiet(
    node: RendererObject,
    vw: int,
    vh: int,
    pw: int,
    ph: int,
    n: int,
)
    requires
        settled(node, vw, vh, pw, ph),
        0 <= n <= node.children@.len(),
    ensures
        !node.child_reports(n),
    decreases node, n,
{
    if n > 0 {
        lemma_settled_children_quiet(node, vw, vh, pw, ph, n - 1);
        let kid = node.children@[n - 1];
        lemma_settled_is_quiet(
            kid,
            vw,
            vh,
            child_parent_width(node, kid),
            child_parent_height(node, kid),
        );
    }
}

/// A settled node reports no change.
pub proof fn lemma_settled_is_quiet(node: RendererObject, vw: int, vh: int, pw: int, ph: int)
    requires
        settled(node, vw, vh, pw, ph),
    ensures
        !node.needs_update(),
        !node.reports(),
    decreases node, node.children@.len() + 1,
{
    lemma_settled_children_quiet(node, vw, vh, pw, ph, node.children@.len() as int);
}

/// What is unchanged is as settled as it was.
pub proof fn lemma_unchanged_is_settled(
    pre: RendererObject,
    post: RendererObject,
    vw: int,
    vh: int,
    pw: int,
    ph: int,
)
    requires
        settled(pre, vw, vh, pw, ph),
        unchanged(pre, post),
    ensures
        settled(post, vw, vh, pw, ph),
    decreases pre,
{
    assert forall|i: int| 0 <= i < post.children@.len() implies settled(
        #[trigger] post.children@[i],
        vw,
        vh,
        child_parent_width(post, post.children@[i]),
        child_parent_height(post, post.children@[i]),
    ) by {
        let kid = pre.children@[i];
        assert(unchanged(kid, post.children@[i]));
        lemma_unchanged_is_settled(
            kid,
            post.children@[i],
            vw,
            vh,
            child_parent_width(pre, kid),
            child_parent_height(pre, kid),
        );
    }
    assert(same_reach(pre.children@, post.children@)) by {
        assert forall|i: int| 0 <= i < pre.children@.len() implies {
            &&& (#[trigger] pre.children@[i]).x == post.children@[i].x
            &&& pre.children@[i].y == post.children@[i].y
            &&& pre.children@[i].width == post.children@[i].width
            &&& pre.children@[i].height == post.children@[i].height
            &&& pre.children@[i].calculated_width == post.children@[i].calculated_width
            &&& pre.children@[i].calculated_height == post.children@[i].calculated_height
        } by {
            assert(unchanged(pre.children@[i], post.children@[i]));
        }
    }
    lemma_same_reach(pre.children@, post.children@, vw, vh, pre.children@.len() as int);
}

/// Gathering the signals of a settled node changes nothing.
pub proof fn lemma_settled_gathers_nothing(
    pre: RendererObject,
    post: RendererObject,
    vw: int,
    vh: int,
    pw: int,
    ph: int,
)
    requires
        settled(pre, vw, vh, pw, ph),
        gathered(pre, post),
    ensures
        unchanged(pre, post),
    decreases pre,
{
    lemma_settled_is_quiet(pre, vw, vh, pw, ph);
    assert forall|i: int| 0 <= i < pre.children@.len() implies unchanged(
        #[trigger] pre.children@[i],
        post.children@[i],
    ) by {
        let kid = pre.children@[i];
        lemma_settled_gathers_nothing(
            kid,
            post.children@[i],
            vw,
            vh,
            child_parent_width(pre, kid),
            child_parent_height(pre, kid),
        );
    }
}

/// A layout of a settled node for the viewport and the parent for which it
/// is settled changes nothing.
pub proof fn lemma_settled_layout_changes_nothing(
    pre: RendererObject,
    post: RendererObject,
    rw: int,
    rh: int,
    parent_width: int,
    parent_height: int,
    pad: int,
)
    requires
        settled(
            pre,
            view_extent(rw),
            view_extent(rh),
            size_extent(parent_width),
            size_extent(parent_height),
        ),
        laid_out(pre, post, rw, rh, parent_width, parent_height, pad),
    ensures
        unchanged(pre, post),
    decreases pre,
{
    let vw = view_extent(rw);
    let vh = view_extent(rh);
    let pw = size_extent(parent_width);
    let ph = size_extent(parent_height);
    let p = view_extent(pad);
    let seen = seen_children(pre, post);
    // The children that are not sized by the node come first.
    assert forall|i: int|
        0 <= i < pre.children@.len() && !(#[trigger] pre.children@[i]).sized_by_parent() implies unchanged(
        pre.children@[i],
        post.children@[i],
    ) by {
        lemma_settled_layout_changes_nothing(pre.children@[i], post.children@[i], vw, vh, 0, 0, p);
    }
    assert(same_reach(seen, pre.children@)) by {
        assert forall|i: int| 0 <= i < seen.len() implies {
            &&& (#[trigger] seen[i]).x == pre.children@[i].x
            &&& seen[i].y == pre.children@[i].y
            &&& seen[i].width == pre.children@[i].width
            &&& seen[i].height == pre.children@[i].height
            &&& seen[i].calculated_width == pre.children@[i].calculated_width
            &&& seen[i].calculated_height == pre.children@[i].calculated_height
        } by {
            if !pre.children@[i].sized_by_parent() {
                assert(unchanged(pre.children@[i], post.children@[i]));
            }
        }
    }
    lemma_same_reach(seen, pre.children@, vw, vh, seen.len() as int);
    let decided = layout_of(pre, seen, vw, vh, pw, ph);
    assert(!pre.stale_by_inputs(vw, vh, pw, ph));
    assert(natural_width(pre, seen, pw, ph, vw, vh) == natural_width(
        pre,
        pre.children@,
        pw,
        ph,
        vw,
        vh,
    ));
    assert(natural_height(pre, seen, pw, ph, vw, vh) == natural_height(
        pre,
        pre.children@,
        pw,
        ph,
        vw,
        vh,
    ));
    assert(!decided.0);
    assert(decided.1 == pre.calculated_width && decided.2 == pre.calculated_height);
    // Then the children that are sized by the node.
    assert forall|i: int| 0 <= i < pre.children@.len() implies unchanged(
        #[trigger] pre.children@[i],
        post.children@[i],
    ) by {
        if pre.children@[i].sized_by_parent() {
            lemma_settled_layout_changes_nothing(
                pre.children@[i],
                post.children@[i],
                vw,
                vh,
                pre.calculated_width as int,
                pre.calculated_height as int,
                p,
            );
        }
    }
    assert forall|i: int| 0 <= i < post.children@.len() implies !(#[trigger] post.children@[i]).update_content by {
        let kid = pre.children@[i];
        assert(unchanged(kid, post.children@[i]));
        assert(settled(kid, vw, vh, child_parent_width(pre, kid), child_parent_height(pre, kid)));
    }
    lemma_none_due(post.children@, post.children@.len() as int);
}

/// Whether no child of a node, nor of any node below it, is sized by its
/// parent while it counts for an extent that the parent takes from its
/// content. Such a child is laid out only after its parent has taken its
/// extents, so that the parent may take other extents at the next layout.
pub open spec fn unmixed(node: RendererObject) -> bool
    decreases node,
{
    forall|i: int|
        0 <= i < node.children@.len() ==> {
            &&& (#[trigger] node.children@[i]).sized_by_parent() ==> {
                &&& node.width is Auto ==> !counts_across(node.children@[i])
                &&& node.height is Auto ==> !counts_down(node.children@[i])
            }
            &&& unmixed(node.children@[i])
        }
}

/// Whether neither a node nor any node below it carries a signal of change.
pub open spec fn signal_free(node: RendererObject) -> bool
    decreases node,
{
    &&& !node.changed
    &&& !node.moved
    &&& forall|i: int| 0 <= i < node.children@.len() ==> signal_free(#[trigger] node.children@[i])
}

/// Whether a node and all below it are as a layout leaves them: settled,
/// but that they may be due, and then every node above a due one is due.
pub open spec fn ready(node: RendererObject, vw: int, vh: int, pw: int, ph: int) -> bool
    decreases node,
{
    &&& !node.update_size
    &&& !node.changed
    &&& !node.moved
    &&& node.renderer_width == vw
    &&& node.renderer_height == vh
    &&& node.parent_width == pw
    &&& node.parent_height == ph
    &&& pw <= CELLS_MAX
    &&& ph <= CELLS_MAX
    &&& (node.width is Auto || node.height is Auto) ==> {
        &&& natural_width(node, node.children@, pw, ph, vw, vh) == node.calculated_width
        &&& natural_height(node, node.children@, pw, ph, vw, vh) == node.calculated_height
    }
    &&& any_due(node.children@, node.children@.len() as int) ==> node.update_content
    &&& forall|i: int|
        0 <= i < node.children@.len() ==> ready(
            #[trigger] node.children@[i],
            vw,
            vh,
            child_parent_width(node, node.children@[i]),
            child_parent_height(node, node.children@[i]),
        )
}

/// Where none of the first `n` children is due, none of them is.
pub proof fn lemma_not_any_due(kids: Seq<RendererObject>, n: int, i: int)
    requires
        0 <= i < n <= kids.len(),
        !any_due(kids, n),
    ensures
        !kids[i].update_content,
    decreases n,
{
    if i < n - 1 {
        lemma_not_any_due(kids, n - 1, i);
    }
}

/// How far children reach hangs only on those that count.
pub proof fn lemma_reach_of_those_that_count(
    a: Seq<RendererObject>,
    b: Seq<RendererObject>,
    vw: int,
    vh: int,
    n: int,
)
    requires
        a.len() == b.len(),
        0 <= n <= a.len(),
        forall|i: int|
            0 <= i < a.len() ==> {
                &&& (#[trigger] a[i]).x == b[i].x
                &&& a[i].y == b[i].y
                &&& a[i].width == b[i].width
                &&& a[i].height == b[i].height
            },
    ensures
        (forall|i: int|
            0 <= i < a.len() && counts_across(#[trigger] a[i]) ==> a[i].calculated_width
                == b[i].calculated_width) ==> kids_right(a, vw, vh, n) == kids_right(b, vw, vh, n),
        (forall|i: int|
            0 <= i < a.len() && counts_down(#[trigger] a[i]) ==> a[i].calculated_height
                == b[i].calculated_height) ==> kids_bottom(a, vw, vh, n) == kids_bottom(
            b,
            vw,
            vh,
            n,
        ),
    decreases n,
{
    if n > 0 {
        lemma_reach_of_those_that_count(a, b, vw, vh, n - 1);
        assert(a[n - 1].x == b[n - 1].x);
    }
}

/// Gathering the signals leaves none, and leaves an unmixed scene unmixed.
pub proof fn lemma_gathered_is_signal_free(pre: RendererObject, post: RendererObject)
    requires
        gathered(pre, post),
    ensures
        signal_free(post),
        unmixed(pre) ==> unmixed(post),
    decreases pre,
{
    assert forall|i: int| 0 <= i < post.children@.len() implies signal_free(
        #[trigger] post.children@[i],
    ) && (unmixed(pre) ==> unmixed(post.children@[i])) by {
        assert(gathered(pre.children@[i], post.children@[i]));
        lemma_gathered_is_signal_free(pre.children@[i], post.children@[i]);
    }
    if unmixed(pre) {
        assert forall|i: int| 0 <= i < post.children@.len() implies {
            &&& (#[trigger] post.children@[i]).sized_by_parent() ==> {
                &&& post.width is Auto ==> !counts_across(post.children@[i])
                &&& post.height is Auto ==> !counts_down(post.children@[i])
            }
            &&& unmixed(post.children@[i])
        } by {
            assert(gathered(pre.children@[i], post.children@[i]));
        }
    }
}

/// A layout of an unmixed scene without signals leaves it ready.
pub proof fn lemma_layout_makes_ready(
    pre: RendererObject,
    post: RendererObject,
    rw: int,
    rh: int,
    parent_width: int,
    parent_height: int,
    pad: int,
)
    requires
        signal_free(pre),
        unmixed(pre),
        laid_out(pre, post, rw, rh, parent_width, parent_height, pad),
    ensures
        ready(
            post,
            view_extent(rw),
            view_extent(rh),
            size_extent(parent_width),
            size_extent(parent_height),
        ),
    decreases pre,
{
    reveal_with_fuel(laid_out, 2);
    let vw = view_extent(rw);
    let vh = view_extent(rh);
    let pw = size_extent(parent_width);
    let ph = size_extent(parent_height);
    let p = view_extent(pad);
    let seen = seen_children(pre, post);
    let decided = layout_of(pre, seen, vw, vh, pw, ph);
    assert forall|i: int| 0 <= i < post.children@.len() implies ready(
        #[trigger] post.children@[i],
        vw,
        vh,
        child_parent_width(post, post.children@[i]),
        child_parent_height(post, post.children@[i]),
    ) by {
        let kid = pre.children@[i];
        assert(signal_free(kid));
        assert(unmixed(kid));
        if kid.sized_by_parent() {
            lemma_layout_makes_ready(kid, post.children@[i], vw, vh, decided.1, decided.2, p);
        } else {
            lemma_layout_makes_ready(kid, post.children@[i], vw, vh, 0, 0, p);
        }
        assert(same_content(kid, post.children@[i]));
    }
    if pre.width is Auto || pre.height is Auto {
        assert forall|i: int| 0 <= i < seen.len() implies {
            &&& (#[trigger] seen[i]).x == post.children@[i].x
            &&& seen[i].y == post.children@[i].y
            &&& seen[i].width == post.children@[i].width
            &&& seen[i].height == post.children@[i].height
        } by {
            let kid = pre.children@[i];
            if kid.sized_by_parent() {
                assert(laid_out(kid, post.children@[i], vw, vh, decided.1, decided.2, p));
            } else {
                assert(laid_out(kid, post.children@[i], vw, vh, 0, 0, p));
            }
            assert(same_content(kid, post.children@[i]));
        }
        lemma_reach_of_those_that_count(seen, post.children@, vw, vh, seen.len() as int);
        if pre.width is Auto {
            assert forall|i: int|
                0 <= i < seen.len() && counts_across(#[trigger] seen[i]) implies seen[i].calculated_width
                == post.children@[i].calculated_width by {
                let kid = pre.children@[i];
                assert(kid.sized_by_parent() ==> !counts_across(kid));
            }
        }
        if pre.height is Auto {
            assert forall|i: int|
                0 <= i < seen.len() && counts_down(#[trigger] seen[i]) implies seen[i].calculated_height
                == post.children@[i].calculated_height by {
                let kid = pre.children@[i];
                assert(kid.sized_by_parent() ==> !counts_down(kid));
            }
        }
        assert(natural_width(post, post.children@, pw, ph, vw, vh) == natural_width(
            pre,
            seen,
            pw,
            ph,
            vw,
            vh,
        ));
        assert(natural_height(post, post.children@, pw, ph, vw, vh) == natural_height(
            pre,
            seen,
            pw,
            ph,
            vw,
            vh,
        ));
    }
}

/// What is ready and not due is settled.
pub proof fn lemma_ready_and_done_is_settled(
    node: RendererObject,
    vw: int,
    vh: int,
    pw: int,
    ph: int,
)
    requires
        ready(node, vw, vh, pw, ph),
        !node.update_content,
    ensures
        settled(node, vw, vh, pw, ph),
    decreases node,
{
    assert forall|i: int| 0 <= i < node.children@.len() implies settled(
        #[trigger] node.children@[i],
        vw,
        vh,
        child_parent_width(node, node.children@[i]),
        child_parent_height(node, node.children@[i]),
    ) by {
        lemma_not_any_due(node.children@, node.children@.len() as int, i);
        lemma_ready_and_done_is_settled(
            node.children@[i],
            vw,
            vh,
            child_parent_width(node, node.children@[i]),
            child_parent_height(node, node.children@[i]),
        );
    }
}

/// Asking a ready node for its buffer leaves it settled.
pub proof fn lemma_painting_settles(
    pre: RendererObject,
    post: RendererObject,
    ax: int,
    ay: int,
    pad: int,
    vw: int,
    vh: int,
    pw: int,
    ph: int,
)
    requires
        ready(pre, vw, vh, pw, ph),
        composed(pre, post, ax, ay, pad),
    ensures
        settled(post, vw, vh, pw, ph),
    decreases pre,
{
    let p = view_extent(pad);
    let redraw = pre.update_content || moved_far(pre.absolute_x as int, position(ax), p)
        || moved_far(pre.absolute_y as int, position(ay), p);
    if redraw {
        assert forall|i: int| 0 <= i < post.children@.len() implies settled(
            #[trigger] post.children@[i],
            vw,
            vh,
            child_parent_width(post, post.children@[i]),
            child_parent_height(post, post.children@[i]),
        ) by {
            let kid = pre.children@[i];
            assert(ready(kid, vw, vh, child_parent_width(pre, kid), child_parent_height(pre, kid)));
            lemma_painting_settles(
                kid,
                post.children@[i],
                post.absolute_x + child_left(kid, post.space()),
                post.absolute_y + child_top(kid, post.space()),
                p,
                vw,
                vh,
                child_parent_width(pre, kid),
                child_parent_height(pre, kid),
            );
            assert(same_content(kid, post.children@[i]));
        }
        assert(same_reach(pre.children@, post.children@)) by {
            assert forall|i: int| 0 <= i < pre.children@.len() implies {
                &&& (#[trigger] pre.children@[i]).x == post.children@[i].x
                &&& pre.children@[i].y == post.children@[i].y
                &&& pre.children@[i].width == post.children@[i].width
                &&& pre.children@[i].height == post.children@[i].height
                &&& pre.children@[i].calculated_width == post.children@[i].calculated_width
                &&& pre.children@[i].calculated_height == post.children@[i].calculated_height
            } by {
                assert(composed(
                    pre.children@[i],
                    post.children@[i],
                    post.absolute_x + child_left(pre.children@[i], post.space()),
                    post.absolute_y + child_top(pre.children@[i], post.space()),
                    p,
                ));
            }
        }
        lemma_same_reach(pre.children@, post.children@, vw, vh, pre.children@.len() as int);
    } else {
        lemma_ready_and_done_is_settled(pre, vw, vh, pw, ph);
        assert(post.children@ == pre.children@);
    }
}

/// A frame leaves an unmixed scene settled: the frame is stable.
pub proof fn lemma_frame_settles(
    first: Renderer,
    second: Renderer,
    size: Option<(u16, u16)>,
    force: bool,
    frame: Frame,
)
    requires
        !first.drawing,
        first.object is Some,
        unmixed(first.object->Some_0),
        drawn(first, second, size, force, frame),
    ensures
        ({
            let w = match size {
                Some(s) => s.0 as int,
                None => 0,
            };
            let h = match size {
                Some(s) => s.1 as int,
                None => 0,
            };
            settled(second.object->Some_0, w, h, w, h)
        }),
{
    let w = match size {
        Some(s) => s.0 as int,
        None => 0,
    };
    let h = match size {
        Some(s) => s.1 as int,
        None => 0,
    };
    let pad = first.padding as int;
    let pre = first.object->Some_0;
    let post = second.object->Some_0;
    let (a, b) = choose|a: RendererObject, b: RendererObject|
        #![trigger gathered(pre, a), laid_out(a, b, w, h, w, h, pad)]
        gathered(pre, a) && laid_out(a, b, w, h, w, h, pad) && composed(
            b,
            post,
            root_left(b, w, h),
            root_top(b, w, h),
            pad,
        );
    lemma_gathered_is_signal_free(pre, a);
    lemma_layout_makes_ready(a, b, w, h, w, h, pad);
    lemma_painting_settles(b, post, root_left(b, w, h), root_top(b, w, h), pad, w, h, w, h);
}

/// Making a root ready that is settled and at rest changes nothing that
/// shows: its buffer, its place and its extents stay.
pub proof fn lemma_rest_is_kept(pre: RendererObject, post: RendererObject, w: u16, h: u16, pad: u16)
    requires
        at_rest(pre, w as int, h as int, pad as int),
        settled(pre, w as int, h as int, w as int, h as int),
        framed(pre, post, w as int, h as int, pad as int),
    ensures
        post.buffer == pre.buffer,
        same_content(pre, post),
        same_layout(pre, post),
        same_place(pre, post),
{
    let (a, b) = choose|a: RendererObject, b: RendererObject|
        #![trigger gathered(pre, a), laid_out(a, b, w as int, h as int, w as int, h as int, pad as int)]
        gathered(pre, a) && laid_out(a, b, w as int, h as int, w as int, h as int, pad as int)
            && composed(
            b,
            post,
            root_left(b, w as int, h as int),
            root_top(b, w as int, h as int),
            pad as int,
        );
    lemma_settled_gathers_nothing(pre, a, w as int, h as int, w as int, h as int);
    lemma_unchanged_is_settled(pre, a, w as int, h as int, w as int, h as int);
    lemma_settled_layout_changes_nothing(a, b, w as int, h as int, w as int, h as int, pad as int);
    assert(b.buffer == pre.buffer);
    assert(!b.update_content);
    assert(root_left(b, w as int, h as int) == root_left(pre, w as int, h as int));
    assert(root_top(b, w as int, h as int) == root_top(pre, w as int, h as int));
}

/// After a frame that left the scene settled, a second frame for a
/// terminal of the same size, with nothing changed between the two and not
/// every cell asked for, updates no cell: its bytes are the cursor's last
/// position and the reset of the colours, and nothing else.
pub proof fn lemma_second_frame_is_silent(
    first: Renderer,
    second: Renderer,
    third: Renderer,
    size: Option<(u16, u16)>,
    force: bool,
    frame: Frame,
    again: Frame,
)
    requires
        !first.drawing,
        first.object is Some,
        drawn(first, second, size, force, frame),
        settled(
            second.object->Some_0,
            match size {
                Some(s) => s.0 as int,
                None => 0,
            },
            match size {
                Some(s) => s.1 as int,
                None => 0,
            },
            match size {
                Some(s) => s.0 as int,
                None => 0,
            },
            match size {
                Some(s) => s.1 as int,
                None => 0,
            },
        ),
        drawn(second, third, size, false, again),
    ensures
        again.updates == 0,
        ({
            let w = match size {
                Some(s) => s.0 as int,
                None => 0,
            };
            let h = match size {
                Some(s) => s.1 as int,
                None => 0,
            };
            let root = third.object->Some_0;
            !second.disable_output ==> again.bytes@ == cursor_sequence(
                clamp(root_left(root, w, h) + root.calculated_width, 0, w),
                clamp(root_top(root, w, h) + root.calculated_height, 0, h),
            ) + reset_sequence()
        }),
{
    let sw: u16 = match size {
        Some(s) => s.0,
        None => 0,
    };
    let sh: u16 = match size {
        Some(s) => s.1,
        None => 0,
    };
    let w = sw as int;
    let h = sh as int;
    let pad = first.padding;
    let root1 = second.object->Some_0;
    let root2 = third.object->Some_0;
    lemma_framed_is_at_rest(first.object->Some_0, root1, sw, sh, pad);
    lemma_rest_is_kept(root1, root2, sw, sh, pad);
    let top = root_top(root1, w, h);
    let left = root_left(root1, w, h);
    assert(root_top(root2, w, h) == top);
    assert(root_left(root2, w, h) == left);
    let sx = clamp(left, 0, w);
    let ex = clamp(left + root1.calculated_width, 0, w);
    let sy = clamp(top, 0, h);
    let ey = clamp(top + root1.calculated_height, 0, h);
    let before0 = fitted(first, w, h);
    assert(is_grid(before0, h, w));
    let shown = committed(before0, root1, pad as int, top, left, sy, ey, sx, ex);
    assert(cells(second.previous_buffer) == shown);
    assert(is_grid(shown, h, w));
    let before1 = fitted(second, w, h);
    assert(before1 == shown);
    assert forall|i: int, j: int| sy <= i < ey && sx <= j < ex implies #[trigger] before1[i][j]
        == root2.cell_at(pad as int, i - top, j - left) by {
        assert(root2.cell_at(pad as int, i - top, j - left) == root1.cell_at(
            pad as int,
            i - top,
            j - left,
        ));
    }
    let start = Emission {
        bytes: second.console.buffer@,
        last_pixel: second.console.last_pixel,
        last_row: -1,
        last_column: -1,
        updates: 0,
    };
    lemma_silent_rows(start, before1, root2, pad as int, top, left, sy, ey, sx, ex);
    assert(start.bytes =~= Seq::<u8>::empty());
    assert(start.bytes + cursor_sequence(ex, ey) + reset_sequence() =~= cursor_sequence(ex, ey)
        + reset_sequence());
}

} // verus!
