//! Layout engine: on request, repacks all items into a wrapped, centered
//! flow.
//!
//! Every item is a fixed-size box. Boxes are packed left-to-right into rows
//! in arrival order (first-fit, no sorting), wrapping to a new row when the
//! running row width plus the gap and the next box would exceed the
//! container width (the viewport width expressed in world units). A fixed
//! gap separates adjacent boxes on both axes. Each row's boxes share the
//! row's center line (vertical centering against the row's max height);
//! every row is centered horizontally about the origin and the stack of
//! rows is centered vertically about it, with the vertical axis flipped
//! into world space (rows grow downward on screen, world y grows up).
//! Z-order and selection are untouched.

use vstd::prelude::*;

use crate::registry::{eq_except_position, CanvasItem, Registry, POS_LIMIT, SIZE_LIMIT_FX};
use crate::units::Vec2Fx;

verus! {

/// The gap between adjacent boxes, on both axes (16.0 world units).
pub const GAP_FX: i64 = 16_000_000;

/// Largest accepted container width: the largest viewport in pixels times
/// the largest zoom scale.
pub const MAX_CONTAINER_FX: i64 = 20_000_000_000_000;

/// Most items one layout pass accepts; keeps every computed coordinate
/// well inside the 64-bit fixed-point range.
pub const MAX_LAYOUT_ITEMS: usize = 500_000;

/// A row's vertical footprint: its tallest box plus the gap to the next
/// row.
pub const ROW_STRIDE_FX: i64 = 5_000_016_000_000;

/// The items' sizes, in registry order.
pub open spec fn spec_sizes(items: Seq<CanvasItem>) -> Seq<Vec2Fx> {
    items.map_values(|it: CanvasItem| it.size)
}

/// The packed width of the boxes `[start, end)` laid side by side with the
/// gap between neighbors.
pub open spec fn spec_row_width(sizes: Seq<Vec2Fx>, start: int, end: int) -> int
    decreases end - start,
{
    if end <= start {
        0
    } else if end == start + 1 {
        sizes[start].x as int
    } else {
        spec_row_width(sizes, start, end - 1) + GAP_FX + sizes[end - 1].x
    }
}

/// The height of the tallest box among `[start, end)`; 0 when empty.
pub open spec fn spec_row_height(sizes: Seq<Vec2Fx>, start: int, end: int) -> int
    decreases end - start,
{
    if end <= start {
        0
    } else {
        vstd::math::max(spec_row_height(sizes, start, end - 1), sizes[end - 1].y as int)
    }
}

/// The greedy partition of the first `n` boxes into rows: the sequence of
/// indices at which rows begin. A box starts a new row when appending it
/// (after a gap) would push the running row width past the container width
/// `c`; the first box of a row is always accepted.
pub open spec fn spec_row_starts(sizes: Seq<Vec2Fx>, c: int, n: int) -> Seq<int>
    decreases n,
{
    if n <= 0 {
        Seq::empty()
    } else {
        let prev = spec_row_starts(sizes, c, n - 1);
        if prev.len() == 0 {
            seq![0int]
        } else {
            let start = prev.last();
            if spec_row_width(sizes, start, n - 1) + GAP_FX + sizes[n - 1].x > c {
                prev.push(n - 1)
            } else {
                prev
            }
        }
    }
}

/// Where row `r` ends: the next row's start, or `n` for the last row.
pub open spec fn spec_row_end(starts: Seq<int>, r: int, n: int) -> int {
    if r + 1 < starts.len() {
        starts[r + 1]
    } else {
        n
    }
}

/// The row that holds box `j`: the last row starting at or before it.
pub open spec fn spec_row_of(starts: Seq<int>, j: int) -> int
    decreases starts.len(),
{
    if starts.len() == 0 {
        0
    } else if starts.last() <= j {
        starts.len() - 1
    } else {
        spec_row_of(starts.drop_last(), j)
    }
}

/// The layout-space top of row `r`: the heights of the rows above it plus a
/// gap under each.
pub open spec fn spec_row_top(sizes: Seq<Vec2Fx>, starts: Seq<int>, r: int) -> int
    decreases r,
{
    if r <= 0 {
        0
    } else {
        spec_row_top(sizes, starts, r - 1) + spec_row_height(
            sizes,
            starts[r - 1],
            spec_row_end(starts, r - 1, sizes.len() as int),
        ) + GAP_FX
    }
}

/// The height of the whole block: rows stacked with a gap between
/// neighbors.
pub open spec fn spec_total_height(sizes: Seq<Vec2Fx>, starts: Seq<int>) -> int {
    if starts.len() == 0 {
        0
    } else {
        spec_row_top(sizes, starts, starts.len() as int) - GAP_FX
    }
}

/// The left edge of box `j` within its row: the packed width of the boxes
/// before it, plus one gap when any exist.
pub open spec fn spec_offset_in_row(sizes: Seq<Vec2Fx>, start: int, j: int) -> int {
    if j <= start {
        0
    } else {
        spec_row_width(sizes, start, j) + GAP_FX
    }
}

/// The world-space center of box `j` after the layout pass: its row is
/// centered horizontally about the origin, all boxes of a row share the
/// row's center line, and the stack of rows is centered vertically about
/// the origin with the vertical axis flipped into world space.
pub open spec fn spec_layout_position(sizes: Seq<Vec2Fx>, c: int, j: int) -> (int, int) {
    let n = sizes.len() as int;
    let starts = spec_row_starts(sizes, c, n);
    let r = spec_row_of(starts, j);
    let start = starts[r];
    let end = spec_row_end(starts, r, n);
    let row_w = spec_row_width(sizes, start, end);
    let row_h = spec_row_height(sizes, start, end);
    let top = spec_row_top(sizes, starts, r);
    let total_h = spec_total_height(sizes, starts);
    let x = spec_offset_in_row(sizes, start, j) + sizes[j].x / 2 - row_w / 2;
    let y = total_h / 2 - top - row_h / 2;
    (x, y)
}

/// Shape of the greedy partition: row starts are strictly increasing, the
/// first row starts at 0, and every start is a valid index.
pub proof fn lemma_row_starts_props(sizes: Seq<Vec2Fx>, c: int, n: int)
    requires
        n <= sizes.len(),
    ensures
        n <= 0 ==> spec_row_starts(sizes, c, n).len() == 0,
        n > 0 ==> spec_row_starts(sizes, c, n).len() > 0 && spec_row_starts(sizes, c, n)[0] == 0,
        spec_row_starts(sizes, c, n).len() <= (if n >= 0 {
            n
        } else {
            0
        }),
        forall|k: int|
            0 <= k < spec_row_starts(sizes, c, n).len() ==> 0 <= #[trigger] spec_row_starts(
                sizes,
                c,
                n,
            )[k] < n,
        forall|k1: int, k2: int|
            0 <= k1 < k2 < spec_row_starts(sizes, c, n).len() ==> #[trigger] spec_row_starts(
                sizes,
                c,
                n,
            )[k1] < #[trigger] spec_row_starts(sizes, c, n)[k2],
    decreases n,
{
    if n > 0 {
        lemma_row_starts_props(sizes, c, n - 1);
    }
}

/// A packed row width is never negative.
pub proof fn lemma_row_width_nonneg(sizes: Seq<Vec2Fx>, start: int, end: int)
    requires
        0 <= start,
        end <= sizes.len(),
        forall|i: int| 0 <= i < sizes.len() ==> 0 < (#[trigger] sizes[i]).x,
    ensures
        0 <= spec_row_width(sizes, start, end),
    decreases end - start,
{
    if end > start + 1 {
        lemma_row_width_nonneg(sizes, start, end - 1);
    }
}

/// A packed row width only grows as boxes join the row.
pub proof fn lemma_row_width_mono(sizes: Seq<Vec2Fx>, start: int, e1: int, e2: int)
    requires
        0 <= start,
        e2 <= sizes.len(),
        start <= e1 <= e2,
        forall|i: int| 0 <= i < sizes.len() ==> 0 < (#[trigger] sizes[i]).x,
    ensures
        0 <= spec_row_width(sizes, start, e1) <= spec_row_width(sizes, start, e2),
    decreases e2 - e1,
{
    lemma_row_width_nonneg(sizes, start, e1);
    if e1 < e2 {
        lemma_row_width_mono(sizes, start, e1, e2 - 1);
        lemma_row_width_nonneg(sizes, start, e2 - 1);
    }
}

/// Locates a box's row: if row `r` starts at or before `j` and the next row
/// starts after it, then `j`'s row is `r`.
pub proof fn lemma_row_of_locate(starts: Seq<int>, r: int, j: int)
    requires
        0 <= r < starts.len(),
        starts[r] <= j,
        r + 1 < starts.len() ==> j < starts[r + 1],
        forall|k1: int, k2: int|
            0 <= k1 < k2 < starts.len() ==> #[trigger] starts[k1] < #[trigger] starts[k2],
    ensures
        spec_row_of(starts, j) == r,
    decreases starts.len(),
{
    if r == starts.len() - 1 {
    } else {
        assert(starts[r + 1] <= starts.last());
        lemma_row_of_locate(starts.drop_last(), r, j);
    }
}

/// Relayout is deterministic and idempotent: the computed positions are a
/// function of the item sizes and the container width alone, and a layout
/// pass changes no sizes, so a second pass over its result computes
/// exactly the same positions again.
pub proof fn lemma_relayout_idempotent(items0: Seq<CanvasItem>, items1: Seq<CanvasItem>, c: int)
    requires
        items1.len() == items0.len(),
        forall|j: int|
            0 <= j < items0.len() ==> eq_except_position(#[trigger] items1[j], items0[j]),
    ensures
        forall|j: int|
            0 <= j < items0.len() ==> #[trigger] spec_layout_position(spec_sizes(items1), c, j)
                == spec_layout_position(spec_sizes(items0), c, j),
{
    assert(spec_sizes(items1) =~= spec_sizes(items0));
}

/// The layout pass: recomputes every item's position in place as the
/// wrapped, centered flow over the items' current sizes; a no-op when no
/// items exist. Everything but positions is untouched.
pub fn relayout(reg: &mut Registry, container_width: i64)
    requires
        old(reg).wf(),
        0 <= container_width <= MAX_CONTAINER_FX,
        old(reg).items@.len() <= MAX_LAYOUT_ITEMS,
    ensures
        final(reg).wf(),
        final(reg).items@.len() == old(reg).items@.len(),
        forall|j: int|
            0 <= j < old(reg).items@.len() ==> eq_except_position(
                #[trigger] final(reg).items@[j],
                old(reg).items@[j],
            ),
        forall|j: int|
            0 <= j < old(reg).items@.len() ==> {
                let p = spec_layout_position(
                    spec_sizes(old(reg).items@),
                    container_width as int,
                    j,
                );
                (#[trigger] final(reg).items@[j]).position.x == p.0
                    && final(reg).items@[j].position.y == p.1
            },
{
    let ghost sizes = spec_sizes(old(reg).items@);
    let n = reg.items.len();
    let c = container_width;
    proof {
        assert(sizes.len() == n);
        assert(forall|i: int|
            0 <= i < n ==> #[trigger] sizes[i] == old(reg).items@[i].size && 0 < sizes[i].x
                <= SIZE_LIMIT_FX && 0 < sizes[i].y <= SIZE_LIMIT_FX);
    }

    // Pass 1: the greedy row partition, with each row's packed width and
    // max height.
    let mut starts: Vec<usize> = Vec::new();
    let mut widths: Vec<i64> = Vec::new();
    let mut heights: Vec<i64> = Vec::new();
    let mut j: usize = 0;
    while j < n
        invariant
            old(reg).wf(),
            sizes == spec_sizes(old(reg).items@),
            sizes.len() == n,
            n == old(reg).items@.len(),
            *reg == *old(reg),
            n == reg.items@.len(),
            n <= MAX_LAYOUT_ITEMS,
            0 <= c <= MAX_CONTAINER_FX,
            forall|i: int|
                0 <= i < n ==> #[trigger] sizes[i] == old(reg).items@[i].size && 0 < sizes[i].x
                    <= SIZE_LIMIT_FX && 0 < sizes[i].y <= SIZE_LIMIT_FX,
            j <= n,
            starts@.len() == spec_row_starts(sizes, c as int, j as int).len(),
            widths@.len() == starts@.len(),
            heights@.len() == starts@.len(),
            forall|k: int|
                0 <= k < starts@.len() ==> #[trigger] starts@[k] as int == spec_row_starts(
                    sizes,
                    c as int,
                    j as int,
                )[k],
            forall|k: int|
                0 <= k < starts@.len() ==> #[trigger] widths@[k] == spec_row_width(
                    sizes,
                    spec_row_starts(sizes, c as int, j as int)[k],
                    spec_row_end(spec_row_starts(sizes, c as int, j as int), k, j as int),
                ),
            forall|k: int|
                0 <= k < starts@.len() ==> #[trigger] heights@[k] == spec_row_height(
                    sizes,
                    spec_row_starts(sizes, c as int, j as int)[k],
                    spec_row_end(spec_row_starts(sizes, c as int, j as int), k, j as int),
                ),
            forall|k: int| 0 <= k < widths@.len() ==> 0 <= #[trigger] widths@[k] <= MAX_CONTAINER_FX,
            forall|k: int|
                0 <= k < heights@.len() ==> 0 <= #[trigger] heights@[k] <= SIZE_LIMIT_FX,
        decreases n - j,
    {
        let ghost st = spec_row_starts(sizes, c as int, j as int);
        let ghost st1 = spec_row_starts(sizes, c as int, j as int + 1);
        proof {
            lemma_row_starts_props(sizes, c as int, j as int);
            lemma_row_starts_props(sizes, c as int, j as int + 1);
        }
        let w = reg.items[j].size.x;
        let h = reg.items[j].size.y;
        let nrows = starts.len();
        if nrows == 0 {
            starts.push(j);
            widths.push(w);
            heights.push(h);
            proof {
                assert(st1 =~= seq![0int]);
                assert(spec_row_height(sizes, 0int, 0int) == 0);
                assert(spec_row_height(sizes, 0int, 1int) == sizes[0].y);
                assert(spec_row_width(sizes, 0int, 1int) == sizes[0].x);
            }
        } else {
            let lw = widths[nrows - 1];
            let lh = heights[nrows - 1];
            if lw + GAP_FX + w > c {
                starts.push(j);
                widths.push(w);
                heights.push(h);
                proof {
                    assert(st1 =~= st.push(j as int));
                    assert(forall|k: int|
                        0 <= k < st.len() ==> #[trigger] st1[k] == st[k]);
                    assert(spec_row_height(sizes, j as int, j as int) == 0);
                    assert(spec_row_height(sizes, j as int, j as int + 1) == sizes[j as int].y);
                    assert(spec_row_width(sizes, j as int, j as int + 1) == sizes[j as int].x);
                }
            } else {
                widths[nrows - 1] = lw + GAP_FX + w;
                let nh = if lh >= h {
                    lh
                } else {
                    h
                };
                heights[nrows - 1] = nh;
                proof {
                    assert(st1 =~= st);
                    let start = st.last();
                    assert(start <= j - 1);
                    assert(spec_row_width(sizes, start, j as int + 1) == spec_row_width(
                        sizes,
                        start,
                        j as int,
                    ) + GAP_FX + sizes[j as int].x);
                    assert(spec_row_height(sizes, start, j as int + 1) == vstd::math::max(
                        spec_row_height(sizes, start, j as int),
                        sizes[j as int].y as int,
                    ));
                }
            }
        }
        j = j + 1;
    }
    let ghost st = spec_row_starts(sizes, c as int, n as int);
    proof {
        lemma_row_starts_props(sizes, c as int, n as int);
    }

    // Pass 2: each row's layout-space top and the block's total height.
    let nrows = starts.len();
    let mut tops: Vec<i64> = Vec::new();
    let mut top: i64 = 0;
    let mut r: usize = 0;
    while r < nrows
        invariant
            sizes.len() == n,
            n <= MAX_LAYOUT_ITEMS,
            nrows == starts@.len(),
            nrows <= n,
            r <= nrows,
            st == spec_row_starts(sizes, c as int, n as int),
            nrows == st.len(),
            forall|i: int|
                0 <= i < n ==> 0 < (#[trigger] sizes[i]).x <= SIZE_LIMIT_FX && 0 < sizes[i].y
                    <= SIZE_LIMIT_FX,
            forall|k: int| 0 <= k < nrows ==> #[trigger] starts@[k] as int == st[k],
            forall|k: int|
                0 <= k < nrows ==> #[trigger] heights@[k] == spec_row_height(
                    sizes,
                    st[k],
                    spec_row_end(st, k, n as int),
                ),
            forall|k: int|
                0 <= k < heights@.len() ==> 0 <= #[trigger] heights@[k] <= SIZE_LIMIT_FX,
            heights@.len() == nrows,
            tops@.len() == r,
            top == spec_row_top(sizes, st, r as int),
            forall|k: int|
                0 <= k < r ==> #[trigger] tops@[k] == spec_row_top(sizes, st, k),
            forall|k: int| 0 <= k < r ==> 0 <= #[trigger] tops@[k] <= top,
            0 <= top,
            r > 0 ==> top >= GAP_FX,
            top <= r * (ROW_STRIDE_FX as int),
        decreases nrows - r,
    {
        tops.push(top);
        proof {
            assert((r + 1) as int * (ROW_STRIDE_FX as int) == r as int * (ROW_STRIDE_FX as int)
                + ROW_STRIDE_FX) by (nonlinear_arith);
            assert(r as int * (ROW_STRIDE_FX as int) <= MAX_LAYOUT_ITEMS as int * (
            ROW_STRIDE_FX as int)) by (nonlinear_arith)
                requires
                    0 <= r as int <= MAX_LAYOUT_ITEMS as int,
                    ROW_STRIDE_FX > 0,
            ;
        }
        top = top + heights[r] + GAP_FX;
        r = r + 1;
    }
    let total_h = if nrows > 0 {
        top - GAP_FX
    } else {
        0
    };
    proof {
        assert(total_h == spec_total_height(sizes, st));
        assert(nrows as int * (ROW_STRIDE_FX as int) <= MAX_LAYOUT_ITEMS as int * (
        ROW_STRIDE_FX as int)) by (nonlinear_arith)
            requires nrows as int <= MAX_LAYOUT_ITEMS as int && ROW_STRIDE_FX > 0;
        assert(0 <= total_h <= MAX_LAYOUT_ITEMS as int * (ROW_STRIDE_FX as int));
    }

    // Pass 3: write every box's centered world position.
    let mut r: usize = 0;
    while r < nrows
        invariant
            old(reg).wf(),
            sizes == spec_sizes(old(reg).items@),
            sizes.len() == n,
            n == old(reg).items@.len(),
            n == reg.items@.len(),
            n <= MAX_LAYOUT_ITEMS,
            0 <= c <= MAX_CONTAINER_FX,
            r <= nrows,
            st == spec_row_starts(sizes, c as int, n as int),
            nrows == st.len(),
            nrows == starts@.len(),
            widths@.len() == nrows,
            heights@.len() == nrows,
            tops@.len() == nrows,
            forall|k: int| 0 <= k < nrows ==> #[trigger] starts@[k] as int == st[k],
            forall|k: int|
                0 <= k < nrows ==> #[trigger] widths@[k] == spec_row_width(
                    sizes,
                    st[k],
                    spec_row_end(st, k, n as int),
                ),
            forall|k: int|
                0 <= k < nrows ==> #[trigger] heights@[k] == spec_row_height(
                    sizes,
                    st[k],
                    spec_row_end(st, k, n as int),
                ),
            forall|k: int|
                0 <= k < nrows ==> #[trigger] tops@[k] == spec_row_top(sizes, st, k),
            forall|k: int| 0 <= k < nrows ==> 0 <= #[trigger] widths@[k] <= MAX_CONTAINER_FX,
            forall|k: int| 0 <= k < nrows ==> 0 <= #[trigger] heights@[k] <= SIZE_LIMIT_FX,
            forall|k: int| 0 <= k < nrows ==> 0 <= #[trigger] tops@[k],
            forall|k: int|
                0 <= k < nrows ==> #[trigger] tops@[k] <= MAX_LAYOUT_ITEMS as int * (
                ROW_STRIDE_FX as int),
            0 <= total_h <= MAX_LAYOUT_ITEMS as int * (ROW_STRIDE_FX as int),
            total_h == spec_total_height(sizes, st),
            forall|k: int| 0 <= k < st.len() ==> 0 <= #[trigger] st[k] < n,
            nrows > 0 ==> st[0] == 0,
            forall|k1: int, k2: int|
                0 <= k1 < k2 < st.len() ==> #[trigger] st[k1] < #[trigger] st[k2],
            forall|idx: int|
                0 <= idx < n ==> eq_except_position(
                    #[trigger] reg.items@[idx],
                    old(reg).items@[idx],
                ),
            reg.wf(),
            forall|idx: int|
                0 <= idx < n && idx < (if r < nrows {
                    st[r as int]
                } else {
                    n as int
                }) ==> {
                    let p = spec_layout_position(sizes, c as int, idx);
                    (#[trigger] reg.items@[idx]).position.x == p.0 && reg.items@[idx].position.y
                        == p.1
                },
            forall|idx: int|
                (if r < nrows {
                    st[r as int]
                } else {
                    n as int
                }) <= idx < n ==> (#[trigger] reg.items@[idx]).position == old(
                    reg,
                ).items@[idx].position,
        decreases nrows - r,
    {
        let start = starts[r];
        let end = if r + 1 < nrows {
            starts[r + 1]
        } else {
            n
        };
        let row_w = widths[r];
        let row_h = heights[r];
        let row_top = tops[r];
        let y = total_h / 2 - row_top - row_h / 2;
        let ghost rend = spec_row_end(st, r as int, n as int);
        proof {
            assert(rend == end as int);
            assert(-POS_LIMIT <= y <= POS_LIMIT);
        }
        let mut offset: i64 = 0;
        let mut jj: usize = start;
        while jj < end
            invariant
                old(reg).wf(),
                sizes == spec_sizes(old(reg).items@),
                sizes.len() == n,
                n == old(reg).items@.len(),
                n == reg.items@.len(),
                0 <= c <= MAX_CONTAINER_FX,
                r < nrows,
                st == spec_row_starts(sizes, c as int, n as int),
                nrows == st.len(),
                start as int == st[r as int],
                end as int == spec_row_end(st, r as int, n as int),
                start <= jj <= end,
                end <= n,
                row_w == spec_row_width(sizes, st[r as int], spec_row_end(st, r as int, n as int)),
                row_h == spec_row_height(sizes, st[r as int], spec_row_end(st, r as int, n as int)),
                row_top == spec_row_top(sizes, st, r as int),
                0 <= row_w <= MAX_CONTAINER_FX,
                0 <= row_h <= SIZE_LIMIT_FX,
                0 <= row_top <= MAX_LAYOUT_ITEMS as int * (ROW_STRIDE_FX as int),
                0 <= total_h <= MAX_LAYOUT_ITEMS as int * (ROW_STRIDE_FX as int),
                total_h == spec_total_height(sizes, st),
                y == total_h / 2 - row_top - row_h / 2,
                -POS_LIMIT <= y <= POS_LIMIT,
                offset == spec_offset_in_row(sizes, start as int, jj as int),
                0 <= offset <= row_w + GAP_FX,
                forall|k: int| 0 <= k < st.len() ==> 0 <= #[trigger] st[k] < n,
                forall|k1: int, k2: int|
                    0 <= k1 < k2 < st.len() ==> #[trigger] st[k1] < #[trigger] st[k2],
                forall|idx: int|
                    0 <= idx < n ==> eq_except_position(
                        #[trigger] reg.items@[idx],
                        old(reg).items@[idx],
                    ),
                reg.wf(),
                forall|idx: int|
                    0 <= idx < jj && idx < n ==> {
                        let p = spec_layout_position(sizes, c as int, idx);
                        (#[trigger] reg.items@[idx]).position.x == p.0 && reg.items@[idx].position.y
                            == p.1
                    },
                forall|idx: int|
                    jj <= idx < n ==> (#[trigger] reg.items@[idx]).position == old(
                        reg,
                    ).items@[idx].position,
            decreases end - jj,
        {
            let w = reg.items[jj].size.x;
            proof {
                assert(reg.items@[jj as int].size == sizes[jj as int]);
                lemma_row_width_mono(sizes, start as int, jj as int + 1, end as int);
                if jj > start {
                    assert(spec_row_width(sizes, start as int, jj as int + 1) == spec_row_width(
                        sizes,
                        start as int,
                        jj as int,
                    ) + GAP_FX + sizes[jj as int].x);
                }
                assert(offset + w <= row_w);
            }
            let x = offset + w / 2 - row_w / 2;
            proof {
                lemma_row_of_locate(st, r as int, jj as int);
                assert(-POS_LIMIT <= x <= POS_LIMIT);
            }
            let size = reg.items[jj].size;
            let z = reg.items[jj].z;
            let selected = reg.items[jj].selected;
            let channel = reg.items[jj].channel;
            let source_path = reg.items[jj].source_path.clone();
            reg.items[jj] = CanvasItem {
                position: Vec2Fx { x, y },
                size,
                z,
                selected,
                channel,
                source_path,
            };
            offset = offset + w + GAP_FX;
            jj = jj + 1;
        }
        proof {
            if r + 1 < nrows {
                assert(st[r as int] < st[r as int + 1]);
            }
        }
        r = r + 1;
    }
}

} // verus!
