//! Drag/selection controller: a drag gesture is bound to the item under the
//! pointer at gesture start; each motion event moves that item and every
//! other selected item by one camera-scaled world-space delta.
//!
//! Selection toggling itself is a pointer-picking concern outside this
//! module; this controller only consumes the resulting flags. Dragging is
//! disabled while the pan modifier is held, to disambiguate canvas panning
//! from item dragging.

use vstd::prelude::*;

use crate::camera::{MAX_SCREEN_PX, MAX_ZOOM, MIN_ZOOM};
use crate::registry::{eq_except_position, CanvasItem, Registry, POS_LIMIT};
use crate::units::{clamp_i64, spec_clamp_i64, Vec2Fx};

verus! {

/// Drag speed: world-space motion per screen pixel, besides the zoom
/// scale. 1:1 with input.
pub const DRAG_SPEED: i64 = 1;

/// Whether item `i` takes part in a drag bound to item `dragged`: the
/// dragged item always does, and so does every selected item.
pub open spec fn spec_drag_moves(items: Seq<CanvasItem>, dragged: int, i: int) -> bool {
    i == dragged || items[i].selected
}

/// One drag-motion event: moves the dragged item and every selected item
/// by the identical delta `(dx, -dy) * DRAG_SPEED * current_scale` (screen
/// y grows down, world y up), clamped into the position limits; every
/// other item, and everything but positions, is untouched. A no-op while
/// the pan modifier is held.
pub fn drag_update(
    reg: &mut Registry,
    dragged: usize,
    dx: i64,
    dy: i64,
    current_scale: i64,
    pan_held: bool,
)
    requires
        old(reg).wf(),
        dragged < old(reg).items@.len(),
        -MAX_SCREEN_PX <= dx <= MAX_SCREEN_PX,
        -MAX_SCREEN_PX <= dy <= MAX_SCREEN_PX,
        MIN_ZOOM <= current_scale <= MAX_ZOOM,
    ensures
        final(reg).wf(),
        final(reg).items@.len() == old(reg).items@.len(),
        pan_held ==> final(reg).items@ == old(reg).items@,
        !pan_held ==> forall|i: int|
            0 <= i < old(reg).items@.len() && !spec_drag_moves(old(reg).items@, dragged as int, i)
                ==> #[trigger] final(reg).items@[i] == old(reg).items@[i],
        !pan_held ==> forall|i: int|
            0 <= i < old(reg).items@.len() && spec_drag_moves(old(reg).items@, dragged as int, i)
                ==> eq_except_position(#[trigger] final(reg).items@[i], old(reg).items@[i])
                && final(reg).items@[i].position.x == spec_clamp_i64(
                old(reg).items@[i].position.x + dx * DRAG_SPEED * current_scale,
                -POS_LIMIT as int,
                POS_LIMIT as int,
            ) && final(reg).items@[i].position.y == spec_clamp_i64(
                old(reg).items@[i].position.y - dy * DRAG_SPEED * current_scale,
                -POS_LIMIT as int,
                POS_LIMIT as int,
            ),
{
    if pan_held {
        return ;
    }
    proof {
        assert(-MAX_SCREEN_PX * MAX_ZOOM <= dx * DRAG_SPEED * current_scale <= MAX_SCREEN_PX
            * MAX_ZOOM) by (nonlinear_arith)
            requires
                -MAX_SCREEN_PX <= dx <= MAX_SCREEN_PX,
                0 < current_scale <= MAX_ZOOM,
                DRAG_SPEED == 1,
        ;
        assert(-MAX_SCREEN_PX * MAX_ZOOM <= dy * DRAG_SPEED * current_scale <= MAX_SCREEN_PX
            * MAX_ZOOM) by (nonlinear_arith)
            requires
                -MAX_SCREEN_PX <= dy <= MAX_SCREEN_PX,
                0 < current_scale <= MAX_ZOOM,
                DRAG_SPEED == 1,
        ;
    }
    let ddx = dx * DRAG_SPEED * current_scale;
    let ddy = dy * DRAG_SPEED * current_scale;
    let n = reg.items.len();
    let mut i: usize = 0;
    while i < n
        invariant
            old(reg).wf(),
            n == old(reg).items@.len(),
            n == reg.items@.len(),
            dragged < n,
            i <= n,
            ddx == dx * DRAG_SPEED * current_scale,
            ddy == dy * DRAG_SPEED * current_scale,
            -MAX_SCREEN_PX * MAX_ZOOM <= ddx <= MAX_SCREEN_PX * MAX_ZOOM,
            -MAX_SCREEN_PX * MAX_ZOOM <= ddy <= MAX_SCREEN_PX * MAX_ZOOM,
            reg.wf(),
            forall|k: int| i <= k < n ==> #[trigger] reg.items@[k] == old(reg).items@[k],
            forall|k: int|
                0 <= k < i && !spec_drag_moves(old(reg).items@, dragged as int, k)
                    ==> #[trigger] reg.items@[k] == old(reg).items@[k],
            forall|k: int|
                0 <= k < i && spec_drag_moves(old(reg).items@, dragged as int, k)
                    ==> eq_except_position(#[trigger] reg.items@[k], old(reg).items@[k])
                    && reg.items@[k].position.x == spec_clamp_i64(
                    old(reg).items@[k].position.x + ddx,
                    -POS_LIMIT as int,
                    POS_LIMIT as int,
                ) && reg.items@[k].position.y == spec_clamp_i64(
                    old(reg).items@[k].position.y - ddy,
                    -POS_LIMIT as int,
                    POS_LIMIT as int,
                ),
        decreases n - i,
    {
        let moves = i == dragged || reg.items[i].selected;
        if moves {
            let px = clamp_i64(reg.items[i].position.x + ddx, -POS_LIMIT, POS_LIMIT);
            let py = clamp_i64(reg.items[i].position.y - ddy, -POS_LIMIT, POS_LIMIT);
            let size = reg.items[i].size;
            let z = reg.items[i].z;
            let selected = reg.items[i].selected;
            let channel = reg.items[i].channel;
            let source_path = reg.items[i].source_path.clone();
            reg.items[i] = CanvasItem {
                position: Vec2Fx { x: px, y: py },
                size,
                z,
                selected,
                channel,
                source_path,
            };
        }
        i = i + 1;
    }
}

/// Moving together: any two items taking part in one drag whose corrected
/// positions stay within the position limits are displaced by exactly the
/// same world-space delta.
pub proof fn lemma_drag_moves_together(p1: int, p2: int, d: int)
    requires
        -POS_LIMIT <= p1 + d <= POS_LIMIT,
        -POS_LIMIT <= p2 + d <= POS_LIMIT,
    ensures
        spec_clamp_i64(p1 + d, -POS_LIMIT as int, POS_LIMIT as int) - p1 == spec_clamp_i64(
            p2 + d,
            -POS_LIMIT as int,
            POS_LIMIT as int,
        ) - p2,
{
}

} // verus!
