//! Camera controller: pan/zoom state, per-frame zoom smoothing with
//! cursor-anchored correction, resampling hysteresis and the world<->screen
//! transform.
//!
//! Screen positions are plain pixel counts; scales and world coordinates are
//! fixed-point (`FX_ONE`). The world point under a screen pixel `p` of a
//! viewport `(vw, vh)` is `translation + c * current_scale`, where
//! `c = (p.x - vw/2, vh/2 - p.y)` is the cursor offset from the viewport
//! center with the vertical axis flipped (screen y grows down, world y up).

use vstd::prelude::*;

use crate::units::{clamp_i64, spec_clamp_i64, Vec2Fx, FX_ONE};

verus! {

/// Smallest zoom scale (0.05).
pub const MIN_ZOOM: i64 = 50_000;

/// Largest zoom scale (20.0).
pub const MAX_ZOOM: i64 = 20_000_000;

/// Scale at startup and after a reset (2.0).
pub const INITIAL_ZOOM: i64 = 2_000_000;

/// Smoothing rate: the lerp fraction per frame is `SMOOTH_SPEED * dt`.
pub const SMOOTH_SPEED: i64 = 12;

/// Frame times are capped at this before smoothing (1/60 s), so a long
/// frame hitch cannot make the zoom jump.
pub const MAX_DT_FX: i64 = 16_666;

/// Idle threshold (0.001): with no scroll and the current scale this close
/// to the target, the whole zoom pass is skipped.
pub const SCALE_EPS: i64 = 1_000;

/// Commit threshold (0.0001): a smoothing step smaller than this is
/// discarded, so no redundant transform updates happen near rest.
pub const SCALE_COMMIT_EPS: i64 = 100;

/// At or below this scale (0.1) every item's texture is sampled
/// nearest-neighbor; above it, with smooth interpolation.
pub const PIXEL_PERFECT_MAX: i64 = 100_000;

/// Largest accepted zoom factor per scroll event (400000.0).
pub const ZOOM_FACTOR_MAX: i64 = 400_000_000_000;

/// Bound on the camera translation on each axis; pan and zoom clamp into it.
pub const TRANS_LIMIT: i64 = 10_000_000_000_000_000;

/// Largest accepted viewport dimension and pointer delta, in pixels.
pub const MAX_SCREEN_PX: i64 = 1_000_000;

/// Smallest lerp fraction at which a smoothing step is guaranteed to make
/// progress from any distance at or above `SCALE_EPS` (0.125, the fraction
/// reached at frame times of about 10 ms and above).
pub const ZOOM_PROGRESS_T: i64 = 125_000;

/// Texture sampling mode for the items, switched on zoom threshold
/// crossings.
#[derive(Clone, Copy, Debug, PartialEq, Eq, Structural)]
pub enum SamplerMode {
    Nearest,
    Linear,
}

/// The camera's pan/zoom state: one per canvas.
#[derive(Clone, Copy, Debug, PartialEq, Eq, Structural)]
pub struct CamStatus {
    /// World-space camera translation.
    pub translation: Vec2Fx,
    /// The scale the zoom is heading toward.
    pub target_scale: i64,
    /// The scale rendered this frame; converges toward `target_scale`.
    pub current_scale: i64,
    /// Whether nearest-neighbor sampling is currently enabled.
    pub enable_pixel_perfect: bool,
}

impl CamStatus {
    /// Both scales within the zoom bounds and the translation within its
    /// limits.
    pub open spec fn wf(self) -> bool {
        &&& MIN_ZOOM <= self.target_scale <= MAX_ZOOM
        &&& MIN_ZOOM <= self.current_scale <= MAX_ZOOM
        &&& -TRANS_LIMIT <= self.translation.x <= TRANS_LIMIT
        &&& -TRANS_LIMIT <= self.translation.y <= TRANS_LIMIT
    }

    /// The camera at startup: origin translation, initial scale, smooth
    /// sampling.
    pub fn new() -> (r: CamStatus)
        ensures
            r.translation.x == 0,
            r.translation.y == 0,
            r.target_scale == INITIAL_ZOOM,
            r.current_scale == INITIAL_ZOOM,
            !r.enable_pixel_perfect,
            r.wf(),
    {
        CamStatus {
            translation: Vec2Fx { x: 0, y: 0 },
            target_scale: INITIAL_ZOOM,
            current_scale: INITIAL_ZOOM,
            enable_pixel_perfect: false,
        }
    }

    /// Moves the camera back over the origin, keeping the zoom: the layout
    /// pass recenters the view this way, since the laid-out block is
    /// centered around the origin.
    pub fn recenter(&mut self)
        requires
            old(self).wf(),
        ensures
            final(self).translation.x == 0,
            final(self).translation.y == 0,
            final(self).target_scale == old(self).target_scale,
            final(self).current_scale == old(self).current_scale,
            final(self).enable_pixel_perfect == old(self).enable_pixel_perfect,
            final(self).wf(),
    {
        self.translation = Vec2Fx { x: 0, y: 0 };
    }

    /// Restores the translation to the origin and both scales to the
    /// initial value; the sampling flag is untouched.
    pub fn reset(&mut self)
        ensures
            final(self).translation.x == 0,
            final(self).translation.y == 0,
            final(self).target_scale == INITIAL_ZOOM,
            final(self).current_scale == INITIAL_ZOOM,
            final(self).enable_pixel_perfect == old(self).enable_pixel_perfect,
            final(self).wf(),
    {
        self.translation = Vec2Fx { x: 0, y: 0 };
        self.target_scale = INITIAL_ZOOM;
        self.current_scale = INITIAL_ZOOM;
    }
}

/// The world point under screen pixel `(px, py)` of a `(vw, vh)` viewport,
/// as an `(x, y)` pair of unbounded fixed-point coordinates.
pub open spec fn spec_world_of_cursor(cam: CamStatus, px: int, py: int, vw: int, vh: int) -> (
    int,
    int,
) {
    (
        cam.translation.x + (px - vw / 2) * cam.current_scale,
        cam.translation.y + (vh / 2 - py) * cam.current_scale,
    )
}

/// The world<->screen transform, executable: pure and stateless given the
/// camera state.
pub fn world_of_cursor(cam: &CamStatus, px: i64, py: i64, vw: i64, vh: i64) -> (r: Vec2Fx)
    requires
        cam.wf(),
        0 < vw <= MAX_SCREEN_PX,
        0 < vh <= MAX_SCREEN_PX,
        0 <= px <= vw,
        0 <= py <= vh,
    ensures
        (r.x as int, r.y as int) == spec_world_of_cursor(*cam, px as int, py as int, vw as int, vh as int),
{
    let cx = px - vw / 2;
    let cy = vh / 2 - py;
    proof {
        assert(-MAX_SCREEN_PX * MAX_ZOOM <= cx * cam.current_scale <= MAX_SCREEN_PX * MAX_ZOOM)
            by (nonlinear_arith)
            requires
                -MAX_SCREEN_PX <= cx <= MAX_SCREEN_PX,
                0 <= cam.current_scale <= MAX_ZOOM,
        ;
        assert(-MAX_SCREEN_PX * MAX_ZOOM <= cy * cam.current_scale <= MAX_SCREEN_PX * MAX_ZOOM)
            by (nonlinear_arith)
            requires
                -MAX_SCREEN_PX <= cy <= MAX_SCREEN_PX,
                0 <= cam.current_scale <= MAX_ZOOM,
        ;
    }
    Vec2Fx { x: cam.translation.x + cx * cam.current_scale, y: cam.translation.y + cy * cam.current_scale }
}

/// Linear interpolation from `cur` toward `tgt` by the fraction `t` (fixed
/// point), truncating toward `cur`.
pub open spec fn spec_lerp(cur: int, tgt: int, t: int) -> int {
    if tgt >= cur {
        cur + (tgt - cur) * t / (FX_ONE as int)
    } else {
        cur - (cur - tgt) * t / (FX_ONE as int)
    }
}

/// The target scale after a frame: scaled by the zoom factor and clamped
/// when any scroll arrived, otherwise unchanged.
pub open spec fn spec_zoom_target(tgt: int, scroll: int, factor: int) -> int {
    if scroll != 0 {
        spec_clamp_i64(tgt * factor / (FX_ONE as int), MIN_ZOOM as int, MAX_ZOOM as int)
    } else {
        tgt
    }
}

/// The lerp fraction for a frame of duration `dt`: the smoothing rate times
/// the capped frame time.
pub open spec fn spec_smooth_t(dt: int) -> int {
    (SMOOTH_SPEED as int) * (if dt > MAX_DT_FX { MAX_DT_FX as int } else { dt })
}

/// The current scale after one smoothing step: the lerp result if it moved
/// by more than the commit threshold, else unchanged.
pub open spec fn spec_zoom_next_scale(s0: int, tgt: int, t: int) -> int {
    let s1 = spec_lerp(s0, tgt, t);
    if vstd::math::abs(s1 - s0) > SCALE_COMMIT_EPS {
        s1
    } else {
        s0
    }
}

/// Whether nearest-neighbor sampling is on after a committed step to scale
/// `s`.
pub open spec fn spec_pixel_perfect_after(s: int) -> bool {
    s <= PIXEL_PERFECT_MAX
}

/// Scaling by a fixed-point fraction of at most one never exceeds the
/// multiplicand.
proof fn lemma_mul_div_le(d: int, t: int)
    requires
        0 <= d,
        0 <= t <= FX_ONE,
    ensures
        0 <= d * t / (FX_ONE as int) <= d,
{
    assert(d * t <= d * FX_ONE) by (nonlinear_arith)
        requires 0 <= d && t <= FX_ONE;
    assert(0 <= d * t) by (nonlinear_arith)
        requires 0 <= d && 0 <= t;
    vstd::arithmetic::div_mod::lemma_div_is_ordered(d * t, d * (FX_ONE as int), FX_ONE as int);
    vstd::arithmetic::div_mod::lemma_div_multiples_vanish(d, FX_ONE as int);
    vstd::arithmetic::div_mod::lemma_div_pos_is_pos(d * t, FX_ONE as int);
}

/// A smoothing step never overshoots: the new scale lies between the old
/// scale and the target, so it stays inside any interval holding both.
pub proof fn lemma_lerp_in_range(s0: int, tgt: int, t: int)
    requires
        0 <= t <= FX_ONE,
    ensures
        tgt >= s0 ==> s0 <= spec_lerp(s0, tgt, t) <= tgt,
        tgt < s0 ==> tgt <= spec_lerp(s0, tgt, t) <= s0,
{
    if tgt >= s0 {
        lemma_mul_div_le(tgt - s0, t);
    } else {
        lemma_mul_div_le(s0 - tgt, t);
    }
}

/// Zoom smoothing converges: one frame's committed scale never moves away
/// from the target, and whenever the distance to the target is at least the
/// idle threshold and the frame's lerp fraction is at least
/// `ZOOM_PROGRESS_T`, the distance strictly shrinks. Together with the idle
/// fast-path (an unchanged state once within the threshold, stated in
/// `zoom_update`'s contract), the current scale converges to the target and
/// stays there under a zero scroll delta across frames.
pub proof fn lemma_zoom_convergence(s0: int, tgt: int, t: int)
    requires
        0 <= t <= FX_ONE,
    ensures
        vstd::math::abs(spec_zoom_next_scale(s0, tgt, t) - tgt) <= vstd::math::abs(s0 - tgt),
        vstd::math::abs(s0 - tgt) >= SCALE_EPS && t >= ZOOM_PROGRESS_T ==> vstd::math::abs(
            spec_zoom_next_scale(s0, tgt, t) - tgt,
        ) < vstd::math::abs(s0 - tgt),
{
    lemma_lerp_in_range(s0, tgt, t);
    if vstd::math::abs(s0 - tgt) >= SCALE_EPS && t >= ZOOM_PROGRESS_T {
        let d = vstd::math::abs(s0 - tgt);
        assert(d * t >= SCALE_EPS * ZOOM_PROGRESS_T) by (nonlinear_arith)
            requires d >= SCALE_EPS && t >= ZOOM_PROGRESS_T && SCALE_EPS > 0 && ZOOM_PROGRESS_T > 0;
        vstd::arithmetic::div_mod::lemma_div_is_ordered(
            (SCALE_EPS * ZOOM_PROGRESS_T) as int,
            d * t,
            FX_ONE as int,
        );
        vstd::arithmetic::div_mod::lemma_div_multiples_vanish(125, FX_ONE as int);
        assert((SCALE_EPS * ZOOM_PROGRESS_T) as int == 125 * (FX_ONE as int));
    }
}

/// One frame of the zoom pass, mirroring the per-frame camera system.
///
/// `scroll` is the frame's summed wheel delta; `zoom_factor` is the
/// exponential factor the caller derived from it (used only when `scroll`
/// is nonzero); `dt` is the frame time in fixed-point seconds; `cursor` is
/// the pointer position in viewport pixels, if the pointer is inside the
/// `(vw, vh)` viewport.
///
/// With no scroll and the scale already settled, or with no cursor
/// available, nothing changes. Otherwise the target scale takes the zoom
/// factor (clamped to the zoom bounds), the current scale lerps toward it,
/// and a committed step corrects the translation so the world point under
/// the cursor is preserved, then switches the sampling mode on a threshold
/// crossing; the returned mode, if any, is what every visible item's
/// texture must switch to.
pub fn zoom_update(
    cam: &mut CamStatus,
    scroll: i64,
    zoom_factor: i64,
    dt: i64,
    cursor: Option<(i64, i64)>,
    vw: i64,
    vh: i64,
) -> (r: Option<SamplerMode>)
    requires
        old(cam).wf(),
        0 <= zoom_factor <= ZOOM_FACTOR_MAX,
        0 <= dt,
        0 < vw <= MAX_SCREEN_PX,
        0 < vh <= MAX_SCREEN_PX,
        cursor matches Some(c) ==> 0 <= c.0 <= vw && 0 <= c.1 <= vh,
    ensures
        final(cam).wf(),
        scroll == 0 && vstd::math::abs(old(cam).target_scale - old(cam).current_scale)
            < SCALE_EPS || cursor is None ==> *final(cam) == *old(cam) && r is None,
        !(scroll == 0 && vstd::math::abs(old(cam).target_scale - old(cam).current_scale)
            < SCALE_EPS) && cursor is Some ==> {
            let c = cursor->Some_0;
            let tgt1 = spec_zoom_target(old(cam).target_scale as int, scroll as int, zoom_factor as int);
            let t = spec_smooth_t(dt as int);
            let s0 = old(cam).current_scale as int;
            let s1 = spec_lerp(s0, tgt1, t);
            let committed = vstd::math::abs(s1 - s0) > SCALE_COMMIT_EPS;
            &&& final(cam).target_scale == tgt1
            &&& final(cam).current_scale == spec_zoom_next_scale(s0, tgt1, t)
            &&& (committed ==> {
                &&& final(cam).translation.x == spec_clamp_i64(
                    old(cam).translation.x + (c.0 - vw / 2) * (s0 - s1),
                    -TRANS_LIMIT as int,
                    TRANS_LIMIT as int,
                )
                &&& final(cam).translation.y == spec_clamp_i64(
                    old(cam).translation.y + (vh / 2 - c.1) * (s0 - s1),
                    -TRANS_LIMIT as int,
                    TRANS_LIMIT as int,
                )
                &&& final(cam).enable_pixel_perfect == spec_pixel_perfect_after(s1)
                &&& r == (if final(cam).enable_pixel_perfect != old(cam).enable_pixel_perfect {
                    Some(
                        if final(cam).enable_pixel_perfect {
                            SamplerMode::Nearest
                        } else {
                            SamplerMode::Linear
                        },
                    )
                } else {
                    None::<SamplerMode>
                })
            })
            &&& (!committed ==> final(cam).translation == old(cam).translation
                && final(cam).enable_pixel_perfect == old(cam).enable_pixel_perfect && r is None)
        },
{
    let diff_idle = if cam.target_scale >= cam.current_scale {
        cam.target_scale - cam.current_scale
    } else {
        cam.current_scale - cam.target_scale
    };
    if scroll == 0 && diff_idle < SCALE_EPS {
        return None;
    }
    let (px, py) = match cursor {
        Some(c) => c,
        None => {
            return None;
        },
    };

    if scroll != 0 {
        proof {
            assert(0 <= cam.target_scale * zoom_factor <= MAX_ZOOM * ZOOM_FACTOR_MAX)
                by (nonlinear_arith)
                requires
                    0 <= cam.target_scale <= MAX_ZOOM,
                    0 <= zoom_factor <= ZOOM_FACTOR_MAX,
            ;
        }
        let scaled = cam.target_scale * zoom_factor / FX_ONE;
        cam.target_scale = clamp_i64(scaled, MIN_ZOOM, MAX_ZOOM);
    }

    let dtc = if dt > MAX_DT_FX {
        MAX_DT_FX
    } else {
        dt
    };
    let t = SMOOTH_SPEED * dtc;
    let s0 = cam.current_scale;
    let tgt = cam.target_scale;
    proof {
        lemma_lerp_in_range(s0 as int, tgt as int, t as int);
        if tgt >= s0 {
            lemma_mul_div_le((tgt - s0) as int, t as int);
        } else {
            lemma_mul_div_le((s0 - tgt) as int, t as int);
        }
        assert(0 <= (if tgt >= s0 { (tgt - s0) as int } else { (s0 - tgt) as int }) * t
            <= MAX_ZOOM * FX_ONE) by (nonlinear_arith)
            requires
                0 <= (if tgt >= s0 { (tgt - s0) as int } else { (s0 - tgt) as int }) <= MAX_ZOOM,
                0 <= t <= FX_ONE,
        ;
    }
    let s1 = if tgt >= s0 {
        s0 + (tgt - s0) * t / FX_ONE
    } else {
        s0 - (s0 - tgt) * t / FX_ONE
    };
    let step = if s1 >= s0 {
        s1 - s0
    } else {
        s0 - s1
    };
    if step > SCALE_COMMIT_EPS {
        let cx = px - vw / 2;
        let cy = vh / 2 - py;
        let ds = s0 - s1;
        proof {
            assert(-MAX_SCREEN_PX * MAX_ZOOM <= cx * ds <= MAX_SCREEN_PX * MAX_ZOOM)
                by (nonlinear_arith)
                requires
                    -MAX_SCREEN_PX <= cx <= MAX_SCREEN_PX,
                    -MAX_ZOOM <= ds <= MAX_ZOOM,
            ;
            assert(-MAX_SCREEN_PX * MAX_ZOOM <= cy * ds <= MAX_SCREEN_PX * MAX_ZOOM)
                by (nonlinear_arith)
                requires
                    -MAX_SCREEN_PX <= cy <= MAX_SCREEN_PX,
                    -MAX_ZOOM <= ds <= MAX_ZOOM,
            ;
        }
        cam.translation.x = clamp_i64(cam.translation.x + cx * ds, -TRANS_LIMIT, TRANS_LIMIT);
        cam.translation.y = clamp_i64(cam.translation.y + cy * ds, -TRANS_LIMIT, TRANS_LIMIT);
        cam.current_scale = s1;
        if s1 <= PIXEL_PERFECT_MAX {
            if !cam.enable_pixel_perfect {
                cam.enable_pixel_perfect = true;
                return Some(SamplerMode::Nearest);
            }
            None
        } else {
            if cam.enable_pixel_perfect {
                cam.enable_pixel_perfect = false;
                return Some(SamplerMode::Linear);
            }
            None
        }
    } else {
        None
    }
}

/// Cursor-anchored zoom: whenever a committed step's translation
/// correction lands inside the translation limits (so no clamping occurs),
/// the world point under the cursor after the step equals the world point
/// under the cursor before it, exactly.
pub proof fn lemma_cursor_anchor(cam0: CamStatus, cam1: CamStatus, px: int, py: int, vw: int, vh: int)
    requires
        cam1.translation.x == cam0.translation.x + (px - vw / 2) * (
        cam0.current_scale - cam1.current_scale),
        cam1.translation.y == cam0.translation.y + (vh / 2 - py) * (
        cam0.current_scale - cam1.current_scale),
    ensures
        spec_world_of_cursor(cam1, px, py, vw, vh) == spec_world_of_cursor(cam0, px, py, vw, vh),
{
    let cx = px - vw / 2;
    let cy = vh / 2 - py;
    let s0 = cam0.current_scale as int;
    let s1 = cam1.current_scale as int;
    assert(cx * (s0 - s1) + cx * s1 == cx * s0) by (nonlinear_arith);
    assert(cy * (s0 - s1) + cy * s1 == cy * s0) by (nonlinear_arith);
}

/// One frame of the pan pass: while the pan button is held, the camera
/// translates opposite to the pointer motion, scaled by the current zoom,
/// with the vertical axis flipped; 1:1 with input, no smoothing. The
/// translation is clamped into its limits.
pub fn pan_update(cam: &mut CamStatus, dx: i64, dy: i64)
    requires
        old(cam).wf(),
        -MAX_SCREEN_PX <= dx <= MAX_SCREEN_PX,
        -MAX_SCREEN_PX <= dy <= MAX_SCREEN_PX,
    ensures
        final(cam).wf(),
        final(cam).translation.x == spec_clamp_i64(
            old(cam).translation.x - dx * old(cam).current_scale,
            -TRANS_LIMIT as int,
            TRANS_LIMIT as int,
        ),
        final(cam).translation.y == spec_clamp_i64(
            old(cam).translation.y + dy * old(cam).current_scale,
            -TRANS_LIMIT as int,
            TRANS_LIMIT as int,
        ),
        final(cam).target_scale == old(cam).target_scale,
        final(cam).current_scale == old(cam).current_scale,
        final(cam).enable_pixel_perfect == old(cam).enable_pixel_perfect,
{
    let s = cam.current_scale;
    proof {
        assert(-MAX_SCREEN_PX * MAX_ZOOM <= dx * s <= MAX_SCREEN_PX * MAX_ZOOM)
            by (nonlinear_arith)
            requires
                -MAX_SCREEN_PX <= dx <= MAX_SCREEN_PX,
                0 <= s <= MAX_ZOOM,
        ;
        assert(-MAX_SCREEN_PX * MAX_ZOOM <= dy * s <= MAX_SCREEN_PX * MAX_ZOOM)
            by (nonlinear_arith)
            requires
                -MAX_SCREEN_PX <= dy <= MAX_SCREEN_PX,
                0 <= s <= MAX_ZOOM,
        ;
    }
    cam.translation.x = clamp_i64(cam.translation.x - dx * s, -TRANS_LIMIT, TRANS_LIMIT);
    cam.translation.y = clamp_i64(cam.translation.y + dy * s, -TRANS_LIMIT, TRANS_LIMIT);
}

} // verus!
