use img_maniac::camera::{
    pan_update, world_of_cursor, zoom_update, CamStatus, SamplerMode, INITIAL_ZOOM, MAX_ZOOM,
    MIN_ZOOM, SCALE_EPS,
};

const DT_60FPS: i64 = 16_666;
const VW: i64 = 1440;
const VH: i64 = 900;

fn diff(a: i64, b: i64) -> i64 {
    if a >= b { a - b } else { b - a }
}

#[test]
fn new_camera_is_at_rest() {
    let cam = CamStatus::new();
    assert_eq!(cam.current_scale, INITIAL_ZOOM);
    assert_eq!(cam.target_scale, INITIAL_ZOOM);
    assert_eq!(cam.translation.x, 0);
    assert_eq!(cam.translation.y, 0);
    assert!(!cam.enable_pixel_perfect);
}

#[test]
fn zoom_converges_and_stays_under_zero_scroll() {
    let mut cam = CamStatus::new();
    // One scroll event zooms toward half the scale.
    zoom_update(&mut cam, 1, 500_000, DT_60FPS, Some((720, 450)), VW, VH);
    assert_eq!(cam.target_scale, 1_000_000);
    assert!(cam.current_scale != cam.target_scale);

    // Zero-scroll frames converge to the target...
    for _ in 0..200 {
        zoom_update(&mut cam, 0, 1_000_000, DT_60FPS, Some((720, 450)), VW, VH);
    }
    assert!(diff(cam.current_scale, cam.target_scale) < SCALE_EPS);

    // ...and stay there: once settled, frames change nothing at all.
    let settled = cam;
    for _ in 0..10 {
        let r = zoom_update(&mut cam, 0, 1_000_000, DT_60FPS, Some((720, 450)), VW, VH);
        assert!(r.is_none());
    }
    assert_eq!(cam, settled);
}

#[test]
fn zoom_without_cursor_changes_nothing() {
    let mut cam = CamStatus::new();
    let before = cam;
    let r = zoom_update(&mut cam, 3, 500_000, DT_60FPS, None, VW, VH);
    assert!(r.is_none());
    assert_eq!(cam, before);
}

#[test]
fn zoom_is_clamped_to_bounds() {
    let mut cam = CamStatus::new();
    // A huge zoom-out factor pins the target at the maximum...
    zoom_update(&mut cam, -1, 400_000_000_000, DT_60FPS, Some((10, 10)), VW, VH);
    assert_eq!(cam.target_scale, MAX_ZOOM);
    // ...and a tiny zoom-in factor pins it at the minimum.
    let mut cam2 = CamStatus::new();
    zoom_update(&mut cam2, 1, 0, DT_60FPS, Some((10, 10)), VW, VH);
    assert_eq!(cam2.target_scale, MIN_ZOOM);
}

#[test]
fn cursor_anchored_zoom_preserves_world_point_under_cursor() {
    let mut cam = CamStatus::new();
    cam.translation.x = 123_456_789;
    cam.translation.y = -987_654_321;
    let cursor = (333, 777);
    for step in 0..50 {
        let before = world_of_cursor(&cam, cursor.0, cursor.1, VW, VH);
        let scroll = if step % 2 == 0 { 2 } else { -1 };
        let factor = if step % 2 == 0 { 760_000 } else { 1_160_000 };
        zoom_update(&mut cam, scroll, factor, DT_60FPS, Some(cursor), VW, VH);
        let after = world_of_cursor(&cam, cursor.0, cursor.1, VW, VH);
        assert_eq!(before, after, "cursor anchor broke at step {}", step);
    }
}

#[test]
fn sampler_switches_on_threshold_crossings_only() {
    let mut cam = CamStatus::new();
    // Zoom far in: the target drops to the minimum scale (0.05).
    zoom_update(&mut cam, 5, 10_000, DT_60FPS, Some((720, 450)), VW, VH);
    assert_eq!(cam.target_scale, MIN_ZOOM);
    let mut nearest_switches = 0;
    for _ in 0..300 {
        if let Some(mode) = zoom_update(&mut cam, 0, 1_000_000, DT_60FPS, Some((720, 450)), VW, VH)
        {
            assert_eq!(mode, SamplerMode::Nearest);
            nearest_switches += 1;
        }
    }
    assert_eq!(nearest_switches, 1, "exactly one switch to nearest");
    assert!(cam.enable_pixel_perfect);

    // Zoom back out: exactly one switch back to smooth sampling, counting
    // the scroll frame itself.
    let mut linear_switches = 0;
    if let Some(mode) = zoom_update(&mut cam, -1, 400_000_000_000, DT_60FPS, Some((720, 450)), VW, VH)
    {
        assert_eq!(mode, SamplerMode::Linear);
        linear_switches += 1;
    }
    for _ in 0..300 {
        if let Some(mode) = zoom_update(&mut cam, 0, 1_000_000, DT_60FPS, Some((720, 450)), VW, VH)
        {
            assert_eq!(mode, SamplerMode::Linear);
            linear_switches += 1;
        }
    }
    assert_eq!(linear_switches, 1, "exactly one switch to linear");
    assert!(!cam.enable_pixel_perfect);
}

#[test]
fn pan_is_scaled_by_zoom_and_flips_axes() {
    let mut cam = CamStatus::new();
    assert_eq!(cam.current_scale, 2_000_000);
    pan_update(&mut cam, 10, -4);
    // x moves opposite to the pointer; y moves with the flipped axis.
    assert_eq!(cam.translation.x, -10 * 2_000_000);
    assert_eq!(cam.translation.y, -4 * 2_000_000);
    pan_update(&mut cam, -10, 4);
    assert_eq!(cam.translation.x, 0);
    assert_eq!(cam.translation.y, 0);
}

#[test]
fn reset_restores_origin_and_initial_zoom() {
    let mut cam = CamStatus::new();
    pan_update(&mut cam, 50, 20);
    zoom_update(&mut cam, 1, 500_000, DT_60FPS, Some((100, 100)), VW, VH);
    cam.reset();
    assert_eq!(cam.translation.x, 0);
    assert_eq!(cam.translation.y, 0);
    assert_eq!(cam.target_scale, INITIAL_ZOOM);
    assert_eq!(cam.current_scale, INITIAL_ZOOM);
}

#[test]
fn recenter_keeps_zoom() {
    let mut cam = CamStatus::new();
    pan_update(&mut cam, 50, 20);
    zoom_update(&mut cam, 1, 500_000, DT_60FPS, Some((100, 100)), VW, VH);
    let target = cam.target_scale;
    let current = cam.current_scale;
    cam.recenter();
    assert_eq!(cam.translation.x, 0);
    assert_eq!(cam.translation.y, 0);
    assert_eq!(cam.target_scale, target);
    assert_eq!(cam.current_scale, current);
}
