use img_maniac::ingest::{ingest, Candidate};
use img_maniac::layout::{relayout, GAP_FX};
use img_maniac::registry::Registry;
use img_maniac::units::FX_ONE;

/// A minimal PNG header carrying the given dimensions.
fn png_header(w: u32, h: u32) -> Vec<u8> {
    let mut v: Vec<u8> = vec![0x89, b'P', b'N', b'G', 0x0D, 0x0A, 0x1A, 0x0A];
    v.extend_from_slice(&13u32.to_be_bytes());
    v.extend_from_slice(&[b'I', b'H', b'D', b'R']);
    v.extend_from_slice(&w.to_be_bytes());
    v.extend_from_slice(&h.to_be_bytes());
    v.extend_from_slice(&[8, 6, 0, 0, 0]);
    v
}

/// Drops the three canonical images: 800x600, 400x400 and 1200x300 become
/// 600x450, 600x600 and 600x150 world units.
fn three_images() -> Registry {
    let mut reg = Registry::new();
    let report = ingest(
        &mut reg,
        &vec![
            Candidate { path: "a.png".to_string(), header: Some(png_header(800, 600)) },
            Candidate { path: "b.png".to_string(), header: Some(png_header(400, 400)) },
            Candidate { path: "c.png".to_string(), header: Some(png_header(1200, 300)) },
        ],
        None,
    );
    assert_eq!(report.created, 3);
    assert!(report.layout_requested);
    assert_eq!(reg.items[0].size.x, 600 * FX_ONE);
    assert_eq!(reg.items[0].size.y, 450 * FX_ONE);
    assert_eq!(reg.items[1].size.x, 600 * FX_ONE);
    assert_eq!(reg.items[1].size.y, 600 * FX_ONE);
    assert_eq!(reg.items[2].size.x, 600 * FX_ONE);
    assert_eq!(reg.items[2].size.y, 150 * FX_ONE);
    reg
}

#[test]
fn wide_viewport_packs_one_centered_row() {
    let mut reg = three_images();
    // Room for all three: 600+16+600+16+600 = 1832 <= 2000 world units.
    relayout(&mut reg, 2000 * FX_ONE);
    // The row is centered about the origin and all boxes share its center
    // line.
    assert_eq!(reg.items[0].position.x, -616 * FX_ONE);
    assert_eq!(reg.items[1].position.x, 0);
    assert_eq!(reg.items[2].position.x, 616 * FX_ONE);
    assert_eq!(reg.items[0].position.y, 0);
    assert_eq!(reg.items[1].position.y, 0);
    assert_eq!(reg.items[2].position.y, 0);
}

#[test]
fn narrow_viewport_stacks_three_centered_rows() {
    let mut reg = three_images();
    // Room for one box per row.
    relayout(&mut reg, 700 * FX_ONE);
    // Block height 450+16+600+16+150 = 1232; each row centered about x=0,
    // rows stacked top (world +y) to bottom, block centered about y=0.
    assert_eq!(reg.items[0].position.x, 0);
    assert_eq!(reg.items[1].position.x, 0);
    assert_eq!(reg.items[2].position.x, 0);
    assert_eq!(reg.items[0].position.y, 391 * FX_ONE);
    assert_eq!(reg.items[1].position.y, -150 * FX_ONE);
    assert_eq!(reg.items[2].position.y, -541 * FX_ONE);
}

#[test]
fn wrap_keeps_arrival_order_and_row_centering() {
    let mut reg = three_images();
    // Two boxes fit a row (1216 <= 1250), the third wraps.
    relayout(&mut reg, 1250 * FX_ONE);
    assert_eq!(reg.items[0].position.x, -308 * FX_ONE);
    assert_eq!(reg.items[1].position.x, 308 * FX_ONE);
    assert_eq!(reg.items[2].position.x, 0);
    // First row: heights 450 and 600 share the row's center line.
    assert_eq!(reg.items[0].position.y, 83 * FX_ONE);
    assert_eq!(reg.items[1].position.y, 83 * FX_ONE);
    assert_eq!(reg.items[2].position.y, -308 * FX_ONE);
}

#[test]
fn relayout_is_idempotent() {
    let mut reg = three_images();
    relayout(&mut reg, 1250 * FX_ONE);
    let once: Vec<(i64, i64)> =
        reg.items.iter().map(|it| (it.position.x, it.position.y)).collect();
    relayout(&mut reg, 1250 * FX_ONE);
    let twice: Vec<(i64, i64)> =
        reg.items.iter().map(|it| (it.position.x, it.position.y)).collect();
    assert_eq!(once, twice);
}

#[test]
fn relayout_touches_nothing_but_positions() {
    let mut reg = three_images();
    reg.set_selected(1, true);
    relayout(&mut reg, 700 * FX_ONE);
    assert_eq!(reg.items.len(), 3);
    assert_eq!(reg.items[0].z, 0);
    assert_eq!(reg.items[1].z, 1);
    assert_eq!(reg.items[2].z, 2);
    assert!(!reg.items[0].selected);
    assert!(reg.items[1].selected);
    assert_eq!(reg.items[0].source_path, "a.png");
    assert_eq!(reg.items[1].size.y, 600 * FX_ONE);
}

#[test]
fn relayout_of_empty_registry_is_a_noop() {
    let mut reg = Registry::new();
    relayout(&mut reg, 2000 * FX_ONE);
    assert_eq!(reg.items.len(), 0);
}

#[test]
fn gap_separates_adjacent_boxes() {
    let mut reg = Registry::new();
    ingest(
        &mut reg,
        &vec![
            Candidate { path: "a.png".to_string(), header: Some(png_header(600, 300)) },
            Candidate { path: "b.png".to_string(), header: Some(png_header(600, 300)) },
        ],
        None,
    );
    relayout(&mut reg, 2000 * FX_ONE);
    let dx = reg.items[1].position.x - reg.items[0].position.x;
    assert_eq!(dx, 600 * FX_ONE + GAP_FX);
}

#[test]
fn delete_all_empties_the_canvas() {
    let mut reg = three_images();
    reg.delete_all();
    assert_eq!(reg.items.len(), 0);
    assert_eq!(reg.next_z(), 0);
}
