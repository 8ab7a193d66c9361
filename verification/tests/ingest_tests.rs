use img_maniac::ingest::{ingest, Candidate, IngestOutcome, REFERENCE_WIDTH_FX};
use img_maniac::registry::{ChannelMode, Registry};
use img_maniac::units::Vec2Fx;

/// A minimal PNG header: the dimension probe reads the width and height
/// big-endian at offsets 16 and 20.
fn png_header(w: u32, h: u32) -> Vec<u8> {
    let mut v: Vec<u8> = vec![0x89, b'P', b'N', b'G', 0x0D, 0x0A, 0x1A, 0x0A];
    v.extend_from_slice(&13u32.to_be_bytes());
    v.extend_from_slice(&[b'I', b'H', b'D', b'R']);
    v.extend_from_slice(&w.to_be_bytes());
    v.extend_from_slice(&h.to_be_bytes());
    v.extend_from_slice(&[8, 6, 0, 0, 0]);
    v
}

fn candidate(path: &str, w: u32, h: u32) -> Candidate {
    Candidate { path: path.to_string(), header: Some(png_header(w, h)) }
}

#[test]
fn valid_image_is_normalized_to_reference_width() {
    let mut reg = Registry::new();
    let report = ingest(&mut reg, &vec![candidate("a.png", 800, 600)], None);
    assert_eq!(report.created, 1);
    assert_eq!(report.outcomes, vec![IngestOutcome::Created]);
    assert!(report.layout_requested);
    assert_eq!(reg.items.len(), 1);
    let item = &reg.items[0];
    // size.x == FIXED_REFERENCE_WIDTH; size.y == h * (FIXED_REFERENCE_WIDTH / w).
    assert_eq!(item.size.x, REFERENCE_WIDTH_FX);
    assert_eq!(item.size.y, 450_000_000);
    assert_eq!(item.z, 0);
    assert!(!item.selected);
    assert_eq!(item.channel, ChannelMode::All);
    assert_eq!(item.source_path, "a.png");
    assert_eq!(item.position.x, 0);
    assert_eq!(item.position.y, 0);
}

#[test]
fn drop_coordinate_positions_new_items() {
    let mut reg = Registry::new();
    let pos = Vec2Fx { x: 5_000_000, y: -2_000_000 };
    let report = ingest(&mut reg, &vec![candidate("a.png", 400, 400)], Some(pos));
    assert_eq!(report.created, 1);
    assert_eq!(reg.items[0].position.x, 5_000_000);
    assert_eq!(reg.items[0].position.y, -2_000_000);
    assert_eq!(reg.items[0].size.y, 600_000_000);
}

#[test]
fn too_large_images_are_rejected() {
    let mut reg = Registry::new();
    let report = ingest(
        &mut reg,
        &vec![candidate("wide.png", 16384, 600), candidate("tall.png", 600, 20000)],
        None,
    );
    assert_eq!(report.created, 0);
    assert_eq!(report.outcomes, vec![IngestOutcome::TooLarge, IngestOutcome::TooLarge]);
    assert!(!report.layout_requested);
    assert_eq!(reg.items.len(), 0);
}

#[test]
fn degenerate_images_are_rejected() {
    let mut reg = Registry::new();
    let report = ingest(
        &mut reg,
        &vec![candidate("line.png", 1, 600), candidate("dot.png", 800, 1)],
        None,
    );
    assert_eq!(report.created, 0);
    assert_eq!(report.outcomes, vec![IngestOutcome::Degenerate, IngestOutcome::Degenerate]);
    assert_eq!(reg.items.len(), 0);
}

#[test]
fn boundary_dimensions() {
    let mut reg = Registry::new();
    let report = ingest(
        &mut reg,
        &vec![candidate("min.png", 2, 2), candidate("max.png", 16383, 16383)],
        None,
    );
    assert_eq!(report.outcomes, vec![IngestOutcome::Created, IngestOutcome::Created]);
    assert_eq!(reg.items[0].size.y, REFERENCE_WIDTH_FX);
    assert_eq!(reg.items[1].size.y, REFERENCE_WIDTH_FX);
}

#[test]
fn unsupported_format_is_reported() {
    let mut reg = Registry::new();
    let report = ingest(&mut reg, &vec![candidate("notes.txt", 800, 600)], None);
    assert_eq!(report.outcomes, vec![IngestOutcome::UnsupportedFormat]);
    assert_eq!(reg.items.len(), 0);
}

#[test]
fn unreadable_or_corrupt_headers_are_probe_failures() {
    let mut reg = Registry::new();
    let report = ingest(
        &mut reg,
        &vec![
            Candidate { path: "gone.png".to_string(), header: None },
            Candidate { path: "junk.png".to_string(), header: Some(vec![0u8; 64]) },
            Candidate { path: "short.png".to_string(), header: Some(vec![0x89, b'P']) },
        ],
        None,
    );
    assert_eq!(
        report.outcomes,
        vec![IngestOutcome::ProbeFailure, IngestOutcome::ProbeFailure, IngestOutcome::ProbeFailure]
    );
    assert_eq!(reg.items.len(), 0);
}

#[test]
fn batch_is_best_effort_and_z_increases_with_order() {
    let mut reg = Registry::new();
    let report = ingest(
        &mut reg,
        &vec![
            candidate("a.png", 800, 600),
            candidate("bad.png", 1, 1),
            candidate("b.jpg", 400, 400),
        ],
        None,
    );
    assert_eq!(report.created, 2);
    assert_eq!(
        report.outcomes,
        vec![IngestOutcome::Created, IngestOutcome::Degenerate, IngestOutcome::Created]
    );
    assert_eq!(reg.items.len(), 2);
    assert_eq!(reg.items[0].z, 0);
    assert_eq!(reg.items[1].z, 1);
    assert_eq!(reg.items[0].source_path, "a.png");
    assert_eq!(reg.items[1].source_path, "b.jpg");

    // A second batch continues the z order and touches nothing existing.
    let report2 = ingest(&mut reg, &vec![candidate("c.png", 600, 300)], None);
    assert_eq!(report2.created, 1);
    assert_eq!(reg.items.len(), 3);
    assert_eq!(reg.items[2].z, 2);
    assert_eq!(reg.items[0].source_path, "a.png");
}

#[test]
fn probe_reads_real_dimensions_from_bytes() {
    // Distinct dimensions must flow from the header bytes into the size:
    // 1200x300 gives a quarter-height item, unlike any constant answer.
    let mut reg = Registry::new();
    ingest(&mut reg, &vec![candidate("wide.png", 1200, 300)], None);
    assert_eq!(reg.items[0].size.x, 600_000_000);
    assert_eq!(reg.items[0].size.y, 150_000_000);
    ingest(&mut reg, &vec![candidate("tall.png", 300, 1200)], None);
    assert_eq!(reg.items[1].size.y, 2_400_000_000);
}
