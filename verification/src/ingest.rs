//! Ingestion pipeline: turns collected candidate paths into positioned
//! canvas items.
//!
//! For each candidate, in input order: reject unsupported extensions, probe
//! the image dimensions from the header bytes the caller read, reject
//! dimensions at or above the texture ceiling or at most one pixel, then
//! normalize the item to the fixed reference width, assign the next z value
//! and append it to the registry. The whole batch is best-effort: a failure
//! on one path never aborts the rest. A layout pass is requested iff at
//! least one item was created.

use vstd::prelude::*;

use crate::format::{is_supported_format, spec_supported_path};
use crate::registry::{CanvasItem, ChannelMode, Registry, POS_LIMIT, SIZE_LIMIT_FX};
use crate::units::{Vec2Fx, FX_ONE};

verus! {

use vstd::string::StringSliceAdditionalSpecFns;
use vstd::utf8::encode_utf8;

/// Hard texture-dimension ceiling, matching common GPU limits: images with
/// a width or height at or above it are rejected.
pub const MAX_TEX_DIM: usize = 16384;

/// Every created item's width, in fixed-point world units (600.0): dropped
/// images are normalized to the same rendered width regardless of source
/// resolution.
pub const REFERENCE_WIDTH_FX: i64 = 600_000_000;

/// One candidate for ingestion: a path the collector yielded, plus the
/// image file's header bytes as read by the caller (`None` when the file
/// could not be read).
pub struct Candidate {
    pub path: String,
    pub header: Option<Vec<u8>>,
}

/// What became of one candidate.
#[derive(Clone, Copy, Debug, PartialEq, Eq, Structural)]
pub enum IngestOutcome {
    /// An item was created for it.
    Created,
    /// The format filter rejected the path.
    UnsupportedFormat,
    /// A dimension is at or above the texture ceiling.
    TooLarge,
    /// A dimension is one pixel or less.
    Degenerate,
    /// The header was unreadable or not a recognizable image.
    ProbeFailure,
}

/// The per-batch report: one outcome per candidate, in input order.
pub struct IngestionReport {
    pub outcomes: Vec<IngestOutcome>,
    /// How many items the batch created.
    pub created: usize,
    /// Whether a layout pass must follow (iff anything was created).
    pub layout_requested: bool,
}

/// What `imagesize::blob_size` returns for a given header: the probed
/// `(width, height)`, or nothing when the bytes are not a recognizable
/// image. A function of the bytes alone.
pub uninterp spec fn probe_of(data: Seq<u8>) -> Option<(usize, usize)>;

/// Relies on imagesize::blob_size: probes image dimensions from a header
/// prefix without a full decode; the result depends on the bytes alone.
#[verifier::external_body]
fn probe_dimensions(data: &Vec<u8>) -> (r: Option<(usize, usize)>)
    ensures
        r == probe_of(data@),
{
    match imagesize::blob_size(data.as_slice()) {
        Ok(sz) => Some((sz.width, sz.height)),
        Err(_) => None,
    }
}

/// The verdict on a probed width and height.
pub enum DimVerdict {
    /// Acceptable dimensions, carrying the item's world-space size.
    Fit(Vec2Fx),
    /// A dimension is at or above the texture ceiling.
    TooLarge,
    /// A dimension is one pixel or less.
    Degenerate,
}

/// The fit-to-budget size for a valid probed image: the reference width,
/// and the height scaled by `reference_width / width`, truncated to the
/// fixed-point grid.
pub open spec fn spec_item_size(w: int, h: int) -> Vec2Fx {
    Vec2Fx { x: REFERENCE_WIDTH_FX, y: (h * REFERENCE_WIDTH_FX / w) as i64 }
}

/// The verdict for a probed width and height: too large at or above the
/// ceiling, degenerate at one pixel or less, else fit with the normalized
/// size.
pub open spec fn spec_evaluate_dimensions(w: usize, h: usize) -> DimVerdict {
    if w >= MAX_TEX_DIM || h >= MAX_TEX_DIM {
        DimVerdict::TooLarge
    } else if w <= 1 || h <= 1 {
        DimVerdict::Degenerate
    } else {
        DimVerdict::Fit(spec_item_size(w as int, h as int))
    }
}

/// Bounds of a valid item size: positive on both axes and within the
/// registry's size limit.
pub proof fn lemma_item_size_wf(w: int, h: int)
    requires
        1 < w < MAX_TEX_DIM,
        1 < h < MAX_TEX_DIM,
    ensures
        0 < spec_item_size(w, h).x <= SIZE_LIMIT_FX,
        0 < spec_item_size(w, h).y <= SIZE_LIMIT_FX,
        h * REFERENCE_WIDTH_FX / w <= SIZE_LIMIT_FX,
        1 <= h * REFERENCE_WIDTH_FX / w,
{
    let num = h * REFERENCE_WIDTH_FX;
    assert(2 * (REFERENCE_WIDTH_FX as int) <= h * (REFERENCE_WIDTH_FX as int) <= 16383 * (
    REFERENCE_WIDTH_FX as int)) by (nonlinear_arith)
        requires
            2 <= h <= 16383,
            0 < (REFERENCE_WIDTH_FX as int),
    ;
    vstd::arithmetic::div_mod::lemma_div_is_ordered_by_denominator(num, 2, w);
    vstd::arithmetic::div_mod::lemma_div_is_ordered(num, 16383 * (REFERENCE_WIDTH_FX as int), 2);
    vstd::arithmetic::div_mod::lemma_div_multiples_vanish(
        16383 * (REFERENCE_WIDTH_FX as int) / 2,
        2,
    );
    vstd::arithmetic::div_mod::lemma_div_is_ordered(w, num, w);
    vstd::arithmetic::div_mod::lemma_div_by_self(w);
}

/// Validates probed dimensions against the texture ceiling and computes the
/// fit-to-budget size for those that pass.
pub fn evaluate_dimensions(w: usize, h: usize) -> (r: DimVerdict)
    ensures
        r == spec_evaluate_dimensions(w, h),
{
    if w >= MAX_TEX_DIM || h >= MAX_TEX_DIM {
        DimVerdict::TooLarge
    } else if w <= 1 || h <= 1 {
        DimVerdict::Degenerate
    } else {
        proof {
            lemma_item_size_wf(w as int, h as int);
        }
        let y = (h as i64) * REFERENCE_WIDTH_FX / (w as i64);
        DimVerdict::Fit(Vec2Fx { x: REFERENCE_WIDTH_FX, y })
    }
}

/// The outcome the pipeline reports for one candidate.
pub open spec fn spec_ingest_outcome(c: Candidate) -> IngestOutcome {
    if !spec_supported_path(encode_utf8(c.path@)) {
        IngestOutcome::UnsupportedFormat
    } else {
        match c.header {
            Option::None => IngestOutcome::ProbeFailure,
            Option::Some(hb) => match probe_of(hb@) {
                Option::None => IngestOutcome::ProbeFailure,
                Option::Some(dims) => match spec_evaluate_dimensions(dims.0, dims.1) {
                    DimVerdict::TooLarge => IngestOutcome::TooLarge,
                    DimVerdict::Degenerate => IngestOutcome::Degenerate,
                    DimVerdict::Fit(_) => IngestOutcome::Created,
                },
            },
        }
    }
}

/// The probed dimensions of a candidate whose outcome is `Created`.
pub open spec fn spec_created_dims(c: Candidate) -> (usize, usize) {
    probe_of(c.header->Some_0@)->Some_0
}

/// The items a batch creates, in input order: one per candidate with a
/// `Created` outcome, each at the drop position with the fit-to-budget
/// size, unselected, showing all channels, and with z values counting up
/// from `z0`.
pub open spec fn spec_created_items(cs: Seq<Candidate>, z0: int, pos: Vec2Fx) -> Seq<CanvasItem>
    decreases cs.len(),
{
    if cs.len() == 0 {
        Seq::empty()
    } else {
        let rest = spec_created_items(cs.drop_last(), z0, pos);
        let c = cs.last();
        if spec_ingest_outcome(c) is Created {
            let dims = spec_created_dims(c);
            rest.push(
                CanvasItem {
                    position: pos,
                    size: spec_item_size(dims.0 as int, dims.1 as int),
                    z: (z0 + rest.len()) as u64,
                    selected: false,
                    channel: ChannelMode::All,
                    source_path: c.path,
                },
            )
        } else {
            rest
        }
    }
}

/// Field-wise item equality, with the source path compared by contents.
pub open spec fn item_matches(a: CanvasItem, b: CanvasItem) -> bool {
    &&& a.position == b.position
    &&& a.size == b.size
    &&& a.z == b.z
    &&& a.selected == b.selected
    &&& a.channel == b.channel
    &&& a.source_path@ == b.source_path@
}

/// Ingests a batch of collected candidates into the registry.
///
/// Every existing item is untouched; exactly the candidates with a
/// `Created` outcome gain an item, in input order, placed at the drop
/// coordinate (the origin if none); the report lists one outcome per
/// candidate and requests a layout pass iff anything was created.
pub fn ingest(reg: &mut Registry, candidates: &Vec<Candidate>, drop_pos: Option<Vec2Fx>) -> (report:
    IngestionReport)
    requires
        old(reg).wf(),
        drop_pos matches Some(p) ==> -POS_LIMIT <= p.x <= POS_LIMIT && -POS_LIMIT <= p.y
            <= POS_LIMIT,
    ensures
        final(reg).wf(),
        report.outcomes@.len() == candidates@.len(),
        forall|i: int|
            0 <= i < candidates@.len() ==> report.outcomes@[i] == spec_ingest_outcome(
                candidates@[i],
            ),
        forall|i: int|
            0 <= i < old(reg).items@.len() ==> final(reg).items@[i] == old(reg).items@[i],
        ({
            let pos = (match drop_pos {
                Option::Some(p) => p,
                Option::None => (Vec2Fx { x: 0, y: 0 }),
            });
            let created = spec_created_items(
                candidates@,
                old(reg).items@.len() as int,
                pos,
            );
            &&& report.created == created.len()
            &&& final(reg).items@.len() == old(reg).items@.len() + created.len()
            &&& forall|k: int|
                0 <= k < created.len() ==> item_matches(
                    #[trigger] final(reg).items@[old(reg).items@.len() + k],
                    created[k],
                )
        }),
        report.layout_requested == (report.created > 0),
{
    let position = match drop_pos {
        Some(p) => p,
        None => Vec2Fx { x: 0, y: 0 },
    };
    let ghost old_len = reg.items@.len() as int;
    let n = candidates.len();
    let mut outcomes: Vec<IngestOutcome> = Vec::new();
    let mut created: usize = 0;
    let mut i: usize = 0;
    while i < n
        invariant
            old(reg).wf(),
            n == candidates@.len(),
            i <= n,
            old_len == old(reg).items@.len() as int,
            drop_pos matches Some(p) ==> -POS_LIMIT <= p.x <= POS_LIMIT && -POS_LIMIT <= p.y
                <= POS_LIMIT,
            position == (match drop_pos {
                Option::Some(p) => p,
                Option::None => (Vec2Fx { x: 0, y: 0 }),
            }),
            outcomes@.len() == i,
            created <= i,
            forall|j: int|
                0 <= j < i ==> outcomes@[j] == spec_ingest_outcome(candidates@[j]),
            forall|j: int| 0 <= j < old_len ==> reg.items@[j] == old(reg).items@[j],
            created == spec_created_items(candidates@.take(i as int), old_len, position).len(),
            reg.items@.len() == old_len + created,
            forall|k: int|
                0 <= k < created ==> item_matches(
                    #[trigger] reg.items@[old_len + k],
                    spec_created_items(candidates@.take(i as int), old_len, position)[k],
                ),
            reg.wf(),
        decreases n - i,
    {
        let ghost prefix = candidates@.take(i as int);
        let ghost prefix1 = candidates@.take(i as int + 1);
        proof {
            assert(prefix1.drop_last() =~= prefix);
            assert(prefix1.last() == candidates@[i as int]);
        }
        let c = &candidates[i];
        let outcome: IngestOutcome;
        if !is_supported_format(c.path.as_str(), true) {
            outcome = IngestOutcome::UnsupportedFormat;
        } else {
            match &c.header {
                None => {
                    outcome = IngestOutcome::ProbeFailure;
                },
                Some(hb) => {
                    match probe_dimensions(hb) {
                        None => {
                            outcome = IngestOutcome::ProbeFailure;
                        },
                        Some((w, h)) => {
                            match evaluate_dimensions(w, h) {
                                DimVerdict::TooLarge => {
                                    outcome = IngestOutcome::TooLarge;
                                },
                                DimVerdict::Degenerate => {
                                    outcome = IngestOutcome::Degenerate;
                                },
                                DimVerdict::Fit(size) => {
                                    proof {
                                        lemma_item_size_wf(w as int, h as int);
                                    }
                                    let z = reg.next_z();
                                    let item = CanvasItem {
                                        position,
                                        size,
                                        z,
                                        selected: false,
                                        channel: ChannelMode::All,
                                        source_path: c.path.clone(),
                                    };
                                    reg.items.push(item);
                                    created = created + 1;
                                    outcome = IngestOutcome::Created;
                                },
                            }
                        },
                    }
                },
            }
        }
        outcomes.push(outcome);
        i = i + 1;
    }
    proof {
        assert(candidates@.take(n as int) =~= candidates@);
    }
    let layout_requested = created > 0;
    IngestionReport { outcomes, created, layout_requested }
}

} // verus!
