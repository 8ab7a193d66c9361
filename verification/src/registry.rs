//! The item registry: the set of placed canvas items, owned exclusively by
//! the frame loop. Items are created by the ingestion pipeline, moved by the
//! drag controller and the layout engine, and destroyed all at once by the
//! delete-all command.

use vstd::prelude::*;

use crate::units::Vec2Fx;

verus! {

/// Bound on each item size axis (fixed point). Ingestion keeps every item
/// well under it: widths are normalized to the reference width and heights
/// are below `reference_width * MAX_TEX_DIM / 2`.
pub const SIZE_LIMIT_FX: i64 = 5_000_000_000_000;

/// Bound on each item position axis (fixed point); drags clamp into it and
/// layout results stay well inside it.
pub const POS_LIMIT: i64 = 4_000_000_000_000_000_000;

/// Which color channels of an item the renderer shows.
#[derive(Clone, Copy, Debug, PartialEq, Eq, Structural)]
pub enum ChannelMode {
    All,
    R,
    G,
    B,
    A,
}

/// One placed image on the canvas.
pub struct CanvasItem {
    /// World-space center.
    pub position: Vec2Fx,
    /// World-space extent (fixed point), after the fit-to-budget scale.
    pub size: Vec2Fx,
    /// Z-order: unique, strictly increasing with ingestion order.
    pub z: u64,
    /// Whether the item is part of the current selection.
    pub selected: bool,
    /// Which channels the renderer shows for this item.
    pub channel: ChannelMode,
    /// The file the image was loaded from.
    pub source_path: String,
}

impl CanvasItem {
    /// Positive, bounded sizes and a bounded position.
    pub open spec fn wf(self) -> bool {
        &&& 0 < self.size.x <= SIZE_LIMIT_FX
        &&& 0 < self.size.y <= SIZE_LIMIT_FX
        &&& -POS_LIMIT <= self.position.x <= POS_LIMIT
        &&& -POS_LIMIT <= self.position.y <= POS_LIMIT
    }
}

/// Two items equal in everything but the channel flag.
pub open spec fn eq_except_channel(a: CanvasItem, b: CanvasItem) -> bool {
    &&& a.position == b.position
    &&& a.size == b.size
    &&& a.z == b.z
    &&& a.selected == b.selected
    &&& a.source_path@ == b.source_path@
}

/// Two items equal in everything but the position.
pub open spec fn eq_except_position(a: CanvasItem, b: CanvasItem) -> bool {
    &&& a.size == b.size
    &&& a.z == b.z
    &&& a.selected == b.selected
    &&& a.channel == b.channel
    &&& a.source_path@ == b.source_path@
}

/// The set of placed canvas items.
pub struct Registry {
    pub items: Vec<CanvasItem>,
}

impl Registry {
    /// Every item is well-formed and holds its index as its z value, so
    /// z-order is unique and strictly increases with ingestion order.
    pub open spec fn wf(self) -> bool {
        forall|i: int|
            0 <= i < self.items@.len() ==> (#[trigger] self.items@[i]).wf() && self.items@[i].z
                == i
    }

    /// An empty registry.
    pub fn new() -> (r: Registry)
        ensures
            r.items@.len() == 0,
            r.wf(),
    {
        Registry { items: Vec::new() }
    }

    /// The z value the next created item will get: one past every existing
    /// item's.
    pub fn next_z(&self) -> (r: u64)
        requires
            self.wf(),
        ensures
            r == self.items@.len(),
            forall|i: int| 0 <= i < self.items@.len() ==> (#[trigger] self.items@[i]).z < r,
    {
        self.items.len() as u64
    }

    /// The delete-all command: destroys every item.
    pub fn delete_all(&mut self)
        ensures
            final(self).items@.len() == 0,
            final(self).wf(),
    {
        self.items.clear();
    }

    /// The channel-select command: switches every item's channel mode,
    /// leaving everything else as it was.
    pub fn set_channel_all(&mut self, mode: ChannelMode)
        requires
            old(self).wf(),
        ensures
            final(self).wf(),
            final(self).items@.len() == old(self).items@.len(),
            forall|i: int|
                0 <= i < old(self).items@.len() ==> (#[trigger] final(self).items@[i]).channel
                    == mode && eq_except_channel(final(self).items@[i], old(self).items@[i]),
    {
        let n = self.items.len();
        let mut i: usize = 0;
        while i < n
            invariant
                n == self.items@.len(),
                i <= n,
                old(self).wf(),
                old(self).items@.len() == n,
                forall|j: int|
                    i <= j < n ==> #[trigger] self.items@[j] == old(self).items@[j],
                forall|j: int|
                    0 <= j < i ==> (#[trigger] self.items@[j]).channel == mode
                        && eq_except_channel(self.items@[j], old(self).items@[j]),
            decreases n - i,
        {
            let position = self.items[i].position;
            let size = self.items[i].size;
            let z = self.items[i].z;
            let selected = self.items[i].selected;
            let source_path = self.items[i].source_path.clone();
            self.items[i] = CanvasItem { position, size, z, selected, channel: mode, source_path };
            i = i + 1;
        }
    }

    /// Sets or clears one item's selection flag, leaving everything else as
    /// it was. Selection toggling is driven by pointer pick events outside
    /// this module; this is the capability they call.
    pub fn set_selected(&mut self, index: usize, selected: bool)
        requires
            old(self).wf(),
            index < old(self).items@.len(),
        ensures
            final(self).wf(),
            final(self).items@.len() == old(self).items@.len(),
            final(self).items@[index as int].selected == selected,
            final(self).items@[index as int].position == old(self).items@[index as int].position,
            final(self).items@[index as int].size == old(self).items@[index as int].size,
            final(self).items@[index as int].z == old(self).items@[index as int].z,
            final(self).items@[index as int].channel == old(self).items@[index as int].channel,
            final(self).items@[index as int].source_path@ == old(self).items@[index as int].source_path@,
            forall|j: int|
                0 <= j < old(self).items@.len() && j != index ==> #[trigger] final(self).items@[j]
                    == old(self).items@[j],
    {
        let position = self.items[index].position;
        let size = self.items[index].size;
        let z = self.items[index].z;
        let channel = self.items[index].channel;
        let source_path = self.items[index].source_path.clone();
        self.items[index] = CanvasItem { position, size, z, selected, channel, source_path };
    }
}

} // verus!
