//! The bounded table of rectangular clip regions and the layer that new geometry is tagged with.

use crate::coord::{Coord, Point};
use crate::MAX_CLIPPINGS;
use vstd::prelude::*;

verus! {

/// Bit pattern of the lowest finite single-precision number.
pub const LOWEST_BITS: u32 = 0xFF7F_FFFF;

/// Bit pattern of the highest finite single-precision number.
pub const HIGHEST_BITS: u32 = 0x7F7F_FFFF;

/// An axis-aligned rectangle outside of which nothing is drawn.
#[derive(Debug, Clone, Copy, PartialEq, Eq, Structural)]
pub struct ClipRegion {
    pub min: Point,
    pub max: Point,
}

impl ClipRegion {
    /// The region that clips nothing: from the lowest to the highest finite number on both axes.
    pub open spec fn unbounded() -> ClipRegion {
        ClipRegion {
            min: Point { x: Coord { bits: LOWEST_BITS }, y: Coord { bits: LOWEST_BITS } },
            max: Point { x: Coord { bits: HIGHEST_BITS }, y: Coord { bits: HIGHEST_BITS } },
        }
    }

    /// The region reaches from the origin or before it to the far corner of a page of
    /// `width` by `height` points or beyond it.
    pub open spec fn covers(self, width: u32, height: u32) -> bool {
        &&& self.min.x.at_most_zero()
        &&& self.min.y.at_most_zero()
        &&& self.max.x.at_least(width as int)
        &&& self.max.y.at_least(height as int)
    }

    pub fn no_clipping() -> (r: ClipRegion)
        ensures
            r == ClipRegion::unbounded(),
    {
        ClipRegion {
            min: Point { x: Coord { bits: LOWEST_BITS }, y: Coord { bits: LOWEST_BITS } },
            max: Point { x: Coord { bits: HIGHEST_BITS }, y: Coord { bits: HIGHEST_BITS } },
        }
    }

    /// Whether the region covers the whole page.
    pub fn covers_page(&self, width: u32, height: u32) -> (r: bool)
        ensures
            r == self.covers(width, height),
    {
        self.min.x.is_at_most_zero() && self.min.y.is_at_most_zero() && self.max.x.is_at_least(
            width,
        ) && self.max.y.is_at_least(height)
    }
}

/// What the clip table holds: the regions in the order they were added, and the current layer.
/// Layer 0 clips nothing; layer `i + 1` clips to `regions[i]`.
pub struct ClipTable {
    pub regions: Seq<ClipRegion>,
    pub current: nat,
}

impl ClipTable {
    /// The number of layers, the unclipped one included.
    pub open spec fn size(self) -> nat {
        self.regions.len() + 1
    }

    pub open spec fn full(self) -> bool {
        self.size() >= MAX_CLIPPINGS
    }

    /// Whether a request for the region changes the table or the current layer's meaning:
    /// it is refused only when the region does not cover the page and the table is full.
    pub open spec fn accepts(self, region: ClipRegion, width: u32, height: u32) -> bool {
        region.covers(width, height) || !self.full()
    }

    /// The table after a request to clip to `region` on a page of `width` by `height` points.
    pub open spec fn clipped(self, region: ClipRegion, width: u32, height: u32) -> ClipTable {
        if region.covers(width, height) {
            ClipTable { regions: self.regions, current: 0 }
        } else if self.full() {
            self
        } else {
            ClipTable { regions: self.regions.push(region), current: self.size() }
        }
    }

    /// The table after a run of requests.
    pub open spec fn clipped_all(self, regions: Seq<ClipRegion>, width: u32, height: u32)
        -> ClipTable
        decreases regions.len(),
    {
        if regions.len() == 0 {
            self
        } else {
            self.clipped_all(regions.drop_last(), width, height).clipped(
                regions.last(),
                width,
                height,
            )
        }
    }

    /// The region that a layer clips to, as the drawing stage sees it: the table laid out in
    /// `MAX_CLIPPINGS` slots, slot 0 and the unused slots clipping nothing.
    pub open spec fn slot(self, layer: int) -> ClipRegion {
        if 1 <= layer <= self.regions.len() {
            self.regions[layer - 1]
        } else {
            ClipRegion::unbounded()
        }
    }
}

/// The clip regions of a device.
pub struct LayerClippings {
    clippings: Vec<ClipRegion>,
    current: u32,
}

impl View for LayerClippings {
    type V = ClipTable;

    closed spec fn view(&self) -> ClipTable {
        ClipTable { regions: self.clippings@, current: self.current as nat }
    }
}

impl LayerClippings {
    /// The table fits its slots and the current layer is one of its layers.
    pub open spec fn wf(&self) -> bool {
        &&& self@.size() <= MAX_CLIPPINGS
        &&& self@.current < self@.size()
    }

    /// A table with the unclipped layer alone, which is current.
    pub fn new() -> (t: Self)
        ensures
            t@.regions == Seq::<ClipRegion>::empty(),
            t@.current == 0,
            t.wf(),
    {
        LayerClippings { clippings: Vec::new(), current: 0 }
    }

    /// The layer that new geometry is tagged with.
    pub fn current_layer(&self) -> (layer: u32)
        requires
            self.wf(),
        ensures
            layer == self@.current,
            layer < MAX_CLIPPINGS,
    {
        self.current
    }

    /// The number of layers, the unclipped one included.
    pub fn len(&self) -> (n: usize)
        requires
            self.wf(),
        ensures
            n == self@.size(),
    {
        self.clippings.len() + 1
    }

    /// Adds a region and returns its layer, or `None` if every slot is taken; the current
    /// layer stays as it is.
    pub fn add_clipping(&mut self, from: Point, to: Point) -> (layer: Option<u32>)
        requires
            old(self).wf(),
        ensures
            final(self).wf(),
            final(self)@.current == old(self)@.current,
            old(self)@.full() ==> layer is None && final(self)@ == old(self)@,
            !old(self)@.full() ==> layer == Some(old(self)@.size() as u32) && final(self)@.regions
                == old(self)@.regions.push(ClipRegion { min: from, max: to }),
    {
        if self.clippings.len() + 1 >= MAX_CLIPPINGS {
            None
        } else {
            self.clippings.push(ClipRegion { min: from, max: to });
            Some(self.clippings.len() as u32)
        }
    }

    /// Makes the region the clip of what is drawn next, on a page of `width` by `height`
    /// points. A region that covers the page selects layer 0. Any other region is added to the
    /// table and its new layer selected, unless the table is full: then nothing changes.
    /// Returns the selected layer, or `None` where the request was refused.
    pub fn set_clip(&mut self, from: Point, to: Point, width: u32, height: u32) -> (layer: Option<
        u32,
    >)
        requires
            old(self).wf(),
        ensures
            final(self).wf(),
            final(self)@ == old(self)@.clipped(ClipRegion { min: from, max: to }, width, height),
            layer is Some <==> old(self)@.accepts(
                ClipRegion { min: from, max: to },
                width,
                height,
            ),
            layer is Some ==> layer->0 == final(self)@.current,
    {
        let region = ClipRegion { min: from, max: to };
        if region.covers_page(width, height) {
            self.current = 0;
            Some(0)
        } else {
            match self.add_clipping(from, to) {
                Some(layer) => {
                    self.current = layer;
                    Some(layer)
                },
                None => None,
            }
        }
    }

    /// The table as the drawing stage takes it: one slot per layer, slot 0 and the unused
    /// slots holding the region that clips nothing.
    pub fn to_array(&self) -> (slots: [ClipRegion; MAX_CLIPPINGS])
        requires
            self.wf(),
        ensures
            forall|i: int| 0 <= i < MAX_CLIPPINGS ==> slots[i] == self@.slot(i),
    {
        let mut slots = [ClipRegion::no_clipping();MAX_CLIPPINGS];
        let mut i: usize = 0;
        while i < self.clippings.len()
            invariant
                self.wf(),
                i <= self.clippings.len(),
                forall|j: int|
                    0 <= j < MAX_CLIPPINGS ==> slots[j] == (if 1 <= j <= i {
                        self@.regions[j - 1]
                    } else {
                        ClipRegion::unbounded()
                    }),
            decreases self.clippings.len() - i,
        {
            slots[i + 1] = self.clippings[i];
            i = i + 1;
        }
        slots
    }
}

/// From a fresh table, `n` requests that do not cover the page leave `n + 1` layers, capped at
/// `MAX_CLIPPINGS`, and the last layer current: once the table is full, further requests
/// change neither its size nor the current layer.
pub proof fn lemma_clip_capacity(regions: Seq<ClipRegion>, width: u32, height: u32)
    requires
        forall|i: int| 0 <= i < regions.len() ==> !(#[trigger] regions[i]).covers(width, height),
    ensures
        ({
            let fresh = ClipTable { regions: Seq::empty(), current: 0 };
            let after = fresh.clipped_all(regions, width, height);
            &&& after.size() == if regions.len() + 1 <= MAX_CLIPPINGS {
                regions.len() + 1
            } else {
                MAX_CLIPPINGS as nat
            }
            &&& after.current == after.size() - 1
            &&& after.current < MAX_CLIPPINGS
        }),
    decreases regions.len(),
{
    if regions.len() > 0 {
        lemma_clip_capacity(regions.drop_last(), width, height);
    }
}

} // verus!
