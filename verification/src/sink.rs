use vstd::prelude::*;
use crate::error::PaintError;
use crate::geometry::RectH;
use crate::layout::PositionedSplit;

verus! {

/// One filled rectangle queued for the GPU. Position and extent are in
/// half-pixel units; `color` is whatever color type the host renders with.
#[derive(Clone, Copy, Debug)]
pub struct Quad<C> {
    pub x: i64,
    pub y: i64,
    pub width: i64,
    pub height: i64,
    pub color: C,
}

/// `q` is the rectangle `r` (half-pixel units) filled with color `c`.
pub open spec fn quad_matches<C>(q: Quad<C>, r: RectH, c: C) -> bool {
    &&& q.x as int == r.x
    &&& q.y as int == r.y
    &&& q.width as int == r.w
    &&& q.height as int == r.h
    &&& q.color == c
}

/// A per-frame, append-only buffer of colored rectangles in three layers:
/// layer 0 below the cell contents, layer 1 the cell contents, layer 2
/// above them. The fixed capacity models the vertex arena behind the
/// sink; a push beyond it fails with `SinkFull`.
pub struct QuadSink<C> {
    pub layer0: Vec<Quad<C>>,
    pub layer1: Vec<Quad<C>>,
    pub layer2: Vec<Quad<C>>,
    pub capacity: usize,
}

impl<C> QuadSink<C> {
    /// Quads held across all three layers.
    pub open spec fn total(self) -> int {
        self.layer0@.len() + self.layer1@.len() + self.layer2@.len() as int
    }

    /// Free slots left in the arena.
    pub open spec fn room(self) -> int {
        if self.total() < self.capacity {
            self.capacity - self.total()
        } else {
            0
        }
    }

    /// An empty sink over an arena of `capacity` quads.
    pub fn new(capacity: usize) -> (s: QuadSink<C>)
        ensures
            s.layer0@.len() == 0,
            s.layer1@.len() == 0,
            s.layer2@.len() == 0,
            s.capacity == capacity,
    {
        QuadSink { layer0: Vec::new(), layer1: Vec::new(), layer2: Vec::new(), capacity }
    }

    /// Append one rectangle to the given layer. The other layers are never
    /// touched; once the arena is at capacity the push is refused and the
    /// sink is left as it was.
    pub fn push_rect(&mut self, layer: u8, quad: Quad<C>) -> (r: Result<(), PaintError>)
        requires
            layer <= 2,
        ensures
            final(self).capacity == old(self).capacity,
            old(self).room() == 0 ==> {
                &&& r == Err::<(), PaintError>(PaintError::SinkFull)
                &&& final(self).layer0@ == old(self).layer0@
                &&& final(self).layer1@ == old(self).layer1@
                &&& final(self).layer2@ == old(self).layer2@
            },
            old(self).room() > 0 ==> {
                &&& r is Ok
                &&& (layer == 0 ==> final(self).layer0@ == old(self).layer0@.push(quad)
                    && final(self).layer1@ == old(self).layer1@
                    && final(self).layer2@ == old(self).layer2@)
                &&& (layer == 1 ==> final(self).layer1@ == old(self).layer1@.push(quad)
                    && final(self).layer0@ == old(self).layer0@
                    && final(self).layer2@ == old(self).layer2@)
                &&& (layer == 2 ==> final(self).layer2@ == old(self).layer2@.push(quad)
                    && final(self).layer0@ == old(self).layer0@
                    && final(self).layer1@ == old(self).layer1@)
            },
    {
        let used: u128 = self.layer0.len() as u128 + self.layer1.len() as u128
            + self.layer2.len() as u128;
        if used < self.capacity as u128 {
            if layer == 0 {
                self.layer0.push(quad);
            } else if layer == 1 {
                self.layer1.push(quad);
            } else {
                self.layer2.push(quad);
            }
            Ok(())
        } else {
            Err(PaintError::SinkFull)
        }
    }
}

/// One pointer hit region in whole pixels, remembering the split it drags.
#[derive(Clone, Copy, Debug, PartialEq, Eq, Structural)]
pub struct HitItem {
    pub x: usize,
    pub y: usize,
    pub width: usize,
    pub height: usize,
    /// The split this region resizes when dragged.
    pub split: PositionedSplit,
}

/// `h` covers the rectangle `r` (whole pixels) and targets split `s`.
pub open spec fn hit_matches(h: HitItem, r: RectH, s: PositionedSplit) -> bool {
    &&& h.x as int == r.x
    &&& h.y as int == r.y
    &&& h.width as int == r.w
    &&& h.height as int == r.h
    &&& h.split == s
}

} // verus!
