use vstd::prelude::*;
use vstd::arithmetic::mul::{lemma_mul_nonnegative, lemma_mul_upper_bound};
use crate::error::PaintError;
use crate::geometry::{active_border_rect, split_hit_rect, split_line_rect};
use crate::layout::{
    vertical_origin_offset, LayoutContext, Palette, PositionedPane, PositionedSplit,
    SplitDirection,
};
use crate::sink::{hit_matches, quad_matches, HitItem, Quad, QuadSink};

verus! {

/// The fixed layer every border and separator is emitted into: above the
/// cell contents, below cursors and overlays.
pub const BORDER_LAYER: u8 = 2;

/// A product of a cell count (possibly a sum of two bounded counts) and a
/// pixel metric stays well inside 32 bits.
proof fn lemma_grid_product_bound(a: int, b: int)
    requires
        0 <= a <= 65536,
        0 <= b <= 32768,
    ensures
        0 <= a * b <= 0x80000000,
{
    lemma_mul_nonnegative(a, b);
    lemma_mul_upper_bound(a, 65536, b, 32768);
}

/// Render-side state of the window: the layout context and the pointer
/// hit regions gathered during the current frame's paint pass.
pub struct TermWindow {
    pub ctx: LayoutContext,
    /// Hit regions for this frame, consulted by the window after paint.
    pub ui_items: Vec<HitItem>,
}

impl TermWindow {
    /// A window about to paint its first frame: no hit regions yet.
    pub fn new(ctx: LayoutContext) -> (w: TermWindow)
        ensures
            w.ctx == ctx,
            w.ui_items@.len() == 0,
    {
        TermWindow { ctx, ui_items: Vec::new() }
    }

    /// Outline the active pane with four rectangles of `palette.split_active`,
    /// each `line_width` thick, anchored half a cell outside the pane's cell
    /// bounds so they line up with the separators between cells. The top
    /// edge is clamped below the tab bar.
    ///
    /// Emission order is top, bottom, left, right. The sink is append-only:
    /// when it fills part way through, the rectangles already pushed remain
    /// and `SinkFull` is returned, matching the caller's frame-discard
    /// policy. When the tab bar height is not yet known, nothing is emitted
    /// and `MetricUnavailable` is returned.
    pub fn paint_active_pane_border<C: Copy>(
        &mut self,
        sink: &mut QuadSink<C>,
        active_pane: &PositionedPane,
        palette: &Palette<C>,
    ) -> (r: Result<(), PaintError>)
        requires
            old(self).ctx.wf(),
            active_pane.wf(),
        ensures
            *final(self) == *old(self),
            final(sink).capacity == old(sink).capacity,
            final(sink).layer0@ == old(sink).layer0@,
            final(sink).layer1@ == old(sink).layer1@,
            !old(self).ctx.tab_bar.offset_known() ==> {
                &&& r == Err::<(), PaintError>(PaintError::MetricUnavailable)
                &&& final(sink).layer2@ == old(sink).layer2@
            },
            old(self).ctx.tab_bar.offset_known() ==> {
                let k = old(sink).layer2@.len() as int;
                let n = if old(sink).room() < 4 { old(sink).room() } else { 4int };
                &&& final(sink).layer2@.len() == k + n
                &&& forall|i: int| 0 <= i < k ==> final(sink).layer2@[i] == old(sink).layer2@[i]
                &&& (n >= 1 ==> quad_matches(final(sink).layer2@[k],
                    active_border_rect(old(self).ctx, *active_pane, 0), palette.split_active))
                &&& (n >= 2 ==> quad_matches(final(sink).layer2@[k + 1],
                    active_border_rect(old(self).ctx, *active_pane, 1), palette.split_active))
                &&& (n >= 3 ==> quad_matches(final(sink).layer2@[k + 2],
                    active_border_rect(old(self).ctx, *active_pane, 2), palette.split_active))
                &&& (n == 4 ==> quad_matches(final(sink).layer2@[k + 3],
                    active_border_rect(old(self).ctx, *active_pane, 3), palette.split_active))
                &&& (r is Ok <==> n == 4)
                &&& (n < 4 ==> r == Err::<(), PaintError>(PaintError::SinkFull))
            },
    {
        let off_px: u32 = match vertical_origin_offset(&self.ctx) {
            Ok(v) => v,
            Err(e) => {
                return Err(e);
            },
        };
        let off: i64 = off_px as i64;
        let cw: i64 = self.ctx.metrics.width as i64;
        let ch: i64 = self.ctx.metrics.height as i64;
        let lw2: i64 = 2 * (self.ctx.metrics.line_width as i64);
        let pl: i64 = self.ctx.padding.left as i64;
        let pt: i64 = self.ctx.padding.top as i64;

        proof {
            lemma_grid_product_bound(active_pane.left as int, cw as int);
            lemma_grid_product_bound(active_pane.left + active_pane.width, cw as int);
            lemma_grid_product_bound(active_pane.width as int, cw as int);
            lemma_grid_product_bound(active_pane.top as int, ch as int);
            lemma_grid_product_bound(active_pane.top + active_pane.height, ch as int);
        }

        let left_x: i64 = 2 * ((active_pane.left as i64) * cw + pl + (self.ctx.chrome.left as i64))
            - cw;
        let right_x: i64 = 2 * (((active_pane.left + active_pane.width) as i64) * cw + pl
            + (self.ctx.chrome.left as i64)) + cw;
        let top_unclamped: i64 = 2 * ((active_pane.top as i64) * ch + pt + off) - ch;
        let min_y: i64 = 2 * (off + pt);
        let top_y: i64 = if top_unclamped > min_y { top_unclamped } else { min_y };
        let bottom_y: i64 = 2 * (((active_pane.top + active_pane.height) as i64) * ch + pt + off)
            + ch;
        let outer_w: i64 = 2 * ((active_pane.width as i64) * cw + cw);
        let side_h: i64 = bottom_y - top_y + lw2;
        let color = palette.split_active;

        match sink.push_rect(BORDER_LAYER, Quad {
            x: left_x,
            y: top_y,
            width: outer_w,
            height: lw2,
            color,
        }) {
            Ok(()) => {},
            Err(e) => {
                return Err(e);
            },
        }
        match sink.push_rect(BORDER_LAYER, Quad {
            x: left_x,
            y: bottom_y,
            width: outer_w,
            height: lw2,
            color,
        }) {
            Ok(()) => {},
            Err(e) => {
                return Err(e);
            },
        }
        match sink.push_rect(BORDER_LAYER, Quad {
            x: left_x,
            y: top_y,
            width: lw2,
            height: side_h,
            color,
        }) {
            Ok(()) => {},
            Err(e) => {
                return Err(e);
            },
        }
        match sink.push_rect(BORDER_LAYER, Quad {
            x: right_x,
            y: top_y,
            width: lw2,
            height: side_h,
            color,
        }) {
            Ok(()) => {},
            Err(e) => {
                return Err(e);
            },
        }
        Ok(())
    }

    /// Draw one separator line for `split` with `palette.split` and record
    /// exactly one hit region, one cell across, covering the split's run.
    ///
    /// The line extends half a cell past each end of the split so crossing
    /// separators meet without a gap. The active border is a separate pass,
    /// so the color here is never `split_active`. When the sink is full the
    /// hit region is not recorded either; when the tab bar height is not
    /// yet known nothing is emitted.
    pub fn paint_split<C: Copy>(
        &mut self,
        sink: &mut QuadSink<C>,
        split: &PositionedSplit,
        palette: &Palette<C>,
    ) -> (r: Result<(), PaintError>)
        requires
            old(self).ctx.wf(),
            split.wf(),
        ensures
            final(self).ctx == old(self).ctx,
            final(sink).capacity == old(sink).capacity,
            final(sink).layer0@ == old(sink).layer0@,
            final(sink).layer1@ == old(sink).layer1@,
            !old(self).ctx.tab_bar.offset_known() ==> {
                &&& r == Err::<(), PaintError>(PaintError::MetricUnavailable)
                &&& final(sink).layer2@ == old(sink).layer2@
                &&& final(self).ui_items@ == old(self).ui_items@
            },
            old(self).ctx.tab_bar.offset_known() && old(sink).room() == 0 ==> {
                &&& r == Err::<(), PaintError>(PaintError::SinkFull)
                &&& final(sink).layer2@ == old(sink).layer2@
                &&& final(self).ui_items@ == old(self).ui_items@
            },
            old(self).ctx.tab_bar.offset_known() && old(sink).room() > 0 ==> {
                &&& r is Ok
                &&& final(sink).layer2@.len() == old(sink).layer2@.len() + 1
                &&& forall|i: int| 0 <= i < old(sink).layer2@.len()
                    ==> final(sink).layer2@[i] == old(sink).layer2@[i]
                &&& quad_matches(
                    final(sink).layer2@.last(),
                    split_line_rect(old(self).ctx, *split),
                    palette.split,
                )
                &&& final(self).ui_items@.len() == old(self).ui_items@.len() + 1
                &&& forall|i: int| 0 <= i < old(self).ui_items@.len()
                    ==> final(self).ui_items@[i] == old(self).ui_items@[i]
                &&& hit_matches(
                    final(self).ui_items@.last(),
                    split_hit_rect(old(self).ctx, *split),
                    *split,
                )
            },
    {
        let off_px: u32 = match vertical_origin_offset(&self.ctx) {
            Ok(v) => v,
            Err(e) => {
                return Err(e);
            },
        };
        let off: i64 = off_px as i64;
        let cw: i64 = self.ctx.metrics.width as i64;
        let ch: i64 = self.ctx.metrics.height as i64;
        let lw2: i64 = 2 * (self.ctx.metrics.line_width as i64);
        let pl: i64 = self.ctx.padding.left as i64;
        let pt: i64 = self.ctx.padding.top as i64;

        proof {
            lemma_grid_product_bound(split.left as int, cw as int);
            lemma_grid_product_bound(split.top as int, ch as int);
            lemma_grid_product_bound(1 + split.size, cw as int);
            lemma_grid_product_bound(1 + split.size, ch as int);
            lemma_grid_product_bound(split.left as int, self.ctx.metrics.width as int);
            lemma_grid_product_bound(split.top as int, self.ctx.metrics.height as int);
            lemma_grid_product_bound(split.size as int, self.ctx.metrics.width as int);
            lemma_grid_product_bound(split.size as int, self.ctx.metrics.height as int);
        }

        let px: i64 = 2 * ((split.left as i64) * cw + pl + (self.ctx.chrome.left as i64));
        let py: i64 = 2 * ((split.top as i64) * ch + pt + off);
        let color = palette.split;

        let quad = match split.direction {
            SplitDirection::Horizontal => Quad {
                x: px + cw,
                y: py - ch,
                width: lw2,
                height: 2 * ((1 + (split.size as i64)) * ch),
                color,
            },
            SplitDirection::Vertical => Quad {
                x: px - cw,
                y: py + ch,
                width: 2 * ((1 + (split.size as i64)) * cw),
                height: lw2,
                color,
            },
        };
        match sink.push_rect(BORDER_LAYER, quad) {
            Ok(()) => {},
            Err(e) => {
                return Err(e);
            },
        }

        let hit_x: usize = (self.ctx.chrome.left as usize) + (self.ctx.padding.left as usize)
            + (split.left as usize) * (self.ctx.metrics.width as usize);
        let hit_y: usize = (self.ctx.padding.top as usize) + (off_px as usize)
            + (split.top as usize) * (self.ctx.metrics.height as usize);
        let (hit_w, hit_h): (usize, usize) = match split.direction {
            SplitDirection::Horizontal => (
                self.ctx.metrics.width as usize,
                (split.size as usize) * (self.ctx.metrics.height as usize),
            ),
            SplitDirection::Vertical => (
                (split.size as usize) * (self.ctx.metrics.width as usize),
                self.ctx.metrics.height as usize,
            ),
        };
        self.ui_items.push(HitItem {
            x: hit_x,
            y: hit_y,
            width: hit_w,
            height: hit_h,
            split: *split,
        });
        Ok(())
    }
}

} // verus!
