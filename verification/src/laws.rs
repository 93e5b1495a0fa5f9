use vstd::prelude::*;
use vstd::arithmetic::mul::{lemma_mul_inequality, lemma_mul_nonnegative};
use crate::geometry::{
    active_border_rect, cell_x_h, cell_y_h, min_y_h, rect_min_side, split_hit_rect,
    split_line_rect, RectH,
};
use crate::layout::{LayoutContext, PositionedPane, PositionedSplit, SplitDirection};

verus! {

/// The x of a half-cell gutter: an odd number of half-cells to the right
/// of the grid origin, in half-pixel units.
pub open spec fn half_anchor_x(ctx: LayoutContext, k: int) -> int {
    2 * (ctx.padding.left + ctx.chrome.left) + (2 * k + 1) * ctx.metrics.width
}

/// The y of a half-cell gutter below the grid origin, in half-pixel units.
pub open spec fn half_anchor_y(ctx: LayoutContext, k: int) -> int {
    2 * (ctx.padding.top + ctx.origin_y()) + (2 * k + 1) * ctx.metrics.height
}

/// `x` lies on a half-cell offset of the cell grid.
pub open spec fn on_half_cell_x(ctx: LayoutContext, x: int) -> bool {
    exists|k: int| x == half_anchor_x(ctx, k)
}

/// `y` lies on a half-cell offset of the cell grid.
pub open spec fn on_half_cell_y(ctx: LayoutContext, y: int) -> bool {
    exists|k: int| y == half_anchor_y(ctx, k)
}

/// At least one coordinate of `r` sits on a half-cell offset, so the
/// rectangle lies in a gutter between cells rather than across a glyph.
pub open spec fn rect_anchored(ctx: LayoutContext, r: RectH) -> bool {
    on_half_cell_x(ctx, r.x) || on_half_cell_y(ctx, r.y)
}

proof fn lemma_left_of_cell_anchored_x(ctx: LayoutContext, c: int)
    ensures
        on_half_cell_x(ctx, cell_x_h(ctx, c) - ctx.metrics.width),
{
    let w = ctx.metrics.width as int;
    assert((2 * (c - 1) + 1) * w == 2 * (c * w) - w) by (nonlinear_arith);
    assert(cell_x_h(ctx, c) - w == half_anchor_x(ctx, c - 1));
}

proof fn lemma_right_of_cell_anchored_x(ctx: LayoutContext, c: int)
    ensures
        on_half_cell_x(ctx, cell_x_h(ctx, c) + ctx.metrics.width),
{
    let w = ctx.metrics.width as int;
    assert((2 * c + 1) * w == 2 * (c * w) + w) by (nonlinear_arith);
    assert(cell_x_h(ctx, c) + w == half_anchor_x(ctx, c));
}

proof fn lemma_above_cell_anchored_y(ctx: LayoutContext, r: int)
    ensures
        on_half_cell_y(ctx, cell_y_h(ctx, r) - ctx.metrics.height),
{
    let h = ctx.metrics.height as int;
    assert((2 * (r - 1) + 1) * h == 2 * (r * h) - h) by (nonlinear_arith);
    assert(cell_y_h(ctx, r) - h == half_anchor_y(ctx, r - 1));
}

proof fn lemma_below_cell_anchored_y(ctx: LayoutContext, r: int)
    ensures
        on_half_cell_y(ctx, cell_y_h(ctx, r) + ctx.metrics.height),
{
    let h = ctx.metrics.height as int;
    assert((2 * r + 1) * h == 2 * (r * h) + h) by (nonlinear_arith);
    assert(cell_y_h(ctx, r) + h == half_anchor_y(ctx, r));
}

/// Half-cell anchoring of the active border: each of its four rectangles
/// has its x or its y on a half-cell offset of the grid.
pub proof fn lemma_active_border_anchored(ctx: LayoutContext, p: PositionedPane)
    ensures
        rect_anchored(ctx, active_border_rect(ctx, p, 0)),
        rect_anchored(ctx, active_border_rect(ctx, p, 1)),
        rect_anchored(ctx, active_border_rect(ctx, p, 2)),
        rect_anchored(ctx, active_border_rect(ctx, p, 3)),
{
    lemma_left_of_cell_anchored_x(ctx, p.left as int);
    lemma_right_of_cell_anchored_x(ctx, p.left + p.width);
}

/// Half-cell anchoring of a split's separator line.
pub proof fn lemma_split_line_anchored(ctx: LayoutContext, s: PositionedSplit)
    ensures
        rect_anchored(ctx, split_line_rect(ctx, s)),
{
    match s.direction {
        SplitDirection::Horizontal => {
            lemma_right_of_cell_anchored_x(ctx, s.left as int);
        },
        SplitDirection::Vertical => {
            lemma_left_of_cell_anchored_x(ctx, s.left as int);
        },
    }
}

/// Thickness invariance of the active border: as long as the line is no
/// thicker than a cell, the shorter side of each of the four rectangles is
/// exactly the line width (doubled here, as the unit is half-pixels).
///
/// A line thicker than a cell breaks this: with a ten-pixel-wide cell, a
/// zero-width pane and a fifty-pixel line, the top rectangle is only ten
/// pixels across.
pub proof fn lemma_active_border_thickness(ctx: LayoutContext, p: PositionedPane)
    requires
        ctx.wf(),
        p.wf(),
        ctx.metrics.line_width <= ctx.metrics.width,
        ctx.metrics.line_width <= ctx.metrics.height,
    ensures
        rect_min_side(active_border_rect(ctx, p, 0)) == 2 * ctx.metrics.line_width,
        rect_min_side(active_border_rect(ctx, p, 1)) == 2 * ctx.metrics.line_width,
        rect_min_side(active_border_rect(ctx, p, 2)) == 2 * ctx.metrics.line_width,
        rect_min_side(active_border_rect(ctx, p, 3)) == 2 * ctx.metrics.line_width,
{
    let w = ctx.metrics.width as int;
    let h = ctx.metrics.height as int;
    lemma_mul_nonnegative(p.width as int, w);
    lemma_mul_nonnegative(p.top + p.height, h);
    lemma_mul_inequality(p.top as int, p.top + p.height, h);
}

/// Thickness invariance of a split's separator line, under the same
/// thin-line condition as the border.
pub proof fn lemma_split_line_thickness(ctx: LayoutContext, s: PositionedSplit)
    requires
        ctx.wf(),
        s.wf(),
        ctx.metrics.line_width <= ctx.metrics.width,
        ctx.metrics.line_width <= ctx.metrics.height,
    ensures
        rect_min_side(split_line_rect(ctx, s)) == 2 * ctx.metrics.line_width,
{
    let w = ctx.metrics.width as int;
    let h = ctx.metrics.height as int;
    lemma_mul_inequality(1, 1 + s.size, w);
    lemma_mul_inequality(1, 1 + s.size, h);
}

/// Every rectangle of the active border has non-negative width and height:
/// a degenerate pane yields thin but well-formed rectangles, never
/// inverted ones.
pub proof fn lemma_active_border_extents_nonneg(ctx: LayoutContext, p: PositionedPane)
    requires
        ctx.wf(),
        p.wf(),
    ensures
        active_border_rect(ctx, p, 0).w >= 0 && active_border_rect(ctx, p, 0).h >= 0,
        active_border_rect(ctx, p, 1).w >= 0 && active_border_rect(ctx, p, 1).h >= 0,
        active_border_rect(ctx, p, 2).w >= 0 && active_border_rect(ctx, p, 2).h >= 0,
        active_border_rect(ctx, p, 3).w >= 0 && active_border_rect(ctx, p, 3).h >= 0,
{
    let h = ctx.metrics.height as int;
    lemma_mul_nonnegative(p.width as int, ctx.metrics.width as int);
    lemma_mul_nonnegative(p.top + p.height, h);
    lemma_mul_inequality(p.top as int, p.top + p.height, h);
}

/// A split's separator line has non-negative width and height.
pub proof fn lemma_split_line_extents_nonneg(ctx: LayoutContext, s: PositionedSplit)
    requires
        ctx.wf(),
        s.wf(),
    ensures
        split_line_rect(ctx, s).w >= 0,
        split_line_rect(ctx, s).h >= 0,
{
    lemma_mul_nonnegative(1 + s.size, ctx.metrics.width as int);
    lemma_mul_nonnegative(1 + s.size, ctx.metrics.height as int);
}

/// Clamp: the top edge of the active border, and of both of its side
/// rectangles, never rises above the top of the pane area, whatever the
/// pane's row.
pub proof fn lemma_active_border_clamped(ctx: LayoutContext, p: PositionedPane)
    ensures
        active_border_rect(ctx, p, 0).y >= min_y_h(ctx),
        active_border_rect(ctx, p, 2).y >= min_y_h(ctx),
        active_border_rect(ctx, p, 3).y >= min_y_h(ctx),
{
}

/// Hit-region coverage: a Horizontal split's region is one cell wide and
/// runs the split's length in cells; a Vertical split's region is the
/// transpose.
pub proof fn lemma_split_hit_coverage(ctx: LayoutContext, s: PositionedSplit)
    ensures
        s.direction == SplitDirection::Horizontal ==> {
            &&& split_hit_rect(ctx, s).w == ctx.metrics.width
            &&& split_hit_rect(ctx, s).h == s.size * ctx.metrics.height
        },
        s.direction == SplitDirection::Vertical ==> {
            &&& split_hit_rect(ctx, s).w == s.size * ctx.metrics.width
            &&& split_hit_rect(ctx, s).h == ctx.metrics.height
        },
{
}

} // verus!
