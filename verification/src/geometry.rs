use vstd::prelude::*;
use crate::layout::{LayoutContext, PositionedPane, PositionedSplit, SplitDirection};

verus! {

/// An axis-aligned rectangle used to state geometry. The unit depends on
/// the context: half-pixels for emitted quads, whole pixels for hit
/// regions.
pub struct RectH {
    pub x: int,
    pub y: int,
    pub w: int,
    pub h: int,
}

/// The shorter side of a rectangle.
pub open spec fn rect_min_side(r: RectH) -> int {
    if r.w <= r.h {
        r.w
    } else {
        r.h
    }
}

/// Left pixel edge of cell column `col`, in half-pixel units.
pub open spec fn cell_x_h(ctx: LayoutContext, col: int) -> int {
    2 * (col * ctx.metrics.width + ctx.padding.left + ctx.chrome.left)
}

/// Top pixel edge of cell row `row`, in half-pixel units.
pub open spec fn cell_y_h(ctx: LayoutContext, row: int) -> int {
    2 * (row * ctx.metrics.height + ctx.padding.top + ctx.origin_y())
}

/// The least y any border may reach, in half-pixel units: the top of the
/// pane area, below the chrome and a top tab bar.
pub open spec fn min_y_h(ctx: LayoutContext) -> int {
    2 * (ctx.origin_y() + ctx.padding.top)
}

/// Top edge of the active border: half a cell above the pane's first row,
/// clamped so it never reaches into the tab bar.
pub open spec fn border_top_y_h(ctx: LayoutContext, p: PositionedPane) -> int {
    let unclamped = cell_y_h(ctx, p.top as int) - ctx.metrics.height;
    if unclamped > min_y_h(ctx) {
        unclamped
    } else {
        min_y_h(ctx)
    }
}

/// Width of the top and bottom border rectangles: the pane plus half a
/// cell on each side.
pub open spec fn border_outer_w_h(ctx: LayoutContext, p: PositionedPane) -> int {
    2 * (p.width * ctx.metrics.width + ctx.metrics.width)
}

/// Height of the left and right border rectangles, reaching from the
/// (possibly clamped) top edge down past the bottom edge's line.
pub open spec fn border_side_h_h(ctx: LayoutContext, p: PositionedPane) -> int {
    cell_y_h(ctx, p.top + p.height) + ctx.metrics.height - border_top_y_h(ctx, p)
        + 2 * ctx.metrics.line_width
}

/// The `i`-th rectangle of the active pane border, in half-pixel units,
/// in emission order: top, bottom, left, right.
pub open spec fn active_border_rect(ctx: LayoutContext, p: PositionedPane, i: int) -> RectH {
    let left_x = cell_x_h(ctx, p.left as int) - ctx.metrics.width;
    let right_x = cell_x_h(ctx, p.left + p.width) + ctx.metrics.width;
    let top_y = border_top_y_h(ctx, p);
    let bottom_y = cell_y_h(ctx, p.top + p.height) + ctx.metrics.height;
    let lw2 = 2 * ctx.metrics.line_width;
    if i == 0 {
        RectH { x: left_x, y: top_y, w: border_outer_w_h(ctx, p), h: lw2 }
    } else if i == 1 {
        RectH { x: left_x, y: bottom_y, w: border_outer_w_h(ctx, p), h: lw2 }
    } else if i == 2 {
        RectH { x: left_x, y: top_y, w: lw2, h: border_side_h_h(ctx, p) }
    } else {
        RectH { x: right_x, y: top_y, w: lw2, h: border_side_h_h(ctx, p) }
    }
}

/// The separator line of a split, in half-pixel units. It runs along the
/// cell boundary, extended by half a cell at each end so perpendicular
/// separators meet in a clean cross.
pub open spec fn split_line_rect(ctx: LayoutContext, s: PositionedSplit) -> RectH {
    let px = cell_x_h(ctx, s.left as int);
    let py = cell_y_h(ctx, s.top as int);
    let lw2 = 2 * ctx.metrics.line_width;
    match s.direction {
        SplitDirection::Horizontal => RectH {
            x: px + ctx.metrics.width,
            y: py - ctx.metrics.height,
            w: lw2,
            h: 2 * ((1 + s.size) * ctx.metrics.height),
        },
        SplitDirection::Vertical => RectH {
            x: px - ctx.metrics.width,
            y: py + ctx.metrics.height,
            w: 2 * ((1 + s.size) * ctx.metrics.width),
            h: lw2,
        },
    }
}

/// The pointer hit region of a split, in whole pixels: one cell across the
/// split, running its length in cells.
pub open spec fn split_hit_rect(ctx: LayoutContext, s: PositionedSplit) -> RectH {
    let x = ctx.chrome.left + ctx.padding.left + s.left * ctx.metrics.width;
    let y = ctx.padding.top + ctx.origin_y() + s.top * ctx.metrics.height;
    match s.direction {
        SplitDirection::Horizontal => RectH {
            x: x,
            y: y,
            w: ctx.metrics.width as int,
            h: s.size * ctx.metrics.height,
        },
        SplitDirection::Vertical => RectH {
            x: x,
            y: y,
            w: s.size * ctx.metrics.width,
            h: ctx.metrics.height as int,
        },
    }
}

} // verus!
