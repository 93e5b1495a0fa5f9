use vstd::prelude::*;
use crate::error::PaintError;

verus! {

/// Upper bound on every cell count and pixel metric this crate accepts.
///
/// Keeping each input at or below 2^15 lets every pixel product fit
/// comfortably in 32 bits, so the arithmetic in the paint routines is free
/// of overflow even on a 32-bit host.
pub const MAX_DIM: u32 = 32768;

/// Pixel size of one character cell, and the thickness of border lines.
#[derive(Clone, Copy, Debug, PartialEq, Eq, Structural)]
pub struct CellMetrics {
    /// Width of one cell in pixels.
    pub width: u32,
    /// Height of one cell in pixels.
    pub height: u32,
    /// Thickness of every border and separator line, in pixels. Sourced
    /// from the underline metric of the current font, so border weight
    /// follows the font choice.
    pub line_width: u32,
}

impl CellMetrics {
    /// A cell has positive extent and every metric is in range.
    pub open spec fn wf(self) -> bool {
        &&& 1 <= self.width <= MAX_DIM
        &&& 1 <= self.height <= MAX_DIM
        &&& self.line_width <= MAX_DIM
    }
}

/// Window-decoration insets imposed by the OS. Only `top` and `left` are
/// consumed by the paint routines; the other two sides are carried so the
/// host can hand the whole inset set through unchanged.
#[derive(Clone, Copy, Debug, PartialEq, Eq, Structural)]
pub struct ChromeInsets {
    pub top: u32,
    pub left: u32,
    pub right: u32,
    pub bottom: u32,
}

impl ChromeInsets {
    /// The two consumed insets are in range.
    pub open spec fn wf(self) -> bool {
        self.top <= MAX_DIM && self.left <= MAX_DIM
    }
}

/// Interior padding applied inside the chrome and below a top tab bar.
#[derive(Clone, Copy, Debug, PartialEq, Eq, Structural)]
pub struct Padding {
    pub left: u32,
    pub top: u32,
}

impl Padding {
    pub open spec fn wf(self) -> bool {
        self.left <= MAX_DIM && self.top <= MAX_DIM
    }
}

/// Tab bar placement, with its pixel height once the host has computed it.
#[derive(Clone, Copy, Debug)]
pub struct TabBar {
    pub visible: bool,
    pub at_bottom: bool,
    /// `None` until the host has finished its font and layout setup.
    pub height: Option<u32>,
}

impl TabBar {
    pub open spec fn wf(self) -> bool {
        self.height is Some ==> self.height->0 <= MAX_DIM
    }

    /// The tab bar shifts the pane area only when it sits on top; only then
    /// does painting depend on its height being known.
    pub open spec fn offset_known(self) -> bool {
        self.visible && !self.at_bottom ==> self.height is Some
    }

    /// Vertical shift, in pixels, that the tab bar imposes on the pane area.
    pub open spec fn offset(self) -> int {
        if self.visible && !self.at_bottom {
            self.height->0 as int
        } else {
            0
        }
    }
}

/// Everything the paint routines read about the window: cell metrics,
/// chrome insets, padding and the tab bar.
#[derive(Clone, Copy, Debug)]
pub struct LayoutContext {
    pub metrics: CellMetrics,
    pub chrome: ChromeInsets,
    pub padding: Padding,
    pub tab_bar: TabBar,
}

impl LayoutContext {
    pub open spec fn wf(self) -> bool {
        &&& self.metrics.wf()
        &&& self.chrome.wf()
        &&& self.padding.wf()
        &&& self.tab_bar.wf()
    }

    /// Pixel y where the pane area begins: the top chrome inset plus a top
    /// tab bar's height.
    pub open spec fn origin_y(self) -> int {
        self.tab_bar.offset() + self.chrome.top
    }

    /// Pixel x where the pane area begins: the left chrome inset.
    pub open spec fn origin_x(self) -> int {
        self.chrome.left as int
    }
}

/// Resolve the vertical origin offset of the pane area in pixels.
///
/// Fails with `MetricUnavailable` exactly when the tab bar sits on top but
/// its height has not been computed yet.
pub fn vertical_origin_offset(ctx: &LayoutContext) -> (r: Result<u32, PaintError>)
    requires
        ctx.wf(),
    ensures
        r is Ok <==> ctx.tab_bar.offset_known(),
        r is Ok ==> r->Ok_0 as int == ctx.origin_y(),
        r is Err ==> r == Err::<u32, PaintError>(PaintError::MetricUnavailable),
{
    let tab: u32 = if ctx.tab_bar.visible && !ctx.tab_bar.at_bottom {
        match ctx.tab_bar.height {
            Some(h) => h,
            None => {
                return Err(PaintError::MetricUnavailable);
            },
        }
    } else {
        0
    };
    Ok(tab + ctx.chrome.top)
}

/// A pane's rectangle on the cell grid, in cell coordinates.
#[derive(Clone, Copy, Debug, PartialEq, Eq, Structural)]
pub struct PositionedPane {
    pub left: u32,
    pub top: u32,
    pub width: u32,
    pub height: u32,
}

impl PositionedPane {
    pub open spec fn wf(self) -> bool {
        &&& self.left <= MAX_DIM
        &&& self.top <= MAX_DIM
        &&& self.width <= MAX_DIM
        &&& self.height <= MAX_DIM
    }
}

/// Which way a split divides its two panes.
///
/// `Horizontal` places two panes side by side, so its separator is a
/// *vertical* line running down between them; `Vertical` is the converse.
#[derive(Clone, Copy, Debug, PartialEq, Eq, Structural)]
pub enum SplitDirection {
    Horizontal,
    Vertical,
}

/// A separator between two adjacent panes, in cell coordinates. `size` is
/// the length of the boundary in cells.
#[derive(Clone, Copy, Debug, PartialEq, Eq, Structural)]
pub struct PositionedSplit {
    pub left: u32,
    pub top: u32,
    pub size: u32,
    pub direction: SplitDirection,
}

impl PositionedSplit {
    pub open spec fn wf(self) -> bool {
        &&& self.left <= MAX_DIM
        &&& self.top <= MAX_DIM
        &&& self.size <= MAX_DIM
    }
}

/// The two colors this crate reads from the host palette. `C` is whatever
/// color type the host renders with; the paint routines only route it.
#[derive(Clone, Copy, Debug)]
pub struct Palette<C> {
    /// Color of every pane separator.
    pub split: C,
    /// Color of the border around the active pane.
    pub split_active: C,
}

} // verus!
