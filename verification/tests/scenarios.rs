use split_render::layout::{
    CellMetrics, ChromeInsets, LayoutContext, Padding, Palette, PositionedPane, PositionedSplit,
    SplitDirection, TabBar,
};
use split_render::paint::TermWindow;
use split_render::sink::QuadSink;

// Quad coordinates are in half-pixel units: each value below is twice the
// pixel value it stands for.

const SPLIT_COLOR: u32 = 0x111111;
const ACTIVE_COLOR: u32 = 0xeeeeee;

fn base_ctx() -> LayoutContext {
    LayoutContext {
        metrics: CellMetrics { width: 10, height: 20, line_width: 2 },
        chrome: ChromeInsets { top: 0, left: 0, right: 0, bottom: 0 },
        padding: Padding { left: 0, top: 0 },
        tab_bar: TabBar { visible: false, at_bottom: false, height: None },
    }
}

fn palette() -> Palette<u32> {
    Palette { split: SPLIT_COLOR, split_active: ACTIVE_COLOR }
}

fn expect_quad(sink: &QuadSink<u32>, i: usize, x: i64, y: i64, w: i64, h: i64, color: u32) {
    let q = &sink.layer2[i];
    assert_eq!((q.x, q.y, q.width, q.height, q.color), (x, y, w, h, color));
}

#[test]
fn full_screen_active_pane_clamps_top() {
    let mut win = TermWindow::new(base_ctx());
    let mut sink = QuadSink::new(64);
    let pane = PositionedPane { left: 0, top: 0, width: 80, height: 24 };
    win.paint_active_pane_border(&mut sink, &pane, &palette()).unwrap();
    assert_eq!(sink.layer2.len(), 4);
    // Top edge clamped from half a cell above the grid up to y = 0.
    expect_quad(&sink, 0, -10, 0, 1620, 4, ACTIVE_COLOR);
    expect_quad(&sink, 1, -10, 980, 1620, 4, ACTIVE_COLOR);
    expect_quad(&sink, 2, -10, 0, 4, 984, ACTIVE_COLOR);
    expect_quad(&sink, 3, 1610, 0, 4, 984, ACTIVE_COLOR);
}

#[test]
fn interior_active_pane_border() {
    let mut win = TermWindow::new(base_ctx());
    let mut sink = QuadSink::new(64);
    let pane = PositionedPane { left: 5, top: 3, width: 40, height: 10 };
    win.paint_active_pane_border(&mut sink, &pane, &palette()).unwrap();
    assert_eq!(sink.layer2.len(), 4);
    expect_quad(&sink, 0, 90, 100, 820, 4, ACTIVE_COLOR);
    expect_quad(&sink, 1, 90, 540, 820, 4, ACTIVE_COLOR);
    expect_quad(&sink, 2, 90, 100, 4, 444, ACTIVE_COLOR);
    expect_quad(&sink, 3, 910, 100, 4, 444, ACTIVE_COLOR);
}

#[test]
fn horizontal_split_line_and_hit() {
    let mut win = TermWindow::new(base_ctx());
    let mut sink = QuadSink::new(64);
    let split = PositionedSplit { left: 10, top: 2, size: 8, direction: SplitDirection::Horizontal };
    win.paint_split(&mut sink, &split, &palette()).unwrap();
    assert_eq!(sink.layer2.len(), 1);
    expect_quad(&sink, 0, 210, 60, 4, 360, SPLIT_COLOR);
    assert_eq!(win.ui_items.len(), 1);
    let hit = &win.ui_items[0];
    assert_eq!((hit.x, hit.y, hit.width, hit.height), (100, 40, 10, 160));
    assert_eq!(hit.split, split);
}

#[test]
fn vertical_split_line_and_hit() {
    let mut win = TermWindow::new(base_ctx());
    let mut sink = QuadSink::new(64);
    let split = PositionedSplit { left: 3, top: 5, size: 12, direction: SplitDirection::Vertical };
    win.paint_split(&mut sink, &split, &palette()).unwrap();
    assert_eq!(sink.layer2.len(), 1);
    expect_quad(&sink, 0, 50, 220, 260, 4, SPLIT_COLOR);
    assert_eq!(win.ui_items.len(), 1);
    let hit = &win.ui_items[0];
    assert_eq!((hit.x, hit.y, hit.width, hit.height), (30, 100, 120, 20));
    assert_eq!(hit.split, split);
}

#[test]
fn top_tab_bar_shifts_and_clamps() {
    let mut ctx = base_ctx();
    ctx.tab_bar = TabBar { visible: true, at_bottom: false, height: Some(28) };
    let mut win = TermWindow::new(ctx);
    let mut sink = QuadSink::new(64);
    // The interior pane shifts down by the tab bar height: +28 px = +56.
    let pane = PositionedPane { left: 5, top: 3, width: 40, height: 10 };
    win.paint_active_pane_border(&mut sink, &pane, &palette()).unwrap();
    expect_quad(&sink, 0, 90, 156, 820, 4, ACTIVE_COLOR);
    expect_quad(&sink, 1, 90, 596, 820, 4, ACTIVE_COLOR);
    expect_quad(&sink, 2, 90, 156, 4, 444, ACTIVE_COLOR);
    expect_quad(&sink, 3, 910, 156, 4, 444, ACTIVE_COLOR);

    // A pane on the first row still clamps, now to the tab bar's bottom
    // edge: min y = 28 px = 56.
    let mut win2 = TermWindow::new(ctx);
    let mut sink2 = QuadSink::new(64);
    let top_pane = PositionedPane { left: 0, top: 0, width: 80, height: 24 };
    win2.paint_active_pane_border(&mut sink2, &top_pane, &palette()).unwrap();
    assert_eq!(sink2.layer2[0].y, 56);
    assert_eq!(sink2.layer2[2].y, 56);
    assert_eq!(sink2.layer2[3].y, 56);
}

#[test]
fn overlapping_passes_stay_disjoint() {
    // Paint the horizontal split, then the full-screen active border: the
    // border's top rectangle lies entirely above the split's line.
    let mut win = TermWindow::new(base_ctx());
    let mut sink = QuadSink::new(64);
    let split = PositionedSplit { left: 10, top: 2, size: 8, direction: SplitDirection::Horizontal };
    win.paint_split(&mut sink, &split, &palette()).unwrap();
    let pane = PositionedPane { left: 0, top: 0, width: 80, height: 24 };
    win.paint_active_pane_border(&mut sink, &pane, &palette()).unwrap();
    assert_eq!(sink.layer2.len(), 5);
    let line = sink.layer2[0];
    let top_border = sink.layer2[1];
    assert!(top_border.y + top_border.height <= line.y);

    // Paint the vertical split, then the same border: the border's left
    // rectangle lies entirely to the left of the split's line.
    let mut win2 = TermWindow::new(base_ctx());
    let mut sink2 = QuadSink::new(64);
    let vsplit = PositionedSplit { left: 3, top: 5, size: 12, direction: SplitDirection::Vertical };
    win2.paint_split(&mut sink2, &vsplit, &palette()).unwrap();
    win2.paint_active_pane_border(&mut sink2, &pane, &palette()).unwrap();
    let vline = sink2.layer2[0];
    let left_border = sink2.layer2[3];
    assert!(left_border.x + left_border.width <= vline.x);
}
