//! Pane border and split-separator geometry for a tiling terminal window.
//!
//! Given the cell-grid layout of panes, this crate computes the filled
//! rectangles that outline the active pane and the separator lines between
//! adjacent panes, appends them to a layered per-frame quad sink, and records
//! a pointer hit region for every separator.
//!
//! Borders are anchored on half-cell offsets so they fall in the gutter
//! between cells. To keep that arithmetic exact, every emitted rectangle
//! coordinate is expressed in *half-pixel units*: twice the pixel value.
//! A consumer divides by two (producing `x.5` pixel positions where cell
//! sizes are odd) when it hands the quads to a GPU pipeline.

pub mod error;
pub mod geometry;
pub mod laws;
pub mod layout;
pub mod paint;
pub mod sink;
