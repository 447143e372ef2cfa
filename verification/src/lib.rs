//! A hex/memory-inspector widget core: a scrollable grid of byte values over
//! an arbitrary backing memory source, with click-to-select, in-place hex
//! editing, jump-to-address navigation, an options panel and a live numeric
//! preview of the selected value.
//!
//! The crate holds the widget's state machine, geometry and rendering logic.
//! All pixel geometry is carried in integer subpixel units (64 subunits per
//! pixel) so that the layout and hit-testing arithmetic is exact; a host
//! shell converts between its own floating-point coordinates and these units
//! and executes the produced draw commands.

pub mod buffer;
pub mod context;
pub mod geometry;
pub mod memory_editor;
pub mod options;
pub mod render;
pub mod state;
pub mod text;
