//! The decision logic of a 2D plot widget: which items a plot keeps and in which
//! order it draws them, which items receive an automatic colour, how linked plots
//! share their axes, and how a frame decides between automatic and user-chosen
//! bounds. Geometry and painting stay with the caller, which hands this library
//! the plain values that the logic reads.

pub mod color;
pub mod items;
pub mod plot_ui;
pub mod link;
pub mod names;
pub mod frame;
pub mod plot;
