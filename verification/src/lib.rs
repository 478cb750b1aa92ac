//! Volume Scroller: turn the mouse wheel over the taskbar into volume steps.
//!
//! The verified part of the application: how wheel deltas become volume
//! steps, how the overlay is placed on a monitor, how stored preferences are
//! brought back to the values the application understands, and the small
//! decisions that the event loop and the tray take.

pub mod actions;
pub mod arith;
pub mod geometry;
pub mod overlay;
pub mod payload;
pub mod preferences;
pub mod text;
pub mod wheel;
