//! A focus-observing decorator for a retained-mode widget tree.
//!
//! The decorator wraps one child widget, forwards the whole widget protocol
//! (sizing, layout, events, drawing, tree operations) unchanged, and watches
//! the child's focus boolean across event dispatches: on every observed flip
//! it publishes exactly one notification built by a mapping supplied at
//! construction time.

pub mod geometry;
pub mod laws;
pub mod protocol;
pub mod state;
pub mod widget;
