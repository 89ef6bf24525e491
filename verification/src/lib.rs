//! Docking/panel host core for an in-process editor overlay.
//!
//! The crate owns a registry of editor window plugins, a docking/floating
//! layout store, a pointer-state tracker, and the per-frame orchestration
//! state of the editor host. All rendering is left to the caller; the
//! functions here take the values a UI pass produced and compute the next
//! host state.

pub mod dock;
pub mod editor;
pub mod geom;
pub mod imap;
pub mod inputs;
pub mod internal;
pub mod laws;

pub use geom::{Pos, Rect};
