//! Pointer state tracked by the editor host.
//!
//! The tracker is recomputed every frame from the raw input the UI layer
//! hands in; it is never corrected mid-frame.

use vstd::prelude::*;

use crate::geom::Pos;

verus! {

/// Current state of the pointer used inside the editor window.
#[derive(Clone, Copy, Debug)]
pub struct EditorPointerState {
    /// Whether the primary pointer button is currently held.
    pub press_active: bool,
    /// Whether the press that started the current hold began over the
    /// viewport and not over a floating window.
    pub press_start_in_viewport: bool,
    /// Position of the cursor in viewport-local coordinates; absent when
    /// the pointer is outside the viewport or over a floating window.
    pub viewport_pointer_pos: Option<Pos>,
}

impl Default for EditorPointerState {
    fn default() -> (s: Self)
        ensures
            !s.press_active,
            !s.press_start_in_viewport,
            s.viewport_pointer_pos is None,
    {
        EditorPointerState {
            press_active: false,
            press_start_in_viewport: false,
            viewport_pointer_pos: None,
        }
    }
}

impl EditorPointerState {
    /// Whether the pointer is currently inside the viewport (excluding
    /// floating-window interaction).
    pub fn is_pointer_in_viewport(&self) -> (r: bool)
        ensures
            r == (self.viewport_pointer_pos is Some),
    {
        self.viewport_pointer_pos.is_some()
    }
}

} // verus!
