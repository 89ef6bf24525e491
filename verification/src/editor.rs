//! The editor host: plugin registry, per-plugin state map, and the
//! per-frame orchestration state.
//!
//! The host is generic over `S`, the representation of a plugin's state
//! blob; the embedding application picks one type (typically an enum with
//! one variant per plugin) and hands each plugin's starting value in at
//! registration. Rendering is the caller's business: each frame the caller
//! draws its UI, gathers the raw input snapshot into a [`FrameInput`] and
//! lets the host resolve the next state.

use vstd::prelude::*;

use std::collections::HashMap;
use std::collections::hash_map::RandomState;

use crate::geom::{Pos, Rect};
use crate::imap::{
    key_index_contains, key_index_entries, key_index_get, key_index_insert, key_index_new,
};
use crate::inputs::EditorPointerState;
use crate::internal::EditorInternalState;

verus! {

broadcast use vstd::std_specs::hash::group_hash_axioms;

/// Lifecycle events emitted by the host.
#[non_exhaustive]
#[derive(Clone, Copy, Debug, PartialEq, Eq, Structural)]
pub enum EditorEvent {
    /// The editor was manually activated or deactivated.
    Toggle { now_active: bool },
    /// Reserved signal: external callers may emit it to request selection
    /// focus; nothing in this core produces it.
    FocusSelected,
}

/// Which UI domain owns the in-progress pointer gesture.
#[derive(Clone, Copy, Debug, PartialEq, Eq, Structural)]
pub enum ActiveEditorInteraction {
    Viewport,
    Editor,
}

/// Registration metadata of one window plugin, immutable after
/// registration. The five UI callbacks are kept by the embedding
/// application under the same key.
#[derive(Clone, Debug)]
pub struct WindowRecord {
    /// The plugin's stable identity.
    pub key: u64,
    /// Display name.
    pub name: String,
    /// Rank used to order the per-plugin menu-bar items.
    pub menu_bar_order: u64,
    /// Default open size of a floating window, in pixels.
    pub default_width: u64,
    pub default_height: u64,
}

/// Everything a plugin hands the host at registration.
pub struct WindowDescriptor<S> {
    pub key: u64,
    pub name: String,
    pub menu_bar_order: u64,
    pub default_width: u64,
    pub default_height: u64,
    /// The default-constructed state blob the plugin starts with.
    pub initial_state: S,
}

/// The registry refuses to register the same plugin identity twice.
#[derive(Clone, Copy, Debug, PartialEq, Eq, Structural)]
pub enum EditorError {
    AlreadyRegistered,
}

/// The raw input snapshot one frame hands to the host.
#[derive(Clone, Copy, Debug)]
pub struct FrameInput {
    /// The last pointer interaction position, if any.
    pub interact_pos: Option<Pos>,
    /// Whether the primary button went down this frame.
    pub pointer_pressed: bool,
    /// Whether the primary button is currently down.
    pub pointer_held: bool,
    /// Whether a press start time exists (a press is in progress).
    pub press_started: bool,
    /// Whether the UI framework wants keyboard input.
    pub wants_keyboard_input: bool,
    /// Whether the UI framework wants pointer input.
    pub wants_pointer_input: bool,
}

/// The interaction-owner state machine. On release the owner always resets;
/// a fresh press picks the owner from where the pointer is; while the press
/// is held the owner never changes.
pub open spec fn spec_step_interaction(
    owner: Option<ActiveEditorInteraction>,
    pressed: bool,
    pointer_used: bool,
) -> Option<ActiveEditorInteraction> {
    if !pressed {
        None
    } else if owner is None {
        if pointer_used {
            Some(ActiveEditorInteraction::Editor)
        } else {
            Some(ActiveEditorInteraction::Viewport)
        }
    } else {
        owner
    }
}

/// Whether the pointer position overlaps any floating window's last-known
/// rectangle.
pub open spec fn spec_over_floating(s: EditorInternalState, interact_pos: Option<Pos>) -> bool {
    match interact_pos {
        Some(p) => exists|i: int|
            0 <= i < s.floating_windows@.len() && (
            #[trigger] s.floating_windows@[i]).current_rect.spec_contains(p),
        None => false,
    }
}

/// The editor host.
#[verifier::reject_recursive_types(S)]
pub struct Editor<S> {
    /// Handle of the window the editor is drawn on.
    pub on_window: u64,
    /// If set, the editor can never be deactivated.
    pub always_active: bool,
    pub active: bool,
    pub pointer_used: bool,
    pub active_editor_interaction: Option<ActiveEditorInteraction>,
    pub listening_for_text: bool,
    /// The authoritative viewport rectangle, recorded during the dock pass.
    pub viewport: Rect,
    /// Registered plugins, in registration order.
    pub windows: Vec<WindowRecord>,
    /// Plugin key to index into `windows`.
    pub window_index: crate::imap::KeyIndexMap,
    /// One state blob per registered plugin.
    pub window_states: HashMap<u64, S>,
    pub pointer_state: EditorPointerState,
}

impl<S> Editor<S> {
    /// Whether a plugin with key `k` is registered.
    pub open spec fn spec_registered(self, k: u64) -> bool {
        exists|i: int| 0 <= i < self.windows@.len() && (#[trigger] self.windows@[i]).key == k
    }

    /// The state blob stored for key `k`.
    pub open spec fn spec_window_state(self, k: u64) -> Option<S> {
        if self.window_states@.contains_key(k) {
            Some(self.window_states@[k])
        } else {
            None
        }
    }

    /// Well-formedness of the registry: the lookup map sends each record's
    /// key to its index, maps only registered keys, and the state map holds
    /// exactly the registered keys.
    pub open spec fn wf(self) -> bool {
        &&& forall|i: int|
            0 <= i < self.windows@.len() ==> key_index_entries(self.window_index).contains_pair(
                (#[trigger] self.windows@[i]).key,
                i as usize,
            )
        &&& forall|k: u64|
            #[trigger] key_index_entries(self.window_index).dom().contains(k)
                ==> self.spec_registered(k)
        &&& forall|k: u64| #[trigger]
            self.window_states@.contains_key(k) <==> self.spec_registered(k)
    }

    /// Menu-bar ordering: record `a` is drawn before record `b` when its
    /// declared order value is smaller, ties broken by registration order.
    pub open spec fn menu_order_lt(self, a: int, b: int) -> bool {
        ||| self.windows@[a].menu_bar_order < self.windows@[b].menu_bar_order
        ||| (self.windows@[a].menu_bar_order == self.windows@[b].menu_bar_order && a < b)
    }

    /// A fresh host bound to `on_window`; it starts active exactly when it
    /// is always active.
    pub fn new(on_window: u64, always_active: bool) -> (e: Editor<S>)
        ensures
            e.wf(),
            e.on_window == on_window,
            e.always_active == always_active,
            e.active == always_active,
            !e.pointer_used,
            e.active_editor_interaction is None,
            !e.listening_for_text,
            e.viewport == (Rect { min: Pos { x: 0, y: 0 }, max: Pos { x: 640, y: 480 } }),
            e.windows@.len() == 0,
            e.window_states@ == Map::<u64, S>::empty(),
            !e.pointer_state.press_active,
            !e.pointer_state.press_start_in_viewport,
            e.pointer_state.viewport_pointer_pos is None,
    {
        Editor {
            on_window,
            always_active,
            active: always_active,
            pointer_used: false,
            active_editor_interaction: None,
            listening_for_text: false,
            viewport: Rect { min: Pos { x: 0, y: 0 }, max: Pos { x: 640, y: 480 } },
            windows: Vec::new(),
            window_index: key_index_new(),
            window_states: HashMap::new(),
            pointer_state: EditorPointerState {
                press_active: false,
                press_start_in_viewport: false,
                viewport_pointer_pos: None,
            },
        }
    }

    /// The window the editor is drawn on.
    pub fn window(&self) -> (r: u64)
        ensures
            r == self.on_window,
    {
        self.on_window
    }

    pub fn always_active(&self) -> (r: bool)
        ensures
            r == self.always_active,
    {
        self.always_active
    }

    pub fn active(&self) -> (r: bool)
        ensures
            r == self.active,
    {
        self.active
    }

    /// Activates or deactivates the editor. Deactivating an always-active
    /// editor is a non-fatal misuse: the state is left unchanged and the
    /// caller may log a warning.
    pub fn set_active(&mut self, active: bool)
        ensures
            final(self).active == if !active && old(self).always_active {
                old(self).active
            } else {
                active
            },
            *final(self) == (Editor { active: final(self).active, ..*old(self) }),
    {
        if !active && self.always_active {
            // misuse: the editor is always active; leave the state unchanged
        } else {
            self.active = active;
        }
    }

    pub fn viewport(&self) -> (r: Rect)
        ensures
            r == self.viewport,
    {
        self.viewport
    }

    pub fn is_in_viewport(&self, pos: Pos) -> (r: bool)
        ensures
            r == self.viewport.spec_contains(pos),
    {
        self.viewport.contains(pos)
    }

    /// Whether the editor chrome currently uses the pointer: either the UI
    /// claimed it this frame, or an editor-owned gesture is in progress.
    pub fn pointer_used(&self) -> (r: bool)
        ensures
            r == (self.pointer_used || self.active_editor_interaction == Some(
                ActiveEditorInteraction::Editor,
            )),
    {
        self.pointer_used || matches!(
            self.active_editor_interaction,
            Some(ActiveEditorInteraction::Editor),
        )
    }

    pub fn listening_for_text(&self) -> (r: bool)
        ensures
            r == self.listening_for_text,
    {
        self.listening_for_text
    }

    /// Whether viewport interaction is possible: the pointer is free, or a
    /// viewport-owned gesture is in progress.
    pub fn viewport_interaction_active(&self) -> (r: bool)
        ensures
            r == (!self.pointer_used || self.active_editor_interaction == Some(
                ActiveEditorInteraction::Viewport,
            )),
    {
        !self.pointer_used || matches!(
            self.active_editor_interaction,
            Some(ActiveEditorInteraction::Viewport),
        )
    }

    /// Records the pointer position in viewport-local coordinates, from the
    /// latest cursor position and the viewport content origin; clears it
    /// when no cursor position is available.
    pub fn update_viewport_pointer_pos(&mut self, cursor_pos: Option<Pos>, content_origin: Pos)
        requires
            cursor_pos matches Some(c) ==> {
                &&& i64::MIN <= c.x - content_origin.x <= i64::MAX
                &&& i64::MIN <= c.y - content_origin.y <= i64::MAX
            },
        ensures
            *final(self) == (Editor { pointer_state: final(self).pointer_state, ..*old(self) }),
            final(self).pointer_state == (EditorPointerState {
                viewport_pointer_pos: match cursor_pos {
                    Some(c) => Some(
                        Pos { x: (c.x - content_origin.x) as i64, y: (c.y - content_origin.y) as i64 },
                    ),
                    None => None,
                },
                ..old(self).pointer_state
            }),
    {
        match cursor_pos {
            None => {
                self.pointer_state.viewport_pointer_pos = None;
            },
            Some(c) => {
                let local = Pos { x: c.x - content_origin.x, y: c.y - content_origin.y };
                self.pointer_state.viewport_pointer_pos = Some(local);
            },
        }
    }

    /// Registers a window plugin: stores its metadata last in registration
    /// order and default-constructs its state blob from the descriptor.
    /// Registering the same key twice is a fatal configuration error,
    /// reported as `AlreadyRegistered` with the host unchanged.
    pub fn add_window(&mut self, desc: WindowDescriptor<S>) -> (r: Result<(), EditorError>)
        requires
            old(self).wf(),
            old(self).windows@.len() < usize::MAX,
        ensures
            final(self).wf(),
            *final(self) == (Editor {
                windows: final(self).windows,
                window_index: final(self).window_index,
                window_states: final(self).window_states,
                ..*old(self)
            }),
            match r {
                Ok(()) => {
                    &&& !old(self).spec_registered(desc.key)
                    &&& final(self).windows@ =~= old(self).windows@.push(
                        WindowRecord {
                            key: desc.key,
                            name: desc.name,
                            menu_bar_order: desc.menu_bar_order,
                            default_width: desc.default_width,
                            default_height: desc.default_height,
                        },
                    )
                    &&& final(self).window_states@ == old(self).window_states@.insert(
                        desc.key,
                        desc.initial_state,
                    )
                    &&& final(self).spec_registered(desc.key)
                    &&& final(self).spec_window_state(desc.key) == Some(desc.initial_state)
                },
                Err(e) => {
                    &&& e == EditorError::AlreadyRegistered
                    &&& old(self).spec_registered(desc.key)
                    &&& *final(self) == *old(self)
                },
            },
    {
        let WindowDescriptor { key, name, menu_bar_order, default_width, default_height, initial_state } =
            desc;
        if key_index_contains(&self.window_index, key) {
            return Err(EditorError::AlreadyRegistered);
        }
        proof {
            if old(self).spec_registered(key) {
                let i = choose|i: int|
                    0 <= i < old(self).windows@.len() && (#[trigger] old(self).windows@[i]).key
                        == key;
                assert(key_index_entries(old(self).window_index).contains_pair(key, i as usize));
            }
        }
        let idx = self.windows.len();
        let _ = key_index_insert(&mut self.window_index, key, idx);
        self.windows.push(
            WindowRecord { key, name, menu_bar_order, default_width, default_height },
        );
        let _ = self.window_states.insert(key, initial_state);
        proof {
            let pre = *old(self);
            let post = *self;
            assert forall|i: int|
                0 <= i < post.windows@.len() implies key_index_entries(
                post.window_index,
            ).contains_pair((#[trigger] post.windows@[i]).key, i as usize) by {
                if i < pre.windows@.len() {
                    assert(key_index_entries(pre.window_index).contains_pair(
                        pre.windows@[i].key,
                        i as usize,
                    ));
                    assert(pre.windows@[i].key != key);
                }
            }
            assert forall|k: u64|
                #[trigger] key_index_entries(post.window_index).dom().contains(
                k,
            ) implies post.spec_registered(k) by {
                if k == key {
                    assert(post.windows@[pre.windows@.len() as int].key == k);
                } else {
                    assert(key_index_entries(pre.window_index).dom().contains(k));
                    let i = choose|i: int|
                        0 <= i < pre.windows@.len() && (#[trigger] pre.windows@[i]).key == k;
                    assert(post.windows@[i].key == k);
                }
            }
            assert forall|k: u64| #[trigger]
                post.window_states@.contains_key(k) <==> post.spec_registered(k) by {
                if k == key {
                    assert(post.windows@[pre.windows@.len() as int].key == k);
                    assert(post.window_states@.contains_key(k));
                } else {
                    if post.window_states@.contains_key(k) {
                        assert(pre.window_states@.contains_key(k));
                        let i = choose|i: int|
                            0 <= i < pre.windows@.len() && (#[trigger] pre.windows@[i]).key == k;
                        assert(post.windows@[i].key == k);
                    }
                    if post.spec_registered(k) {
                        let i = choose|i: int|
                            0 <= i < post.windows@.len() && (#[trigger] post.windows@[i]).key == k;
                        assert(0 <= i < pre.windows@.len());
                        assert(pre.windows@[i].key == k);
                        assert(pre.window_states@.contains_key(k));
                    }
                }
            }
            assert(post.windows@[pre.windows@.len() as int].key == key);
        }
        Ok(())
    }

    /// The registration record stored under `key`.
    pub fn window_record(&self, key: u64) -> (r: Option<&WindowRecord>)
        requires
            self.wf(),
        ensures
            match r {
                Some(rec) => {
                    &&& self.spec_registered(key)
                    &&& exists|i: int|
                        0 <= i < self.windows@.len() && *rec == self.windows@[i] && (
                        #[trigger] self.windows@[i]).key == key
                },
                None => !self.spec_registered(key),
            },
    {
        proof {
            if self.spec_registered(key) {
                let i = choose|i: int|
                    0 <= i < self.windows@.len() && (#[trigger] self.windows@[i]).key == key;
                assert(key_index_entries(self.window_index).contains_pair(key, i as usize));
            }
        }
        let n = self.windows.len();
        match key_index_get(&self.window_index, key) {
            Some(idx) => {
                proof {
                    assert(n == self.windows@.len());
                    assert(key_index_entries(self.window_index).dom().contains(key));
                    assert(self.spec_registered(key));
                    let i = choose|i: int|
                        0 <= i < self.windows@.len() && (#[trigger] self.windows@[i]).key == key;
                    assert(key_index_entries(self.window_index).contains_pair(key, i as usize));
                    assert(0 <= i < self.windows@.len());
                    assert(idx == i as usize);
                    assert(idx as int == i);
                    assert(self.windows@[idx as int].key == key);
                }
                Some(&self.windows[idx])
            },
            None => None,
        }
    }

    /// The state blob registered for `key`, if the plugin is registered.
    pub fn window_state(&self, key: u64) -> (r: Option<&S>)
        requires
            self.wf(),
        ensures
            match r {
                Some(s) => self.spec_window_state(key) == Some(*s) && self.spec_registered(key),
                None => !self.spec_registered(key) && self.spec_window_state(key) is None,
            },
    {
        match self.window_states.get(&key) {
            Some(s) => Some(s),
            None => None,
        }
    }

    /// Replaces the state blob registered for `key`; returns whether the
    /// plugin was registered. (State is mutated by replacement: the
    /// verifier does not pass mutable references out of a method.)
    pub fn window_state_mut(&mut self, key: u64, state: S) -> (r: bool)
        requires
            old(self).wf(),
        ensures
            final(self).wf(),
            r == old(self).spec_registered(key),
            *final(self) == (Editor { window_states: final(self).window_states, ..*old(self) }),
            r ==> final(self).window_states@ == old(self).window_states@.insert(key, state),
            !r ==> *final(self) == *old(self),
    {
        proof {
            if old(self).spec_registered(key) {
                let i = choose|i: int|
                    0 <= i < old(self).windows@.len() && (#[trigger] old(self).windows@[i]).key
                        == key;
                assert(key_index_entries(old(self).window_index).contains_pair(key, i as usize));
            }
        }
        if key_index_contains(&self.window_index, key) {
            proof {
                assert(old(self).spec_registered(key));
            }
            let _ = self.window_states.insert(key, state);
            proof {
                assert(self.windows@ == old(self).windows@);
                assert forall|k: u64| #[trigger]
                    self.window_states@.contains_key(k) <==> self.spec_registered(k) by {
                    assert(old(self).window_states@.contains_key(k) <==> old(
                        self,
                    ).spec_registered(k));
                    if k == key {
                        assert(self.window_states@.contains_key(k));
                    }
                }
            }
            true
        } else {
            false
        }
    }

    /// Compares two registry indices by menu-bar rank, registration order
    /// breaking ties.
    fn menu_order_before(&self, a: usize, b: usize) -> (r: bool)
        requires
            a < self.windows@.len(),
            b < self.windows@.len(),
        ensures
            r == self.menu_order_lt(a as int, b as int),
    {
        let oa = self.windows[a].menu_bar_order;
        let ob = self.windows[b].menu_bar_order;
        oa < ob || (oa == ob && a < b)
    }

    /// The order in which the per-plugin menu-bar items are drawn: the
    /// registry indices sorted ascending by declared order value, ties
    /// preserving registration order. The result is the unique sequence of
    /// distinct in-range indices that is strictly increasing in that
    /// ordering.
    pub fn menu_bar_draw_order(&self) -> (r: Vec<usize>)
        ensures
            r@.len() == self.windows@.len(),
            forall|j: int| 0 <= j < r@.len() ==> (#[trigger] r@[j]) < self.windows@.len(),
            forall|v: usize| v < self.windows@.len() ==> #[trigger] r@.contains(v),
            forall|a: int, b: int|
                0 <= a < b < r@.len() ==> self.menu_order_lt(r@[a] as int, r@[b] as int),
    {
        let n = self.windows.len();
        let mut r: Vec<usize> = Vec::new();
        let mut i: usize = 0;
        while i < n
            invariant
                i <= n,
                n == self.windows@.len(),
                r@.len() == i,
                forall|j: int| 0 <= j < i ==> (#[trigger] r@[j]) < i,
                forall|v: usize| v < i ==> #[trigger] r@.contains(v),
                forall|a: int, b: int|
                    0 <= a < b < i ==> self.menu_order_lt(r@[a] as int, r@[b] as int),
            decreases n - i,
        {
            let mut j: usize = r.len();
            while j > 0 && self.menu_order_before(i, r[j - 1])
                invariant
                    j <= r@.len(),
                    r@.len() == i,
                    i < n,
                    n == self.windows@.len(),
                    forall|jj: int| 0 <= jj < i ==> (#[trigger] r@[jj]) < i,
                    forall|a: int, b: int|
                        0 <= a < b < i ==> self.menu_order_lt(r@[a] as int, r@[b] as int),
                    forall|kk: int| j <= kk < i ==> self.menu_order_lt(i as int, r@[kk] as int),
                decreases j,
            {
                j = j - 1;
            }
            let ghost old_r = r@;
            r.insert(j, i);
            proof {
                old_r.insert_ensures(j as int, i);
                assert forall|a: int, b: int|
                    0 <= a < b < r@.len() implies self.menu_order_lt(r@[a] as int, r@[b] as int) by {
                    if b < j {
                        assert(r@[a] == old_r[a] && r@[b] == old_r[b]);
                    } else if a < j && b == j {
                        assert(r@[a] == old_r[a]);
                        assert(self.menu_order_lt(old_r[j - 1] as int, i as int));
                        if a < j - 1 {
                            assert(self.menu_order_lt(old_r[a] as int, old_r[j - 1] as int));
                        }
                    } else if a < j && b > j {
                        assert(r@[a] == old_r[a] && r@[b] == old_r[b - 1]);
                    } else if a == j {
                        assert(r@[a] == i && r@[b] == old_r[b - 1]);
                        assert(self.menu_order_lt(i as int, old_r[b - 1] as int));
                    } else {
                        assert(r@[a] == old_r[a - 1] && r@[b] == old_r[b - 1]);
                    }
                }
                assert forall|jj: int| 0 <= jj < r@.len() implies (#[trigger] r@[jj]) < i + 1 by {
                    if jj < j {
                        assert(r@[jj] == old_r[jj]);
                    } else if jj > j {
                        assert(r@[jj] == old_r[jj - 1]);
                    }
                }
                assert forall|v: usize| v < i + 1 implies #[trigger] r@.contains(v) by {
                    if v == i {
                        assert(r@[j as int] == i);
                    } else {
                        assert(old_r.contains(v));
                        let k = choose|k: int| 0 <= k < old_r.len() && #[trigger] old_r[k] == v;
                        if k < j {
                            assert(r@[k] == v);
                        } else {
                            assert(r@[k + 1] == v);
                        }
                    }
                }
            }
            i += 1;
        }
        r
    }

    /// The menu-bar play/pause toggle. A click toggles the editor's active
    /// flag and emits a lifecycle event; on an always-active editor the
    /// button is a no-op (the caller may log a warning).
    pub fn handle_play_pause(&mut self, clicked: bool, events: &mut Vec<EditorEvent>)
        requires
            old(events)@.len() < usize::MAX,
        ensures
            *final(self) == (Editor { active: final(self).active, ..*old(self) }),
            if clicked && !old(self).always_active {
                &&& final(self).active == !old(self).active
                &&& final(events)@ =~= old(events)@.push(
                    EditorEvent::Toggle { now_active: final(self).active },
                )
            } else {
                &&& *final(self) == *old(self)
                &&& final(events)@ == old(events)@
            },
    {
        if clicked && !self.always_active {
            self.active = !self.active;
            events.push(EditorEvent::Toggle { now_active: self.active });
        }
    }

    /// The per-frame resolution when the editor is inactive: only floating
    /// windows were drawn, and the pointer-used flag mirrors whether the UI
    /// framework wants pointer input. Dock area, viewport and the
    /// interaction machine are skipped entirely.
    pub fn resolve_frame_inactive(&mut self, input: &FrameInput)
        ensures
            *final(self) == (Editor { pointer_used: input.wants_pointer_input, ..*old(self) }),
    {
        self.pointer_used = input.wants_pointer_input;
    }

    /// Whether the pointer interaction position lies inside the viewport
    /// rectangle.
    pub open spec fn spec_pointer_in_viewport(self, interact_pos: Option<Pos>) -> bool {
        match interact_pos {
            Some(p) => self.viewport.spec_contains(p),
            None => false,
        }
    }

    /// Recomputes the pointer tracker's viewport-related state from this
    /// frame's raw input: a position over a floating window (or outside the
    /// viewport) clears the recorded viewport position, and a fresh press
    /// records whether it started over the viewport proper.
    pub fn setup_input_viewport_state(
        &mut self,
        interact_pos: Option<Pos>,
        pointer_pressed: bool,
        pointer_held: bool,
        internal_state: &EditorInternalState,
    )
        ensures
            *final(self) == (Editor { pointer_state: final(self).pointer_state, ..*old(self) }),
            final(self).pointer_state.press_active == old(self).pointer_state.press_active,
            (!old(self).spec_pointer_in_viewport(interact_pos) || spec_over_floating(
                *internal_state,
                interact_pos,
            )) ==> final(self).pointer_state.viewport_pointer_pos is None,
            (old(self).spec_pointer_in_viewport(interact_pos) && !spec_over_floating(
                *internal_state,
                interact_pos,
            )) ==> final(self).pointer_state.viewport_pointer_pos == old(
                self,
            ).pointer_state.viewport_pointer_pos,
            final(self).pointer_state.press_start_in_viewport == if pointer_pressed {
                old(self).spec_pointer_in_viewport(interact_pos) && !spec_over_floating(
                    *internal_state,
                    interact_pos,
                )
            } else if !pointer_held {
                false
            } else {
                old(self).pointer_state.press_start_in_viewport
            },
    {
        let pointer_in_viewport = match interact_pos {
            Some(p) => self.is_in_viewport(p),
            None => false,
        };

        // Resolve positions on top of floating windows as non-viewport ones.
        let mut pointer_inside_floating_window = false;
        if let Some(position) = interact_pos {
            let windows = &internal_state.floating_windows;
            let mut i: usize = 0;
            while i < windows.len()
                invariant
                    i <= windows@.len(),
                    pointer_inside_floating_window == exists|j: int|
                        0 <= j < i && (#[trigger] windows@[j]).current_rect.spec_contains(position),
                decreases windows@.len() - i,
            {
                if windows[i].current_rect.contains(position) {
                    pointer_inside_floating_window = true;
                }
                i += 1;
            }
        }

        // Discard a previously read position that no longer counts as a
        // viewport position.
        if !pointer_in_viewport || pointer_inside_floating_window {
            self.pointer_state.viewport_pointer_pos = None;
        }

        // A fresh press records where it started.
        if pointer_pressed {
            self.pointer_state.press_start_in_viewport = pointer_in_viewport
                && !pointer_inside_floating_window;
            return ;
        }

        // The button has been released.
        if !pointer_held {
            self.pointer_state.press_start_in_viewport = false;
        }
    }

    /// The per-frame resolution when the editor is active, run after the
    /// dock and floating passes: resolves the pointer-used flag from the
    /// interaction position, recomputes the pointer tracker, records
    /// keyboard focus, and steps the interaction-owner state machine.
    pub fn resolve_frame_active(&mut self, input: &FrameInput, internal_state: &EditorInternalState)
        ensures
            final(self).pointer_used == (match input.interact_pos {
                Some(p) => !old(self).viewport.spec_contains(p),
                None => false,
            }),
            final(self).listening_for_text == input.wants_keyboard_input,
            final(self).pointer_state.press_active == input.pointer_held,
            (!old(self).spec_pointer_in_viewport(input.interact_pos) || spec_over_floating(
                *internal_state,
                input.interact_pos,
            )) ==> final(self).pointer_state.viewport_pointer_pos is None,
            (old(self).spec_pointer_in_viewport(input.interact_pos) && !spec_over_floating(
                *internal_state,
                input.interact_pos,
            )) ==> final(self).pointer_state.viewport_pointer_pos == old(
                self,
            ).pointer_state.viewport_pointer_pos,
            final(self).pointer_state.press_start_in_viewport == if input.pointer_pressed {
                old(self).spec_pointer_in_viewport(input.interact_pos) && !spec_over_floating(
                    *internal_state,
                    input.interact_pos,
                )
            } else if !input.pointer_held {
                false
            } else {
                old(self).pointer_state.press_start_in_viewport
            },
            final(self).active_editor_interaction == spec_step_interaction(
                old(self).active_editor_interaction,
                input.press_started,
                final(self).pointer_used,
            ),
            *final(self) == (Editor {
                pointer_used: final(self).pointer_used,
                listening_for_text: final(self).listening_for_text,
                active_editor_interaction: final(self).active_editor_interaction,
                pointer_state: final(self).pointer_state,
                ..*old(self)
            }),
    {
        let pu = match input.interact_pos {
            Some(p) => !self.is_in_viewport(p),
            None => false,
        };
        self.pointer_used = pu;

        self.pointer_state.press_active = input.pointer_held;
        self.setup_input_viewport_state(
            input.interact_pos,
            input.pointer_pressed,
            input.pointer_held,
            internal_state,
        );

        self.listening_for_text = input.wants_keyboard_input;

        if !input.press_started {
            self.active_editor_interaction = None;
        } else if self.active_editor_interaction.is_none() {
            self.active_editor_interaction = Some(
                if self.pointer_used {
                    ActiveEditorInteraction::Editor
                } else {
                    ActiveEditorInteraction::Viewport
                },
            );
        }
    }
}

} // verus!
