use editor_host::dock::{DockNode, SplitDirection, TreeTab};
use editor_host::editor::{
    ActiveEditorInteraction, Editor, EditorError, EditorEvent, FrameInput, WindowDescriptor,
};
use editor_host::geom::{Pos, Rect};
use editor_host::internal::{EditorInternalState, FloatingResult};

fn desc(key: u64, name: &str, order: u64, state: u64) -> WindowDescriptor<u64> {
    WindowDescriptor {
        key,
        name: name.to_string(),
        menu_bar_order: order,
        default_width: 400,
        default_height: 300,
        initial_state: state,
    }
}

fn quiet_input() -> FrameInput {
    FrameInput {
        interact_pos: None,
        pointer_pressed: false,
        pointer_held: false,
        press_started: false,
        wants_keyboard_input: false,
        wants_pointer_input: false,
    }
}

#[test]
fn register_then_state_returns_default() {
    let mut editor: Editor<u64> = Editor::new(1, false);
    assert_eq!(editor.add_window(desc(7, "Camera", 0, 42)), Ok(()));
    assert_eq!(editor.window_state(7), Some(&42));
    assert_eq!(editor.window_state(8), None);
}

#[test]
fn register_twice_fails() {
    let mut editor: Editor<u64> = Editor::new(1, false);
    assert_eq!(editor.add_window(desc(7, "Camera", 0, 0)), Ok(()));
    assert_eq!(
        editor.add_window(desc(7, "Camera again", 3, 9)),
        Err(EditorError::AlreadyRegistered)
    );
    // the first registration's state is untouched
    assert_eq!(editor.window_state(7), Some(&0));
}

#[test]
fn window_state_mut_replaces_blob() {
    let mut editor: Editor<u64> = Editor::new(1, false);
    assert_eq!(editor.add_window(desc(7, "Camera", 0, 1)), Ok(()));
    assert!(editor.window_state_mut(7, 99));
    assert_eq!(editor.window_state(7), Some(&99));
    assert!(!editor.window_state_mut(8, 5));
    assert_eq!(editor.window_state(8), None);
}

#[test]
fn window_record_lookup_by_key() {
    let mut editor: Editor<u64> = Editor::new(1, false);
    assert_eq!(editor.add_window(desc(7, "Camera", 2, 0)), Ok(()));
    assert_eq!(editor.add_window(desc(9, "Hierarchy", 1, 0)), Ok(()));
    let rec = editor.window_record(9).expect("registered");
    assert_eq!(rec.name, "Hierarchy");
    assert_eq!(rec.menu_bar_order, 1);
    assert!(editor.window_record(8).is_none());
}

#[test]
fn menu_bar_draws_lower_order_first() {
    // scenario: A registered first with order 10, B second with order 5
    let mut editor: Editor<u64> = Editor::new(1, false);
    assert_eq!(editor.add_window(desc(100, "A", 10, 0)), Ok(()));
    assert_eq!(editor.add_window(desc(200, "B", 5, 0)), Ok(()));
    assert_eq!(editor.menu_bar_draw_order(), vec![1, 0]);
}

#[test]
fn menu_bar_ties_keep_registration_order() {
    let mut editor: Editor<u64> = Editor::new(1, false);
    assert_eq!(editor.add_window(desc(1, "A", 4, 0)), Ok(()));
    assert_eq!(editor.add_window(desc(2, "B", 4, 0)), Ok(()));
    assert_eq!(editor.add_window(desc(3, "C", 1, 0)), Ok(()));
    assert_eq!(editor.add_window(desc(4, "D", 4, 0)), Ok(()));
    assert_eq!(editor.menu_bar_draw_order(), vec![2, 0, 1, 3]);
}

#[test]
fn add_tab_makes_new_tab_active() {
    let mut state = EditorInternalState::default();
    state.push_to_focused_leaf(5);
    assert_eq!(state.state.active_tab_of_focused(), TreeTab::CustomWindow(5));
    state.push_to_focused_leaf(6);
    assert_eq!(state.state.active_tab_of_focused(), TreeTab::CustomWindow(6));
}

#[test]
fn split_returns_both_pane_handles() {
    let mut state = EditorInternalState::default();
    let (a, b) = state.split_right(0, 500, 9);
    assert_eq!((a, b), (1, 2));
    // the focused pane is still the one holding the viewport tab
    assert_eq!(state.state.active_tab_of_focused(), TreeTab::GameView);
    match &state.state.nodes[b] {
        DockNode::Leaf { tabs, active } => {
            assert_eq!(tabs.as_slice(), &[TreeTab::CustomWindow(9)]);
            assert_eq!(*active, 0);
        }
        DockNode::Branch { .. } => panic!("expected a leaf"),
    }
}

#[test]
fn split_many_creates_sibling_tabs() {
    let mut state = EditorInternalState::default();
    let windows = vec![4, 5, 6];
    let (a, b) = state.split_many(0, 300, SplitDirection::Below, &windows);
    assert_eq!((a, b), (1, 2));
    match &state.state.nodes[b] {
        DockNode::Leaf { tabs, active } => {
            assert_eq!(
                tabs.as_slice(),
                &[
                    TreeTab::CustomWindow(4),
                    TreeTab::CustomWindow(5),
                    TreeTab::CustomWindow(6)
                ]
            );
            assert_eq!(*active, 0);
        }
        DockNode::Branch { .. } => panic!("expected a leaf"),
    }
}

#[test]
fn pop_out_close_round_trip() {
    let mut state = EditorInternalState::default();
    state.pop_out(TreeTab::CustomWindow(5));
    assert!(state.has_floating_window(5));
    assert!(!state.closed_floating_window(5));

    // the next floating pass closes the window
    let results = vec![FloatingResult {
        rect: Rect { min: Pos { x: 0, y: 0 }, max: Pos { x: 100, y: 100 } },
        closed: true,
    }];
    state.commit_floating_pass(&results);
    assert!(!state.has_floating_window(5));
    assert!(state.closed_floating_window(5));

    // one frame later the report is gone
    let no_results: Vec<FloatingResult> = Vec::new();
    state.commit_floating_pass(&no_results);
    assert!(!state.closed_floating_window(5));
}

#[test]
fn pop_out_on_viewport_tab_is_a_no_op() {
    let mut state = EditorInternalState::default();
    state.pop_out(TreeTab::GameView);
    assert!(state.floating_windows.is_empty());
    assert_eq!(state.next_floating_window_id, 0);
}

#[test]
fn floating_ids_increase_and_never_repeat() {
    let mut state = EditorInternalState::default();
    state.pop_out(TreeTab::CustomWindow(1));
    state.pop_out(TreeTab::CustomWindow(2));
    assert_eq!(state.floating_windows[0].id, 0);
    assert_eq!(state.floating_windows[1].id, 1);

    // close both windows, then pop out another: the id is still fresh
    let results = vec![
        FloatingResult {
            rect: Rect { min: Pos { x: 0, y: 0 }, max: Pos { x: 1, y: 1 } },
            closed: true,
        },
        FloatingResult {
            rect: Rect { min: Pos { x: 0, y: 0 }, max: Pos { x: 1, y: 1 } },
            closed: true,
        },
    ];
    state.commit_floating_pass(&results);
    assert!(state.floating_windows.is_empty());
    state.pop_out(TreeTab::CustomWindow(1));
    assert_eq!(state.floating_windows[0].id, 2);
}

#[test]
fn pop_out_twice_keeps_floating_and_adds_entry() {
    // scenario: popping out the same plugin twice while the first window is
    // still open keeps has_floating true; a second entry is allowed
    let mut state = EditorInternalState::default();
    state.pop_out(TreeTab::CustomWindow(7));
    state.pop_out(TreeTab::CustomWindow(7));
    assert!(state.has_floating_window(7));
    assert_eq!(state.floating_windows.len(), 2);
    assert_ne!(state.floating_windows[0].id, state.floating_windows[1].id);
}

#[test]
fn commit_updates_rects_with_swap_remove_order() {
    let mut state = EditorInternalState::default();
    state.pop_out(TreeTab::CustomWindow(1));
    state.pop_out(TreeTab::CustomWindow(2));
    state.pop_out(TreeTab::CustomWindow(3));
    let rect = |x: i64| Rect { min: Pos { x, y: 0 }, max: Pos { x: x + 10, y: 10 } };
    let results = vec![
        FloatingResult { rect: rect(0), closed: true },
        FloatingResult { rect: rect(1), closed: false },
        FloatingResult { rect: rect(2), closed: false },
    ];
    state.commit_floating_pass(&results);
    // the first entry was swap-removed: the last moved into its slot
    assert_eq!(state.floating_windows.len(), 2);
    assert_eq!(state.floating_windows[0].window, 3);
    assert_eq!(state.floating_windows[0].current_rect, rect(2));
    assert_eq!(state.floating_windows[1].window, 2);
    assert_eq!(state.floating_windows[1].current_rect, rect(1));
    assert!(state.closed_floating_window(1));
    assert!(!state.closed_floating_window(2));
}

#[test]
fn interaction_owner_state_machine() {
    let mut editor: Editor<u64> = Editor::new(1, false);
    editor.set_active(true);
    let state = EditorInternalState::default();

    // press outside the viewport: the editor chrome owns the gesture
    let press_outside = FrameInput {
        interact_pos: Some(Pos { x: 1000, y: 10 }),
        pointer_pressed: true,
        pointer_held: true,
        press_started: true,
        wants_keyboard_input: false,
        wants_pointer_input: true,
    };
    editor.resolve_frame_active(&press_outside, &state);
    assert_eq!(
        editor.active_editor_interaction,
        Some(ActiveEditorInteraction::Editor)
    );
    assert!(editor.pointer_used());
    assert!(!editor.viewport_interaction_active());

    // dragging into the viewport while held: the owner does not change
    let drag_inside = FrameInput {
        interact_pos: Some(Pos { x: 10, y: 10 }),
        pointer_pressed: false,
        pointer_held: true,
        press_started: true,
        wants_keyboard_input: false,
        wants_pointer_input: true,
    };
    editor.resolve_frame_active(&drag_inside, &state);
    assert_eq!(
        editor.active_editor_interaction,
        Some(ActiveEditorInteraction::Editor)
    );

    // release: the owner resets
    let release = FrameInput {
        interact_pos: Some(Pos { x: 10, y: 10 }),
        pointer_pressed: false,
        pointer_held: false,
        press_started: false,
        wants_keyboard_input: false,
        wants_pointer_input: false,
    };
    editor.resolve_frame_active(&release, &state);
    assert_eq!(editor.active_editor_interaction, None);
}

#[test]
fn fresh_press_inside_viewport_owns_viewport() {
    let mut editor: Editor<u64> = Editor::new(1, false);
    editor.set_active(true);
    let state = EditorInternalState::default();
    let press_inside = FrameInput {
        interact_pos: Some(Pos { x: 10, y: 10 }),
        pointer_pressed: true,
        pointer_held: true,
        press_started: true,
        wants_keyboard_input: false,
        wants_pointer_input: false,
    };
    editor.resolve_frame_active(&press_inside, &state);
    assert_eq!(
        editor.active_editor_interaction,
        Some(ActiveEditorInteraction::Viewport)
    );
    assert!(editor.pointer_state.press_start_in_viewport);
    assert!(editor.viewport_interaction_active());
    assert!(!editor.pointer_used());
}

#[test]
fn pointer_over_floating_window_hides_viewport_pos() {
    let mut editor: Editor<u64> = Editor::new(1, false);
    editor.set_active(true);

    // a floating window whose last-known rectangle covers (10, 10),
    // well inside the viewport rectangle
    let mut state = EditorInternalState::default();
    state.pop_out(TreeTab::CustomWindow(5));
    let results = vec![FloatingResult {
        rect: Rect { min: Pos { x: 0, y: 0 }, max: Pos { x: 50, y: 50 } },
        closed: false,
    }];
    state.commit_floating_pass(&results);

    // the dock pass recorded a pointer position inside the viewport
    editor.update_viewport_pointer_pos(Some(Pos { x: 10, y: 10 }), Pos { x: 0, y: 0 });
    assert!(editor.pointer_state.is_pointer_in_viewport());

    let input = FrameInput {
        interact_pos: Some(Pos { x: 10, y: 10 }),
        pointer_pressed: true,
        pointer_held: true,
        press_started: true,
        wants_keyboard_input: false,
        wants_pointer_input: false,
    };
    editor.resolve_frame_active(&input, &state);
    // overlapping a floating window hides the viewport position and the
    // press does not count as started in the viewport
    assert!(!editor.pointer_state.is_pointer_in_viewport());
    assert!(!editor.pointer_state.press_start_in_viewport);
}

#[test]
fn viewport_pos_survives_without_floating_overlap() {
    let mut editor: Editor<u64> = Editor::new(1, false);
    editor.set_active(true);
    let state = EditorInternalState::default();
    editor.update_viewport_pointer_pos(Some(Pos { x: 100, y: 50 }), Pos { x: 20, y: 5 });
    assert_eq!(
        editor.pointer_state.viewport_pointer_pos,
        Some(Pos { x: 80, y: 45 })
    );
    let input = FrameInput {
        interact_pos: Some(Pos { x: 100, y: 50 }),
        pointer_pressed: false,
        pointer_held: false,
        press_started: false,
        wants_keyboard_input: false,
        wants_pointer_input: false,
    };
    editor.resolve_frame_active(&input, &state);
    assert_eq!(
        editor.pointer_state.viewport_pointer_pos,
        Some(Pos { x: 80, y: 45 })
    );
}

#[test]
fn update_viewport_pointer_pos_clears_without_cursor() {
    let mut editor: Editor<u64> = Editor::new(1, false);
    editor.update_viewport_pointer_pos(Some(Pos { x: 5, y: 5 }), Pos { x: 0, y: 0 });
    assert!(editor.pointer_state.is_pointer_in_viewport());
    editor.update_viewport_pointer_pos(None, Pos { x: 0, y: 0 });
    assert!(!editor.pointer_state.is_pointer_in_viewport());
}

#[test]
fn set_active_ignored_on_always_active_editor() {
    let mut editor: Editor<u64> = Editor::new(3, true);
    assert!(editor.active());
    editor.set_active(false);
    assert!(editor.active());
    let mut plain: Editor<u64> = Editor::new(3, false);
    assert!(!plain.active());
    plain.set_active(true);
    assert!(plain.active());
    plain.set_active(false);
    assert!(!plain.active());
}

#[test]
fn play_pause_toggles_and_emits_event() {
    let mut editor: Editor<u64> = Editor::new(1, false);
    let mut events: Vec<EditorEvent> = Vec::new();
    editor.handle_play_pause(true, &mut events);
    assert!(editor.active());
    assert_eq!(events, vec![EditorEvent::Toggle { now_active: true }]);
    editor.handle_play_pause(true, &mut events);
    assert!(!editor.active());
    assert_eq!(
        events,
        vec![
            EditorEvent::Toggle { now_active: true },
            EditorEvent::Toggle { now_active: false }
        ]
    );
    // a click on an always-active editor is a no-op
    let mut pinned: Editor<u64> = Editor::new(1, true);
    let mut none: Vec<EditorEvent> = Vec::new();
    pinned.handle_play_pause(true, &mut none);
    assert!(pinned.active());
    assert!(none.is_empty());
}

#[test]
fn inactive_frame_only_mirrors_pointer_want() {
    let mut editor: Editor<u64> = Editor::new(1, false);
    let mut input = quiet_input();
    input.wants_pointer_input = true;
    editor.resolve_frame_inactive(&input);
    assert!(editor.pointer_used);
    input.wants_pointer_input = false;
    editor.resolve_frame_inactive(&input);
    assert!(!editor.pointer_used);
}

#[test]
fn rect_contains_is_edge_inclusive() {
    let r = Rect { min: Pos { x: 0, y: 0 }, max: Pos { x: 640, y: 480 } };
    assert!(r.contains(Pos { x: 0, y: 0 }));
    assert!(r.contains(Pos { x: 640, y: 480 }));
    assert!(r.contains(Pos { x: 320, y: 240 }));
    assert!(!r.contains(Pos { x: 641, y: 240 }));
    assert!(!r.contains(Pos { x: -1, y: 240 }));
    let mut editor: Editor<u64> = Editor::new(1, false);
    assert!(editor.is_in_viewport(Pos { x: 640, y: 480 }));
    assert!(!editor.is_in_viewport(Pos { x: 650, y: 480 }));
    assert_eq!(editor.viewport(), r);
    assert_eq!(editor.window(), 1);
    assert!(!editor.always_active());
    let mut input = quiet_input();
    input.wants_keyboard_input = true;
    editor.set_active(true);
    editor.resolve_frame_active(&input, &EditorInternalState::default());
    assert!(editor.listening_for_text());
}
