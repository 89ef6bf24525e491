//! Laws of the host, each proved from the public contracts and spec
//! functions of the other modules.

use vstd::prelude::*;

use crate::editor::{
    spec_step_interaction, ActiveEditorInteraction, Editor, WindowDescriptor, WindowRecord,
};
use crate::geom::{Pos, Rect};
use crate::internal::{
    closed_windows_below, lemma_closed_windows_from_entries, lemma_closed_windows_none,
    lemma_remove_closed_none, remove_closed, swap_remove_at, update_rects, window_keys_of,
    EditorInternalState, FloatingResult, FloatingWindow,
};

verus! {

/// Law: registering a plugin makes its key registered, so a second
/// registration of the same key must report `AlreadyRegistered` by
/// `add_window`'s contract.
pub proof fn lemma_registered_after_add<S>(pre: Editor<S>, post: Editor<S>, rec: WindowRecord)
    requires
        post.windows@ == pre.windows@.push(rec),
    ensures
        post.spec_registered(rec.key),
{
    assert(post.windows@[pre.windows@.len() as int].key == rec.key);
}

/// Law: a freshly registered plugin's state blob is exactly the default
/// value supplied at registration.
pub proof fn lemma_register_then_state<S>(
    pre: Editor<S>,
    post: Editor<S>,
    desc: WindowDescriptor<S>,
)
    requires
        post.window_states@ == pre.window_states@.insert(desc.key, desc.initial_state),
    ensures
        post.spec_window_state(desc.key) == Some(desc.initial_state),
{
}

/// Law: on two distinct registry indices the menu-bar ordering places
/// exactly one before the other, so a draw order that ascends in it is
/// uniquely determined: lower declared order value first, registration
/// order breaking ties.
pub proof fn lemma_menu_order_total<S>(e: Editor<S>, a: int, b: int)
    requires
        0 <= a < e.windows@.len(),
        0 <= b < e.windows@.len(),
        a != b,
    ensures
        e.menu_order_lt(a, b) <==> !e.menu_order_lt(b, a),
{
}

/// Law: in a well-formed layout store the id the counter would hand out
/// next differs from every id already carried by a live floating window;
/// together with the counter growing by one at each draw, issued ids are
/// strictly increasing and never reused within a session.
pub proof fn lemma_next_id_fresh(s: EditorInternalState)
    requires
        s.wf(),
    ensures
        forall|i: int|
            0 <= i < s.floating_windows@.len() ==> (#[trigger] s.floating_windows@[i].id)
                != s.next_floating_window_id,
{
}

/// Law: of two floating-window ids drawn in succession, the second is
/// strictly larger than the first.
pub proof fn lemma_ids_strictly_increase(
    a: EditorInternalState,
    b: EditorInternalState,
    id1: u32,
    id2: u32,
)
    requires
        id1 == a.next_floating_window_id,
        b.next_floating_window_id == a.next_floating_window_id + 1,
        id2 == b.next_floating_window_id,
    ensures
        id2 > id1,
{
}

/// Law: the interaction owner resets on release; a fresh press while the
/// editor chrome uses the pointer hands the gesture to the editor, else to
/// the viewport; and while the press is held the owner never changes, so
/// dragging across the viewport border cannot flip ownership mid-drag.
pub proof fn lemma_interaction_owner(owner: Option<ActiveEditorInteraction>, pointer_used: bool)
    ensures
        spec_step_interaction(owner, false, pointer_used) is None,
        owner is None ==> spec_step_interaction(owner, true, true) == Some(
            ActiveEditorInteraction::Editor,
        ),
        owner is None ==> spec_step_interaction(owner, true, false) == Some(
            ActiveEditorInteraction::Viewport,
        ),
        owner is Some ==> spec_step_interaction(owner, true, pointer_used) == owner,
{
}

/// Law: popping out a plugin that has no floating window, then closing the
/// resulting window during the next floating pass, leaves the plugin with
/// no floating window and reports it closed for exactly that frame; any
/// later pass clears the report again.
///
/// `s1` is `s0` after `pop_out`, `s2` is `s1` after a pass that closed
/// exactly the popped-out window, and `s3` is `s2` after one further pass;
/// each step is stated as the corresponding method's contract.
pub proof fn lemma_pop_out_close_round_trip(
    s0: EditorInternalState,
    s1: EditorInternalState,
    s2: EditorInternalState,
    s3: EditorInternalState,
    w: u64,
    results1: Seq<FloatingResult>,
    results2: Seq<FloatingResult>,
)
    requires
        !s0.spec_has_floating(w),
        s1.floating_windows@ == s0.floating_windows@.push(
            FloatingWindow {
                window: w,
                id: s0.next_floating_window_id,
                initial_position: None,
                current_rect: Rect { min: Pos { x: 0, y: 0 }, max: Pos { x: 0, y: 0 } },
            },
        ),
        results1.len() == s1.floating_windows@.len(),
        forall|i: int| 0 <= i < results1.len() - 1 ==> !(#[trigger] results1[i]).closed,
        results1[results1.len() - 1].closed,
        s2.floating_windows@ == remove_closed(
            update_rects(s1.floating_windows@, results1),
            results1,
            results1.len() as int,
        ),
        s2.closed_floating_windows@ == closed_windows_below(
            s1.floating_windows@,
            results1,
            results1.len() as int,
        ),
        results2.len() == s2.floating_windows@.len(),
        s3.closed_floating_windows@ == closed_windows_below(
            s2.floating_windows@,
            results2,
            results2.len() as int,
        ),
    ensures
        !s2.spec_has_floating(w),
        s2.spec_closed_this_frame(w),
        !s3.spec_closed_this_frame(w),
{
    let n = s1.floating_windows@.len() as int;
    let u = update_rects(s1.floating_windows@, results1);
    // The pass closed only the last entry, so the removal is one
    // swap-removal of the last slot, which is dropping it.
    assert(remove_closed(u, results1, n) == remove_closed(swap_remove_at(u, n - 1), results1, n
        - 1));
    lemma_remove_closed_none(swap_remove_at(u, n - 1), results1, n - 1);
    assert(s2.floating_windows@ == swap_remove_at(u, n - 1));
    assert(s2.floating_windows@ =~= u.drop_last());
    // No remaining entry shows w.
    assert forall|i: int|
        0 <= i < s2.floating_windows@.len() implies (#[trigger] s2.floating_windows@[i]).window
        != w by {
        assert(s2.floating_windows@[i] == u[i]);
        assert(u[i].window == s0.floating_windows@[i].window);
        if s0.floating_windows@[i].window == w {
            assert(s0.spec_has_floating(w));
        }
    }
    assert(!s2.spec_has_floating(w));
    // The closed set of that pass is exactly [w].
    let c1 = closed_windows_below(s1.floating_windows@, results1, n);
    lemma_closed_windows_none(s1.floating_windows@, results1, n - 1);
    assert(c1 =~= seq![w]);
    assert(s2.spec_closed_this_frame(w)) by {
        assert(s2.closed_floating_windows@[0] == w);
    }
    // A later pass can only report keys of windows still floating in s2.
    lemma_closed_windows_from_entries(s2.floating_windows@, results2, results2.len() as int);
    if s3.spec_closed_this_frame(w) {
        let j = choose|j: int|
            0 <= j < s3.closed_floating_windows@.len() && s3.closed_floating_windows@[j] == w;
        assert(window_keys_of(s2.floating_windows@).contains(
            s3.closed_floating_windows@[j],
        ));
        let i = choose|i: int|
            0 <= i < window_keys_of(s2.floating_windows@).len() && window_keys_of(
                s2.floating_windows@,
            )[i] == w;
        assert(s2.floating_windows@[i].window == w);
        assert(false);
    }
}

} // verus!
