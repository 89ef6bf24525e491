//! The docking/floating layout store.
//!
//! Owns the dock tree, the list of floating (popped-out) windows, the
//! monotone counter from which floating-window ids are drawn, and the set of
//! plugins whose floating window was closed during the most recent redraw.

use vstd::prelude::*;

use crate::dock::{DockTree, SplitDirection, TreeTab};
use crate::geom::{Pos, Rect};

verus! {

/// A popped-out window hosting one plugin's content.
#[derive(Clone, Copy, Debug, PartialEq)]
pub struct FloatingWindow {
    /// Key of the plugin shown in this window.
    pub window: u64,
    /// Locally unique id, never reused within a session.
    pub id: u32,
    /// Where the window should first appear; `None` for default placement.
    pub initial_position: Option<Pos>,
    /// The window's last-observed screen rectangle.
    pub current_rect: Rect,
}

/// What one floating window's UI pass reported back: the rectangle it ended
/// up with, and whether the user closed it.
#[derive(Clone, Copy, Debug, PartialEq)]
pub struct FloatingResult {
    pub rect: Rect,
    pub closed: bool,
}

/// `fw` with its last-observed rectangle replaced.
pub open spec fn with_rect(fw: FloatingWindow, r: Rect) -> FloatingWindow {
    FloatingWindow { current_rect: r, ..fw }
}

/// Every floating entry with the rectangle its UI pass reported.
pub open spec fn update_rects(s: Seq<FloatingWindow>, res: Seq<FloatingResult>) -> Seq<
    FloatingWindow,
> {
    Seq::new(s.len(), |i: int| with_rect(s[i], res[i].rect))
}

/// One swap-removal: the last entry moves into slot `i`.
pub open spec fn swap_remove_at(s: Seq<FloatingWindow>, i: int) -> Seq<FloatingWindow> {
    s.update(i, s.last()).drop_last()
}

/// The floating list after the closed entries at indices below `k` are
/// swap-removed in descending index order.
pub open spec fn remove_closed(s: Seq<FloatingWindow>, res: Seq<FloatingResult>, k: int) -> Seq<
    FloatingWindow,
>
    decreases k,
{
    if k <= 0 {
        s
    } else {
        let s1 = if res[k - 1].closed {
            swap_remove_at(s, k - 1)
        } else {
            s
        };
        remove_closed(s1, res, k - 1)
    }
}

/// The plugin keys of the entries at indices below `k` that were closed,
/// in ascending index order.
pub open spec fn closed_windows_below(s: Seq<FloatingWindow>, res: Seq<FloatingResult>, k: int) -> Seq<
    u64,
>
    decreases k,
{
    if k <= 0 {
        Seq::empty()
    } else {
        let pre = closed_windows_below(s, res, k - 1);
        if res[k - 1].closed {
            pre.push(s[k - 1].window)
        } else {
            pre
        }
    }
}

/// Every entry of `remove_closed(s, res, k)` is an entry of `s`.
pub proof fn lemma_remove_closed_entries(s: Seq<FloatingWindow>, res: Seq<FloatingResult>, k: int)
    requires
        k <= s.len(),
    ensures
        remove_closed(s, res, k).len() <= s.len(),
        forall|j: int|
            0 <= j < remove_closed(s, res, k).len() ==> s.contains(
                #[trigger] remove_closed(s, res, k)[j],
            ),
    decreases k,
{
    if k <= 0 {
        assert forall|j: int| 0 <= j < s.len() implies s.contains(#[trigger] s[j]) by {
            assert(s[j] == s[j]);
        }
    } else {
        let s1 = if res[k - 1].closed {
            swap_remove_at(s, k - 1)
        } else {
            s
        };
        lemma_remove_closed_entries(s1, res, k - 1);
        assert forall|j: int|
            0 <= j < remove_closed(s, res, k).len() implies s.contains(
            #[trigger] remove_closed(s, res, k)[j],
        ) by {
            let x = remove_closed(s, res, k)[j];
            assert(s1.contains(x));
            let i1 = choose|i1: int| 0 <= i1 < s1.len() && #[trigger] s1[i1] == x;
            if res[k - 1].closed {
                if i1 == k - 1 {
                    assert(x == s[s.len() - 1]);
                } else {
                    assert(x == s[i1]);
                }
            } else {
                assert(x == s[i1]);
            }
        }
    }
}

/// If no entry below `k` was closed, the removal pass leaves `s` unchanged.
pub proof fn lemma_remove_closed_none(s: Seq<FloatingWindow>, res: Seq<FloatingResult>, k: int)
    requires
        forall|i: int| 0 <= i < k ==> !res[i].closed,
    ensures
        remove_closed(s, res, k) == s,
    decreases k,
{
    if k > 0 {
        lemma_remove_closed_none(s, res, k - 1);
    }
}

/// If no entry below `k` was closed, no key is reported closed.
pub proof fn lemma_closed_windows_none(s: Seq<FloatingWindow>, res: Seq<FloatingResult>, k: int)
    requires
        forall|i: int| 0 <= i < k ==> !res[i].closed,
    ensures
        closed_windows_below(s, res, k) == Seq::<u64>::empty(),
    decreases k,
{
    if k > 0 {
        lemma_closed_windows_none(s, res, k - 1);
    }
}

/// The plugin keys of the entries of `s`, in order.
pub open spec fn window_keys_of(s: Seq<FloatingWindow>) -> Seq<u64> {
    Seq::new(s.len(), |i: int| s[i].window)
}

/// Every key reported closed is the key of some entry of `s`.
pub proof fn lemma_closed_windows_from_entries(
    s: Seq<FloatingWindow>,
    res: Seq<FloatingResult>,
    k: int,
)
    requires
        k <= s.len(),
    ensures
        forall|j: int|
            0 <= j < closed_windows_below(s, res, k).len() ==> window_keys_of(s).contains(
                #[trigger] closed_windows_below(s, res, k)[j],
            ),
    decreases k,
{
    if k > 0 {
        lemma_closed_windows_from_entries(s, res, k - 1);
        assert forall|j: int|
            0 <= j < closed_windows_below(s, res, k).len() implies window_keys_of(s).contains(
            #[trigger] closed_windows_below(s, res, k)[j],
        ) by {
            let pre = closed_windows_below(s, res, k - 1);
            if j < pre.len() {
                assert(window_keys_of(s).contains(pre[j]));
            } else {
                assert(window_keys_of(s)[k - 1] == s[k - 1].window);
                assert(closed_windows_below(s, res, k)[j] == window_keys_of(s)[k - 1]);
            }
        }
    }
}

/// The layout store: dock tree, floating windows, id counter and the
/// per-frame record of closed floating windows.
#[derive(Clone, Debug)]
pub struct EditorInternalState {
    pub state: DockTree,
    pub floating_windows: Vec<FloatingWindow>,
    pub next_floating_window_id: u32,
    /// Plugin keys of all floating windows closed during the current redraw.
    pub closed_floating_windows: Vec<u64>,
}

impl Default for EditorInternalState {
    fn default() -> (s: Self)
        ensures
            s.wf(),
            s.state.wf(),
            s.state.focused == 0,
            s.state.nodes@.len() == 1,
            s.state.focused_tabs() =~= seq![TreeTab::GameView],
            s.floating_windows@.len() == 0,
            s.next_floating_window_id == 0,
            s.closed_floating_windows@.len() == 0,
    {
        EditorInternalState {
            state: DockTree::new(),
            floating_windows: Vec::new(),
            next_floating_window_id: 0,
            closed_floating_windows: Vec::new(),
        }
    }
}

impl EditorInternalState {
    /// Well-formedness: the dock tree is well formed, and every issued
    /// floating-window id lies below the counter.
    pub open spec fn wf(self) -> bool {
        &&& self.state.wf()
        &&& forall|i: int|
            0 <= i < self.floating_windows@.len()
                ==> #[trigger] self.floating_windows@[i].id < self.next_floating_window_id
    }

    /// Whether a floating window for plugin `w` currently exists.
    pub open spec fn spec_has_floating(self, w: u64) -> bool {
        exists|i: int|
            0 <= i < self.floating_windows@.len() && self.floating_windows@[i].window == w
    }

    /// Whether a floating window for plugin `w` was closed during the most
    /// recent redraw.
    pub open spec fn spec_closed_this_frame(self, w: u64) -> bool {
        self.closed_floating_windows@.contains(w)
    }

    /// Inserts a tab for `window` into the focused pane and makes it active.
    pub fn push_to_focused_leaf(&mut self, window: u64)
        requires
            old(self).wf(),
            old(self).state.focused_tabs().len() < usize::MAX,
        ensures
            final(self).wf(),
            final(self).state.focused == old(self).state.focused,
            final(self).state.focused_tabs() =~= old(self).state.focused_tabs().push(
                TreeTab::CustomWindow(window),
            ),
            final(self).state.focused_active() == old(self).state.focused_tabs().len() as int,
            final(self).state.focused_tabs()[final(self).state.focused_active()]
                == TreeTab::CustomWindow(window),
            final(self).state.nodes@.len() == old(self).state.nodes@.len(),
            forall|i: int|
                0 <= i < final(self).state.nodes@.len() && i != final(self).state.focused
                    ==> final(self).state.nodes@[i] == old(self).state.nodes@[i],
            *final(self) == (EditorInternalState { state: final(self).state, ..*old(self) }),
    {
        self.state.add_tab(window);
    }

    /// Splits pane `parent` along `direction`, placing `window`'s tab in the
    /// new pane; returns the two resulting pane handles.
    pub fn split(
        &mut self,
        parent: usize,
        direction: SplitDirection,
        fraction_permille: u32,
        window: u64,
    ) -> (r: (usize, usize))
        requires
            old(self).wf(),
            parent < old(self).state.nodes@.len(),
            old(self).state.nodes@[parent as int] is Leaf,
            fraction_permille <= 1000,
            old(self).state.nodes@.len() + 2 <= usize::MAX,
        ensures
            final(self).wf(),
            r.0 == old(self).state.nodes@.len(),
            r.1 == old(self).state.nodes@.len() + 1,
            final(self).state.nodes@[r.1 as int] is Leaf,
            crate::dock::node_tabs(final(self).state.nodes@[r.1 as int]) =~= seq![
                TreeTab::CustomWindow(window),
            ],
            crate::dock::split_post(
                old(self).state,
                final(self).state,
                parent,
                direction,
                fraction_permille,
                r,
            ),
            *final(self) == (EditorInternalState { state: final(self).state, ..*old(self) }),
    {
        self.state.split(parent, direction, fraction_permille, window)
    }

    /// `split` towards the right.
    pub fn split_right(&mut self, parent: usize, fraction_permille: u32, window: u64) -> (r: (
        usize,
        usize,
    ))
        requires
            old(self).wf(),
            parent < old(self).state.nodes@.len(),
            old(self).state.nodes@[parent as int] is Leaf,
            fraction_permille <= 1000,
            old(self).state.nodes@.len() + 2 <= usize::MAX,
        ensures
            final(self).wf(),
            r.0 == old(self).state.nodes@.len(),
            r.1 == old(self).state.nodes@.len() + 1,
            final(self).state.nodes@[r.1 as int] is Leaf,
            crate::dock::node_tabs(final(self).state.nodes@[r.1 as int]) =~= seq![
                TreeTab::CustomWindow(window),
            ],
            crate::dock::split_post(
                old(self).state,
                final(self).state,
                parent,
                SplitDirection::Right,
                fraction_permille,
                r,
            ),
            *final(self) == (EditorInternalState { state: final(self).state, ..*old(self) }),
    {
        self.split(parent, SplitDirection::Right, fraction_permille, window)
    }

    /// `split` towards the left.
    pub fn split_left(&mut self, parent: usize, fraction_permille: u32, window: u64) -> (r: (
        usize,
        usize,
    ))
        requires
            old(self).wf(),
            parent < old(self).state.nodes@.len(),
            old(self).state.nodes@[parent as int] is Leaf,
            fraction_permille <= 1000,
            old(self).state.nodes@.len() + 2 <= usize::MAX,
        ensures
            final(self).wf(),
            r.0 == old(self).state.nodes@.len(),
            r.1 == old(self).state.nodes@.len() + 1,
            final(self).state.nodes@[r.1 as int] is Leaf,
            crate::dock::node_tabs(final(self).state.nodes@[r.1 as int]) =~= seq![
                TreeTab::CustomWindow(window),
            ],
            crate::dock::split_post(
                old(self).state,
                final(self).state,
                parent,
                SplitDirection::Left,
                fraction_permille,
                r,
            ),
            *final(self) == (EditorInternalState { state: final(self).state, ..*old(self) }),
    {
        self.split(parent, SplitDirection::Left, fraction_permille, window)
    }

    /// `split` upwards.
    pub fn split_above(&mut self, parent: usize, fraction_permille: u32, window: u64) -> (r: (
        usize,
        usize,
    ))
        requires
            old(self).wf(),
            parent < old(self).state.nodes@.len(),
            old(self).state.nodes@[parent as int] is Leaf,
            fraction_permille <= 1000,
            old(self).state.nodes@.len() + 2 <= usize::MAX,
        ensures
            final(self).wf(),
            r.0 == old(self).state.nodes@.len(),
            r.1 == old(self).state.nodes@.len() + 1,
            final(self).state.nodes@[r.1 as int] is Leaf,
            crate::dock::node_tabs(final(self).state.nodes@[r.1 as int]) =~= seq![
                TreeTab::CustomWindow(window),
            ],
            crate::dock::split_post(
                old(self).state,
                final(self).state,
                parent,
                SplitDirection::Above,
                fraction_permille,
                r,
            ),
            *final(self) == (EditorInternalState { state: final(self).state, ..*old(self) }),
    {
        self.split(parent, SplitDirection::Above, fraction_permille, window)
    }

    /// `split` downwards.
    pub fn split_below(&mut self, parent: usize, fraction_permille: u32, window: u64) -> (r: (
        usize,
        usize,
    ))
        requires
            old(self).wf(),
            parent < old(self).state.nodes@.len(),
            old(self).state.nodes@[parent as int] is Leaf,
            fraction_permille <= 1000,
            old(self).state.nodes@.len() + 2 <= usize::MAX,
        ensures
            final(self).wf(),
            r.0 == old(self).state.nodes@.len(),
            r.1 == old(self).state.nodes@.len() + 1,
            final(self).state.nodes@[r.1 as int] is Leaf,
            crate::dock::node_tabs(final(self).state.nodes@[r.1 as int]) =~= seq![
                TreeTab::CustomWindow(window),
            ],
            crate::dock::split_post(
                old(self).state,
                final(self).state,
                parent,
                SplitDirection::Below,
                fraction_permille,
                r,
            ),
            *final(self) == (EditorInternalState { state: final(self).state, ..*old(self) }),
    {
        self.split(parent, SplitDirection::Below, fraction_permille, window)
    }

    /// Splits pane `parent`, creating one pane that holds a sibling tab for
    /// every key in `windows`.
    pub fn split_many(
        &mut self,
        parent: usize,
        fraction_permille: u32,
        direction: SplitDirection,
        windows: &Vec<u64>,
    ) -> (r: (usize, usize))
        requires
            old(self).wf(),
            parent < old(self).state.nodes@.len(),
            old(self).state.nodes@[parent as int] is Leaf,
            fraction_permille <= 1000,
            old(self).state.nodes@.len() + 2 <= usize::MAX,
            windows@.len() >= 1,
        ensures
            final(self).wf(),
            r.0 == old(self).state.nodes@.len(),
            r.1 == old(self).state.nodes@.len() + 1,
            final(self).state.nodes@[r.1 as int] is Leaf,
            crate::dock::node_tabs(final(self).state.nodes@[r.1 as int]).len() == windows@.len(),
            forall|k: int|
                0 <= k < windows@.len() ==> crate::dock::node_tabs(
                    final(self).state.nodes@[r.1 as int],
                )[k] == TreeTab::CustomWindow(windows@[k]),
            crate::dock::split_post(
                old(self).state,
                final(self).state,
                parent,
                direction,
                fraction_permille,
                r,
            ),
            *final(self) == (EditorInternalState { state: final(self).state, ..*old(self) }),
    {
        self.state.split_many(parent, direction, fraction_permille, windows)
    }

    /// Whether a floating window for plugin `w` was added before and is
    /// still open.
    pub fn has_floating_window(&self, w: u64) -> (r: bool)
        ensures
            r == self.spec_has_floating(w),
    {
        let mut i: usize = 0;
        let mut found = false;
        while i < self.floating_windows.len()
            invariant
                i <= self.floating_windows@.len(),
                found == exists|j: int| 0 <= j < i && self.floating_windows@[j].window == w,
            decreases self.floating_windows@.len() - i,
        {
            if self.floating_windows[i].window == w {
                found = true;
            }
            i += 1;
        }
        found
    }

    /// Whether a floating window for plugin `w` was closed during the last
    /// redraw.
    pub fn closed_floating_window(&self, w: u64) -> (r: bool)
        ensures
            r == self.spec_closed_this_frame(w),
    {
        let mut i: usize = 0;
        let mut found = false;
        while i < self.closed_floating_windows.len()
            invariant
                i <= self.closed_floating_windows@.len(),
                found == exists|j: int| 0 <= j < i && self.closed_floating_windows@[j] == w,
            decreases self.closed_floating_windows@.len() - i,
        {
            if self.closed_floating_windows[i] == w {
                found = true;
            }
            i += 1;
        }
        found
    }

    /// Draws a fresh floating-window id; ids are handed out in strictly
    /// increasing order and never reused within a session.
    pub fn next_floating_window_id(&mut self) -> (id: u32)
        requires
            old(self).next_floating_window_id < u32::MAX,
        ensures
            id == old(self).next_floating_window_id,
            final(self).next_floating_window_id == old(self).next_floating_window_id + 1,
            *final(self) == (EditorInternalState {
                next_floating_window_id: final(self).next_floating_window_id,
                ..*old(self)
            }),
    {
        let id = self.next_floating_window_id;
        self.next_floating_window_id = self.next_floating_window_id + 1;
        id
    }

    /// The "pop out" action on a docked tab: creates a floating window for
    /// the tab's plugin, with no initial position and a zero-sized
    /// provisional rectangle. Popping out a plugin that already has a
    /// floating window is allowed and adds a second entry.
    pub fn pop_out(&mut self, tab: TreeTab)
        requires
            old(self).wf(),
            old(self).next_floating_window_id < u32::MAX,
            old(self).floating_windows@.len() < usize::MAX,
        ensures
            final(self).wf(),
            match tab {
                TreeTab::CustomWindow(w) => {
                    &&& final(self).floating_windows@ =~= old(self).floating_windows@.push(
                        FloatingWindow {
                            window: w,
                            id: old(self).next_floating_window_id,
                            initial_position: None,
                            current_rect: Rect { min: Pos { x: 0, y: 0 }, max: Pos { x: 0, y: 0 } },
                        },
                    )
                    &&& final(self).next_floating_window_id == old(self).next_floating_window_id
                        + 1
                    &&& final(self).spec_has_floating(w)
                    &&& forall|i: int|
                        0 <= i < old(self).floating_windows@.len()
                            ==> #[trigger] old(self).floating_windows@[i].id != old(
                            self,
                        ).next_floating_window_id
                    &&& *final(self) == (EditorInternalState {
                        floating_windows: final(self).floating_windows,
                        next_floating_window_id: final(self).next_floating_window_id,
                        ..*old(self)
                    })
                },
                TreeTab::GameView => *final(self) == *old(self),
            },
    {
        match tab {
            TreeTab::CustomWindow(w) => {
                let id = self.next_floating_window_id();
                self.floating_windows.push(
                    FloatingWindow {
                        window: w,
                        id,
                        initial_position: None,
                        current_rect: Rect::zero(),
                    },
                );
                proof {
                    let n = old(self).floating_windows@.len() as int;
                    assert(self.floating_windows@[n].window == w);
                }
            },
            TreeTab::GameView => {},
        }
    }

    /// Commits the results of one floating-window UI pass, which ran over a
    /// snapshot of the floating list: stores each window's reported
    /// rectangle, recomputes the per-frame closed set from scratch, and
    /// swap-removes the closed entries in descending index order.
    pub fn commit_floating_pass(&mut self, results: &Vec<FloatingResult>)
        requires
            old(self).wf(),
            results@.len() == old(self).floating_windows@.len(),
        ensures
            final(self).wf(),
            final(self).floating_windows@ == remove_closed(
                update_rects(old(self).floating_windows@, results@),
                results@,
                results@.len() as int,
            ),
            final(self).closed_floating_windows@ == closed_windows_below(
                old(self).floating_windows@,
                results@,
                results@.len() as int,
            ),
            *final(self) == (EditorInternalState {
                floating_windows: final(self).floating_windows,
                closed_floating_windows: final(self).closed_floating_windows,
                ..*old(self)
            }),
    {
        let n = self.floating_windows.len();
        // Store the rectangles the pass reported.
        let mut updated: Vec<FloatingWindow> = Vec::new();
        let mut i: usize = 0;
        while i < n
            invariant
                i <= n,
                n == self.floating_windows@.len(),
                n == results@.len(),
                *self == *old(self),
                updated@.len() == i,
                forall|j: int|
                    0 <= j < i ==> updated@[j] == with_rect(
                        old(self).floating_windows@[j],
                        results@[j].rect,
                    ),
            decreases n - i,
        {
            let mut fw = self.floating_windows[i];
            fw.current_rect = results[i].rect;
            updated.push(fw);
            i += 1;
        }
        self.floating_windows = updated;
        proof {
            assert(self.floating_windows@ =~= update_rects(
                old(self).floating_windows@,
                results@,
            ));
        }
        let ghost updated_seq = self.floating_windows@;
        // Recompute the per-frame closed set.
        self.closed_floating_windows = Vec::new();
        let mut i: usize = 0;
        while i < n
            invariant
                i <= n,
                n == results@.len(),
                n == self.floating_windows@.len(),
                self.floating_windows@ == updated_seq,
                self.state == old(self).state,
                self.next_floating_window_id == old(self).next_floating_window_id,
                updated_seq == update_rects(old(self).floating_windows@, results@),
                self.closed_floating_windows@ == closed_windows_below(
                    old(self).floating_windows@,
                    results@,
                    i as int,
                ),
            decreases n - i,
        {
            if results[i].closed {
                self.closed_floating_windows.push(self.floating_windows[i].window);
                proof {
                    assert(self.floating_windows@[i as int].window == old(
                        self,
                    ).floating_windows@[i as int].window);
                }
            }
            i += 1;
        }
        // Apply the removals from the highest index down, so that each
        // swap-removal leaves the not-yet-visited indices untouched.
        let mut k = n;
        while k > 0
            invariant
                k <= n,
                n == results@.len(),
                k <= self.floating_windows@.len(),
                self.floating_windows@.len() <= n,
                self.state == old(self).state,
                self.next_floating_window_id == old(self).next_floating_window_id,
                self.closed_floating_windows@ == closed_windows_below(
                    old(self).floating_windows@,
                    results@,
                    n as int,
                ),
                remove_closed(self.floating_windows@, results@, k as int) == remove_closed(
                    updated_seq,
                    results@,
                    n as int,
                ),
            decreases k,
        {
            k = k - 1;
            if results[k].closed {
                let ghost before = self.floating_windows@;
                let _ = self.floating_windows.swap_remove(k);
                proof {
                    assert(self.floating_windows@ == swap_remove_at(before, k as int));
                    assert(remove_closed(before, results@, k as int + 1) == remove_closed(
                        self.floating_windows@,
                        results@,
                        k as int,
                    ));
                }
            } else {
                proof {
                    assert(remove_closed(self.floating_windows@, results@, k as int + 1)
                        == remove_closed(self.floating_windows@, results@, k as int));
                }
            }
        }
        proof {
            lemma_remove_closed_entries(updated_seq, results@, n as int);
            assert forall|i: int|
                0 <= i < self.floating_windows@.len() implies #[trigger] self.floating_windows@[i].id
                < self.next_floating_window_id by {
                assert(updated_seq.contains(self.floating_windows@[i]));
                let j = choose|j: int|
                    0 <= j < updated_seq.len() && #[trigger] updated_seq[j]
                        == self.floating_windows@[i];
                assert(updated_seq[j].id == old(self).floating_windows@[j].id);
                assert(old(self).floating_windows@[j].id < old(self).next_floating_window_id);
            }
        }
    }
}

} // verus!
