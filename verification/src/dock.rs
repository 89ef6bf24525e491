//! The dock tree: a tree of panes, each holding an ordered list of tabs.
//!
//! Nodes live in a vector; a branch stores the indices of its two children,
//! which are always strictly greater than the branch's own index, so the
//! structure is acyclic by construction. Pane geometry (how a split's
//! fraction maps to pixels) belongs to the UI layer; the tree records the
//! split direction and fraction and owns the tab lists.

use vstd::prelude::*;
use vstd::pervasive::VecAdditionalExecFns;

verus! {

/// A tab inside a pane: the singular game viewport, or a window plugin
/// identified by its key.
#[derive(Clone, Copy, Debug, PartialEq, Eq, Structural)]
pub enum TreeTab {
    GameView,
    CustomWindow(u64),
}

/// The side on which a split places the new pane.
#[derive(Clone, Copy, Debug, PartialEq, Eq, Structural)]
pub enum SplitDirection {
    Left,
    Right,
    Above,
    Below,
}

/// One node of the dock tree.
#[derive(Clone, Debug)]
pub enum DockNode {
    /// A pane: an ordered list of tabs, exactly one of them active.
    Leaf { tabs: Vec<TreeTab>, active: usize },
    /// A split pane; `first` and `second` are node indices.
    Branch { direction: SplitDirection, fraction_permille: u32, first: usize, second: usize },
}

/// The tabs of a node, empty for a branch.
pub open spec fn node_tabs(n: DockNode) -> Seq<TreeTab> {
    match n {
        DockNode::Leaf { tabs, .. } => tabs@,
        DockNode::Branch { .. } => Seq::empty(),
    }
}

/// The active tab index of a node, zero for a branch.
pub open spec fn node_active(n: DockNode) -> int {
    match n {
        DockNode::Leaf { active, .. } => active as int,
        DockNode::Branch { .. } => 0,
    }
}

/// What a split leaves behind: the parent leaf becomes a branch over its
/// moved old pane and the freshly created pane, every other node stands
/// unchanged, and focus follows the old pane if it was focused.
pub open spec fn split_post(
    pre: DockTree,
    post: DockTree,
    parent: usize,
    direction: SplitDirection,
    fraction_permille: u32,
    r: (usize, usize),
) -> bool {
    &&& r.0 == pre.nodes@.len()
    &&& r.1 == pre.nodes@.len() + 1
    &&& post.nodes@.len() == pre.nodes@.len() + 2
    &&& post.nodes@[r.0 as int] == pre.nodes@[parent as int]
    &&& post.nodes@[parent as int] == (DockNode::Branch {
        direction,
        fraction_permille,
        first: r.0,
        second: r.1,
    })
    &&& forall|i: int|
        0 <= i < pre.nodes@.len() && i != parent ==> post.nodes@[i] == pre.nodes@[i]
    &&& post.focused == if pre.focused == parent {
        r.0
    } else {
        pre.focused as usize
    }
}

/// The tree of docked panes.
#[derive(Clone, Debug)]
pub struct DockTree {
    pub nodes: Vec<DockNode>,
    /// Index of the focused pane; always a leaf.
    pub focused: usize,
}

impl DockTree {
    /// Well-formedness of one node: a leaf's active tab is in range, and a
    /// branch's children lie further right in the vector.
    pub open spec fn wf_node(self, i: int) -> bool {
        match self.nodes@[i] {
            DockNode::Leaf { tabs, active } => active < tabs@.len(),
            DockNode::Branch { first, second, .. } => {
                &&& i < first < self.nodes@.len()
                &&& i < second < self.nodes@.len()
                &&& first != second
            },
        }
    }

    pub open spec fn wf(self) -> bool {
        &&& self.focused < self.nodes@.len()
        &&& self.nodes@[self.focused as int] is Leaf
        &&& forall|i: int| 0 <= i < self.nodes@.len() ==> self.wf_node(i)
    }

    /// The ordered tabs of the focused pane.
    pub open spec fn focused_tabs(self) -> Seq<TreeTab> {
        node_tabs(self.nodes@[self.focused as int])
    }

    /// The index of the focused pane's active tab.
    pub open spec fn focused_active(self) -> int {
        node_active(self.nodes@[self.focused as int])
    }

    /// A tree with a single pane holding the game viewport tab.
    pub fn new() -> (t: DockTree)
        ensures
            t.wf(),
            t.focused == 0,
            t.nodes@.len() == 1,
            t.focused_tabs() =~= seq![TreeTab::GameView],
            t.focused_active() == 0,
    {
        let mut tabs: Vec<TreeTab> = Vec::new();
        tabs.push(TreeTab::GameView);
        let mut nodes: Vec<DockNode> = Vec::new();
        nodes.push(DockNode::Leaf { tabs, active: 0 });
        DockTree { nodes, focused: 0 }
    }

    /// Inserts a tab for `window` into the focused pane and makes it that
    /// pane's active tab.
    pub fn add_tab(&mut self, window: u64)
        requires
            old(self).wf(),
            old(self).focused_tabs().len() < usize::MAX,
        ensures
            final(self).wf(),
            final(self).focused == old(self).focused,
            final(self).nodes@.len() == old(self).nodes@.len(),
            final(self).focused_tabs() =~= old(self).focused_tabs().push(
                TreeTab::CustomWindow(window),
            ),
            final(self).focused_active() == old(self).focused_tabs().len() as int,
            final(self).focused_tabs()[final(self).focused_active()] == TreeTab::CustomWindow(
                window,
            ),
            forall|i: int|
                0 <= i < final(self).nodes@.len() && i != final(self).focused
                    ==> final(self).nodes@[i] == old(self).nodes@[i],
    {
        let f = self.focused;
        let mut node = DockNode::Branch {
            direction: SplitDirection::Right,
            fraction_permille: 0,
            first: 0,
            second: 0,
        };
        self.nodes.set_and_swap(f, &mut node);
        match node {
            DockNode::Leaf { mut tabs, active: _ } => {
                tabs.push(TreeTab::CustomWindow(window));
                let new_active = tabs.len() - 1;
                self.nodes.set(f, DockNode::Leaf { tabs, active: new_active });
                proof {
                    assert forall|i: int| 0 <= i < self.nodes@.len() implies self.wf_node(i) by {
                        assert(old(self).wf_node(i));
                    }
                }
            },
            DockNode::Branch { .. } => {
                // unreachable: the focused node is a leaf
                proof {
                    assert(false);
                }
            },
        }
    }

    /// Splits the leaf `parent` along `direction` at `fraction_permille`
    /// thousandths of its size, placing a new pane that holds `window`'s tab.
    /// Returns the handles of the moved old pane and of the new pane.
    pub fn split(
        &mut self,
        parent: usize,
        direction: SplitDirection,
        fraction_permille: u32,
        window: u64,
    ) -> (r: (usize, usize))
        requires
            old(self).wf(),
            parent < old(self).nodes@.len(),
            old(self).nodes@[parent as int] is Leaf,
            fraction_permille <= 1000,
            old(self).nodes@.len() + 2 <= usize::MAX,
        ensures
            final(self).wf(),
            r.0 == old(self).nodes@.len(),
            r.1 == old(self).nodes@.len() + 1,
            final(self).nodes@.len() == old(self).nodes@.len() + 2,
            final(self).nodes@[r.0 as int] == old(self).nodes@[parent as int],
            final(self).nodes@[r.1 as int] is Leaf,
            node_tabs(final(self).nodes@[r.1 as int]) =~= seq![TreeTab::CustomWindow(window)],
            node_active(final(self).nodes@[r.1 as int]) == 0,
            final(self).nodes@[parent as int] == (DockNode::Branch {
                direction,
                fraction_permille,
                first: r.0,
                second: r.1,
            }),
            forall|i: int|
                0 <= i < old(self).nodes@.len() && i != parent ==> final(self).nodes@[i] == old(
                    self,
                ).nodes@[i],
            final(self).focused == if old(self).focused == parent {
                r.0
            } else {
                old(self).focused as usize
            },
    {
        let first = self.nodes.len();
        let second = first + 1;
        let mut moved = DockNode::Branch { direction, fraction_permille, first, second };
        self.nodes.set_and_swap(parent, &mut moved);
        self.nodes.push(moved);
        let mut tabs: Vec<TreeTab> = Vec::new();
        tabs.push(TreeTab::CustomWindow(window));
        self.nodes.push(DockNode::Leaf { tabs, active: 0 });
        if self.focused == parent {
            self.focused = first;
        }
        proof {
            assert forall|i: int| 0 <= i < self.nodes@.len() implies self.wf_node(i) by {
                assert(old(self).wf_node(parent as int));
                if 0 <= i < old(self).nodes@.len() {
                    assert(old(self).wf_node(i));
                }
            }
        }
        (first, second)
    }

    /// Splits the leaf `parent` and places one new pane holding a tab for
    /// each key in `windows`, in order, the first of them active.
    pub fn split_many(
        &mut self,
        parent: usize,
        direction: SplitDirection,
        fraction_permille: u32,
        windows: &Vec<u64>,
    ) -> (r: (usize, usize))
        requires
            old(self).wf(),
            parent < old(self).nodes@.len(),
            old(self).nodes@[parent as int] is Leaf,
            fraction_permille <= 1000,
            old(self).nodes@.len() + 2 <= usize::MAX,
            windows@.len() >= 1,
        ensures
            final(self).wf(),
            r.0 == old(self).nodes@.len(),
            r.1 == old(self).nodes@.len() + 1,
            final(self).nodes@.len() == old(self).nodes@.len() + 2,
            final(self).nodes@[r.0 as int] == old(self).nodes@[parent as int],
            final(self).nodes@[r.1 as int] is Leaf,
            node_tabs(final(self).nodes@[r.1 as int]).len() == windows@.len(),
            forall|k: int|
                0 <= k < windows@.len() ==> node_tabs(final(self).nodes@[r.1 as int])[k]
                    == TreeTab::CustomWindow(windows@[k]),
            node_active(final(self).nodes@[r.1 as int]) == 0,
            final(self).nodes@[parent as int] == (DockNode::Branch {
                direction,
                fraction_permille,
                first: r.0,
                second: r.1,
            }),
            forall|i: int|
                0 <= i < old(self).nodes@.len() && i != parent ==> final(self).nodes@[i] == old(
                    self,
                ).nodes@[i],
            final(self).focused == if old(self).focused == parent {
                r.0
            } else {
                old(self).focused as usize
            },
    {
        let first = self.nodes.len();
        let second = first + 1;
        let mut moved = DockNode::Branch { direction, fraction_permille, first, second };
        self.nodes.set_and_swap(parent, &mut moved);
        self.nodes.push(moved);
        let mut tabs: Vec<TreeTab> = Vec::new();
        let mut k: usize = 0;
        while k < windows.len()
            invariant
                k <= windows@.len(),
                tabs@.len() == k,
                forall|j: int| 0 <= j < k ==> tabs@[j] == TreeTab::CustomWindow(windows@[j]),
            decreases windows@.len() - k,
        {
            tabs.push(TreeTab::CustomWindow(windows[k]));
            k += 1;
        }
        self.nodes.push(DockNode::Leaf { tabs, active: 0 });
        if self.focused == parent {
            self.focused = first;
        }
        proof {
            assert forall|i: int| 0 <= i < self.nodes@.len() implies self.wf_node(i) by {
                assert(old(self).wf_node(parent as int));
                if 0 <= i < old(self).nodes@.len() {
                    assert(old(self).wf_node(i));
                }
            }
        }
        (first, second)
    }

    /// The focused pane's active tab.
    pub fn active_tab_of_focused(&self) -> (r: TreeTab)
        requires
            self.wf(),
        ensures
            r == self.focused_tabs()[self.focused_active()],
    {
        proof {
            assert(self.wf_node(self.focused as int));
        }
        match &self.nodes[self.focused] {
            DockNode::Leaf { tabs, active } => tabs[*active],
            DockNode::Branch { .. } => {
                proof {
                    assert(false);
                }
                TreeTab::GameView
            },
        }
    }
}

} // verus!
