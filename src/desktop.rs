//! Locating the desktop's background window: a depth-first, pre-order walk of
//! the window tree from the root, stopping at the first window whose
//! `_NET_WM_WINDOW_TYPE` is `_NET_WM_WINDOW_TYPE_DESKTOP`.
//!
//! [`DesktopLocator`] holds the walk's decisions: it names the next read to
//! make and takes its outcome back, so that the program around it performs
//! the round trips. [`find_desktop`] runs the same walk on a window tree held
//! in memory.
use crate::protocol::{AtomID, Error, Property, PropertyValue, WindowID};
use vstd::prelude::*;

verus! {

/// Whether a read of `_NET_WM_WINDOW_TYPE` names the desktop type. A read that
/// failed, or that gave a value other than an atom, does not.
pub open spec fn is_desktop_type(read: Result<Property, Error>, desktop_type: AtomID) -> bool {
    read matches Ok(p) && p.value == PropertyValue::Atom(desktop_type)
}

/// The next thing that the walk needs done.
#[derive(Debug, Clone, Copy, PartialEq, Eq)]
pub enum LocatorAction {
    /// Read property `property` (the window type) of `window`, and hand the
    /// outcome to [`DesktopLocator::on_window_type`].
    ReadWindowType { window: WindowID, property: AtomID },
    /// List the children of `window`, in the order in which the server
    /// reports them, and hand them to [`DesktopLocator::on_children`].
    ListChildren { window: WindowID },
    /// The walk is over: this is the desktop window.
    Found(WindowID),
    /// The walk is over and found no desktop window.
    NotFound,
}

/// Where the walk stands.
#[derive(Debug, Clone, Copy, PartialEq, Eq)]
pub enum LocatorStage {
    /// Waiting for the window type of this window.
    ReadingType(WindowID),
    /// Waiting for the children of this window.
    ListingChildren(WindowID),
    /// The walk is over.
    Finished,
}

/// The state of a walk: the atoms it compares, the stage it is in, and the
/// windows that are still to be visited, the next one last.
pub struct DesktopLocator {
    window_type: AtomID,
    desktop_type: AtomID,
    pending: Vec<WindowID>,
    stage: LocatorStage,
}

impl DesktopLocator {
    /// The windows still to be visited, the next one last.
    pub closed spec fn pending_windows(&self) -> Seq<WindowID> {
        self.pending@
    }

    /// The stage of the walk.
    pub closed spec fn stage_of(&self) -> LocatorStage {
        self.stage
    }

    /// The atom of `_NET_WM_WINDOW_TYPE`.
    pub closed spec fn window_type_atom(&self) -> AtomID {
        self.window_type
    }

    /// The atom of `_NET_WM_WINDOW_TYPE_DESKTOP`.
    pub closed spec fn desktop_type_atom(&self) -> AtomID {
        self.desktop_type
    }

    /// The stage of the walk.
    pub fn stage(&self) -> (r: LocatorStage)
        ensures
            r == self.stage_of(),
    {
        self.stage
    }

    /// Starts a walk at `root`, given the two atoms as the server resolved
    /// them. Where either is missing the walk is over at once, with no read.
    pub fn start(root: WindowID, window_type: Option<AtomID>, desktop_type: Option<AtomID>) -> (r: (
        DesktopLocator,
        LocatorAction,
    ))
        ensures
            match (window_type, desktop_type) {
                (Some(t), Some(d)) => {
                    &&& r.1 == LocatorAction::ReadWindowType { window: root, property: t }
                    &&& r.0.stage_of() == LocatorStage::ReadingType(root)
                    &&& r.0.pending_windows() == Seq::<WindowID>::empty()
                    &&& r.0.window_type_atom() == t
                    &&& r.0.desktop_type_atom() == d
                },
                _ => r.1 == LocatorAction::NotFound && r.0.stage_of() == LocatorStage::Finished,
            },
    {
        match (window_type, desktop_type) {
            (Some(t), Some(d)) => (
                DesktopLocator {
                    window_type: t,
                    desktop_type: d,
                    pending: Vec::new(),
                    stage: LocatorStage::ReadingType(root),
                },
                LocatorAction::ReadWindowType { window: root, property: t },
            ),
            _ => (
                DesktopLocator {
                    window_type: 0,
                    desktop_type: 0,
                    pending: Vec::new(),
                    stage: LocatorStage::Finished,
                },
                LocatorAction::NotFound,
            ),
        }
    }

    /// Takes the outcome of the window-type read: the window is the desktop
    /// where the read names the desktop type; otherwise (an error included)
    /// its children are to be listed.
    pub fn on_window_type(&mut self, read: &Result<Property, Error>) -> (r: LocatorAction)
        requires
            old(self).stage_of() is ReadingType,
        ensures
            final(self).pending_windows() == old(self).pending_windows(),
            final(self).window_type_atom() == old(self).window_type_atom(),
            final(self).desktop_type_atom() == old(self).desktop_type_atom(),
            is_desktop_type(*read, old(self).desktop_type_atom()) ==> {
                &&& r == LocatorAction::Found(old(self).stage_of()->ReadingType_0)
                &&& final(self).stage_of() == LocatorStage::Finished
            },
            !is_desktop_type(*read, old(self).desktop_type_atom()) ==> {
                &&& r == LocatorAction::ListChildren { window: old(self).stage_of()->ReadingType_0 }
                &&& final(self).stage_of() == LocatorStage::ListingChildren(
                    old(self).stage_of()->ReadingType_0,
                )
            },
    {
        let window = match self.stage {
            LocatorStage::ReadingType(w) => w,
            _ => 0,
        };
        let found = match read {
            Ok(p) => match p.value {
                PropertyValue::Atom(a) => a == self.desktop_type,
                _ => false,
            },
            Err(_) => false,
        };
        if found {
            self.stage = LocatorStage::Finished;
            LocatorAction::Found(window)
        } else {
            self.stage = LocatorStage::ListingChildren(window);
            LocatorAction::ListChildren { window }
        }
    }

    /// Takes the children of the window being visited: they are visited
    /// next, first to last, before the windows that were already pending.
    pub fn on_children(&mut self, children: &Vec<WindowID>) -> (r: LocatorAction)
        requires
            old(self).stage_of() is ListingChildren,
        ensures
            final(self).window_type_atom() == old(self).window_type_atom(),
            final(self).desktop_type_atom() == old(self).desktop_type_atom(),
            ({
                let all = old(self).pending_windows() + children@.reverse();
                &&& all.len() == 0 ==> {
                    &&& r == LocatorAction::NotFound
                    &&& final(self).stage_of() == LocatorStage::Finished
                    &&& final(self).pending_windows() == all
                }
                &&& all.len() > 0 ==> {
                    &&& r == LocatorAction::ReadWindowType {
                        window: all.last(),
                        property: old(self).window_type_atom(),
                    }
                    &&& final(self).stage_of() == LocatorStage::ReadingType(all.last())
                    &&& final(self).pending_windows() == all.drop_last()
                }
            }),
    {
        let ghost base = self.pending@;
        let ghost window_type = self.window_type;
        let ghost desktop_type = self.desktop_type;
        let n = children.len();
        let mut j: usize = n;
        while j > 0
            invariant
                j <= n,
                n == children@.len(),
                self.window_type == window_type,
                self.desktop_type == desktop_type,
                self.pending@ == base + children@.subrange(j as int, n as int).reverse(),
            decreases j,
        {
            j = j - 1;
            self.pending.push(children[j]);
            assert(children@.subrange(j as int, n as int).reverse() =~= children@.subrange(
                j + 1,
                n as int,
            ).reverse().push(children@[j as int]));
        }
        assert(children@.subrange(0, n as int) =~= children@);
        match self.pending.pop() {
            Some(next) => {
                self.stage = LocatorStage::ReadingType(next);
                LocatorAction::ReadWindowType { window: next, property: self.window_type }
            },
            None => {
                self.stage = LocatorStage::Finished;
                LocatorAction::NotFound
            },
        }
    }
}

/// A window of a tree held in memory: its identifier, the outcome of reading
/// its window type, and the positions of its children in the tree.
#[derive(Debug, PartialEq, Eq)]
pub struct WindowNode {
    pub id: WindowID,
    pub window_type: Result<Property, Error>,
    pub children: Vec<u32>,
}

/// A window tree held in memory; the root is the window at position 0.
#[derive(Debug, PartialEq, Eq)]
pub struct WindowTree {
    pub nodes: Vec<WindowNode>,
}

/// Whether the tree has a root and every child stands after its parent.
pub open spec fn tree_wf(nodes: Seq<WindowNode>) -> bool {
    &&& 0 < nodes.len() <= u32::MAX
    &&& forall|i: int, k: int|
        0 <= i < nodes.len() && 0 <= k < nodes[i].children@.len() ==> i < #[trigger] nodes[i].children@[k]
            < nodes.len()
}

/// The positions of the subtree at `i`, in depth-first pre-order.
pub open spec fn pre_order(nodes: Seq<WindowNode>, i: int) -> Seq<int>
    decreases nodes.len() - i, 1int, 0int,
{
    if 0 <= i < nodes.len() {
        seq![i] + pre_order_children(nodes, i, 0)
    } else {
        Seq::empty()
    }
}

/// The pre-orders of the subtrees of the children of `i` from the one at `k`
/// on, one after the other.
pub open spec fn pre_order_children(nodes: Seq<WindowNode>, i: int, k: int) -> Seq<int>
    decreases nodes.len() - i, 0int, nodes[i].children@.len() - k,
{
    if 0 <= i < nodes.len() && 0 <= k < nodes[i].children@.len() && i < nodes[i].children@[k]
        < nodes.len() {
        pre_order(nodes, nodes[i].children@[k] as int) + pre_order_children(nodes, i, k + 1)
    } else {
        Seq::empty()
    }
}

/// The windows that a walk in `order` reads: each in turn, up to and
/// including the first desktop window.
pub open spec fn visits(nodes: Seq<WindowNode>, order: Seq<int>, desktop_type: AtomID) -> Seq<int>
    decreases order.len(),
{
    if order.len() == 0 {
        Seq::empty()
    } else if is_desktop_type(nodes[order[0]].window_type, desktop_type) {
        seq![order[0]]
    } else {
        seq![order[0]] + visits(nodes, order.drop_first(), desktop_type)
    }
}

/// The identifiers of the windows at the given positions.
pub open spec fn ids_at(nodes: Seq<WindowNode>, positions: Seq<int>) -> Seq<WindowID> {
    positions.map_values(|i: int| nodes[i].id)
}

/// The outcome of a walk on a tree held in memory.
#[derive(Debug, PartialEq, Eq)]
pub struct DesktopSearch {
    /// The desktop window, if the walk found one.
    pub found: Option<WindowID>,
    /// The windows whose type was read, in the order of the reads.
    pub reads: Vec<WindowID>,
}

/// The windows still to come from a stack of pending subtrees, the top last.
pub open spec fn stack_order(nodes: Seq<WindowNode>, pending: Seq<WindowID>) -> Seq<int>
    decreases pending.len(),
{
    if pending.len() == 0 {
        Seq::empty()
    } else {
        pre_order(nodes, pending.last() as int) + stack_order(nodes, pending.drop_last())
    }
}

proof fn lemma_push_children(nodes: Seq<WindowNode>, pending: Seq<WindowID>, i: int, k: int)
    requires
        tree_wf(nodes),
        0 <= i < nodes.len(),
        0 <= k <= nodes[i].children@.len(),
    ensures
        stack_order(
            nodes,
            pending + nodes[i].children@.subrange(k, nodes[i].children@.len() as int).reverse(),
        ) == pre_order_children(nodes, i, k) + stack_order(nodes, pending),
    decreases nodes[i].children@.len() - k,
{
    let cs = nodes[i].children@;
    let n = cs.len() as int;
    if k == n {
        assert(pending + cs.subrange(k, n).reverse() =~= pending);
        assert(pre_order_children(nodes, i, k) == Seq::<int>::empty());
        assert(Seq::<int>::empty() + stack_order(nodes, pending) =~= stack_order(nodes, pending));
    } else {
        lemma_push_children(nodes, pending, i, k + 1);
        let rest = pending + cs.subrange(k + 1, n).reverse();
        let all = pending + cs.subrange(k, n).reverse();
        assert(all =~= rest.push(cs[k]));
        assert(all.last() == cs[k]);
        assert(all.drop_last() =~= rest);
        assert(i < cs[k] < nodes.len());
        assert(pre_order_children(nodes, i, k) == pre_order(nodes, cs[k] as int)
            + pre_order_children(nodes, i, k + 1));
        assert(stack_order(nodes, all) == pre_order(nodes, cs[k] as int) + stack_order(nodes, rest));
        assert(stack_order(nodes, all) =~= pre_order_children(nodes, i, k) + stack_order(
            nodes,
            pending,
        ));
    }
}

proof fn lemma_visits_step(nodes: Seq<WindowNode>, x: int, rest: Seq<int>, desktop_type: AtomID)
    ensures
        is_desktop_type(nodes[x].window_type, desktop_type) ==> visits(
            nodes,
            seq![x] + rest,
            desktop_type,
        ) == seq![x],
        !is_desktop_type(nodes[x].window_type, desktop_type) ==> visits(
            nodes,
            seq![x] + rest,
            desktop_type,
        ) == seq![x] + visits(nodes, rest, desktop_type),
{
    assert((seq![x] + rest).drop_first() =~= rest);
    assert((seq![x] + rest)[0] == x);
}

/// Runs the walk on a tree held in memory, from its root, reading the types
/// that the tree holds. It reads the windows in depth-first pre-order and
/// stops at the first desktop window; without both atoms it reads nothing.
pub fn find_desktop(tree: &WindowTree, window_type: Option<AtomID>, desktop_type: Option<AtomID>) -> (r:
    DesktopSearch)
    requires
        tree_wf(tree.nodes@),
    ensures
        window_type is None || desktop_type is None ==> r.reads@.len() == 0 && r.found is None,
        window_type is Some && desktop_type is Some ==> ({
            let order = visits(tree.nodes@, pre_order(tree.nodes@, 0), desktop_type->0);
            &&& r.reads@ == ids_at(tree.nodes@, order)
            &&& r.found == if order.len() > 0 && is_desktop_type(
                tree.nodes@[order.last()].window_type,
                desktop_type->0,
            ) {
                Some(tree.nodes@[order.last()].id)
            } else {
                None::<WindowID>
            }
        }),
{
    let ghost nodes = tree.nodes@;
    let (mut locator, action) = DesktopLocator::start(0, window_type, desktop_type);
    let mut reads: Vec<WindowID> = Vec::new();
    let mut current: u32 = match action {
        LocatorAction::ReadWindowType { window, .. } => window,
        _ => {
            return DesktopSearch { found: None, reads };
        },
    };
    let ghost d = desktop_type->0;
    let ghost target = visits(nodes, pre_order(nodes, 0), d);
    let ghost mut visited: Seq<int> = Seq::empty();
    assert(stack_order(nodes, Seq::<WindowID>::empty()) == Seq::<int>::empty());
    assert(pre_order(nodes, 0) + Seq::<int>::empty() =~= pre_order(nodes, 0));
    loop
        invariant
            window_type is Some && desktop_type is Some,
            d == desktop_type->0,
            tree.nodes@ == nodes,
            target == visits(nodes, pre_order(nodes, 0), d),
            tree_wf(nodes),
            current < nodes.len(),
            locator.stage_of() == LocatorStage::ReadingType(current),
            locator.desktop_type_atom() == d,
            forall|k: int|
                0 <= k < locator.pending_windows().len() ==> #[trigger] locator.pending_windows()[k]
                    < nodes.len(),
            reads@ == ids_at(nodes, visited),
            target == visited + visits(
                nodes,
                pre_order(nodes, current as int) + stack_order(nodes, locator.pending_windows()),
                d,
            ),
            forall|k: int| 0 <= k < visited.len() ==> 0 <= #[trigger] visited[k] < nodes.len(),
            forall|k: int|
                0 <= k < visited.len() ==> !is_desktop_type(
                    nodes[#[trigger] visited[k]].window_type,
                    d,
                ),
        decreases (pre_order(nodes, current as int) + stack_order(
            nodes,
            locator.pending_windows(),
        )).len(),
    {
        let node = &tree.nodes[current as usize];
        let ghost rest = stack_order(nodes, locator.pending_windows());
        let ghost below = pre_order_children(nodes, current as int, 0);
        assert(pre_order(nodes, current as int) + rest =~= seq![current as int] + (below + rest));
        proof {
            lemma_visits_step(nodes, current as int, below + rest, d);
        }
        reads.push(node.id);
        proof {
            assert(ids_at(nodes, visited.push(current as int)) =~= ids_at(nodes, visited).push(
                nodes[current as int].id,
            ));
            visited = visited.push(current as int);
        }
        match locator.on_window_type(&node.window_type) {
            LocatorAction::Found(w) => {
                assert(is_desktop_type(nodes[current as int].window_type, d));
                assert(target =~= visited);
                assert(target.last() == current as int);
                return DesktopSearch { found: Some(node.id), reads };
            },
            _ => {},
        }
        assert(!is_desktop_type(nodes[current as int].window_type, d));
        assert(target =~= visited + visits(nodes, below + rest, d));
        let ghost before = locator.pending_windows();
        proof {
            lemma_push_children(nodes, before, current as int, 0);
            assert(nodes[current as int].children@.subrange(
                0,
                nodes[current as int].children@.len() as int,
            ) =~= nodes[current as int].children@);
        }
        let ghost all = before + node.children@.reverse();
        assert(stack_order(nodes, all) == below + rest);
        assert forall|k: int| 0 <= k < all.len() implies #[trigger] all[k] < nodes.len() by {
            if k >= before.len() {
                let m = node.children@.len() - 1 - (k - before.len());
                assert(all[k] == node.children@[m]);
            }
        }
        match locator.on_children(&node.children) {
            LocatorAction::ReadWindowType { window, .. } => {
                assert(stack_order(nodes, all) == pre_order(nodes, window as int) + stack_order(
                    nodes,
                    all.drop_last(),
                ));
                current = window;
            },
            _ => {
                assert(all.len() == 0);
                assert(below + rest =~= Seq::<int>::empty());
                assert(target =~= visited);
                return DesktopSearch { found: None, reads };
            },
        }
    }
}

} // verus!
