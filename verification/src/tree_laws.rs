//! What holds of the tree under every frame: which children stay and in
//! what order, what a deletion takes away, and what an addition brings.

use vstd::prelude::*;
use crate::tree::{Shape, Signals};

verus! {

impl Shape {
    /// The places, among the first `n` children, of those that their visits
    /// leave: the places of the children that stay, in rising order.
    pub open spec fn kept_places(self, s: Signals, n: nat) -> Seq<int>
        decreases n,
    {
        if n == 0 || n > self.children.len() {
            Seq::empty()
        } else {
            let before = self.kept_places(s, (n - 1) as nat);
            if self.visit_child(s, n - 1).is_some() {
                before.push(n - 1)
            } else {
                before
            }
        }
    }

    /// Whether `path` leads from this node to a node below it, or is empty.
    /// A path names, step by step, the place of the next node among the
    /// children of the last.
    pub open spec fn has(self, path: Seq<int>) -> bool
        decreases path.len(),
    {
        path.len() == 0 || (0 <= path[0] < self.children.len() && self.children[path[0]].has(
            path.drop_first(),
        ))
    }

    /// The node that `path` leads to.
    pub open spec fn at(self, path: Seq<int>) -> Shape
        recommends
            self.has(path),
        decreases path.len(),
    {
        if path.len() == 0 {
            self
        } else {
            self.children[path[0]].at(path.drop_first())
        }
    }

    /// This tree without the node that `path` leads to and all below it.
    /// The siblings of that node close the gap and keep their order; every
    /// other node keeps its children.
    pub open spec fn without(self, path: Seq<int>) -> Shape
        recommends
            path.len() > 0,
            self.has(path),
        decreases path.len(),
    {
        if path.len() == 0 {
            self
        } else if path.len() == 1 {
            Shape { children: self.children.remove(path[0]) }
        } else {
            Shape {
                children: self.children.update(
                    path[0],
                    self.children[path[0]].without(path.drop_first()),
                ),
            }
        }
    }

    /// This tree with one more childless child, put last, under the node
    /// that `path` leads to.
    pub open spec fn with_leaf_under(self, path: Seq<int>) -> Shape
        recommends
            self.has(path),
        decreases path.len(),
    {
        if path.len() == 0 {
            Shape { children: self.children.push(Shape::leaf()) }
        } else {
            Shape {
                children: self.children.update(
                    path[0],
                    self.children[path[0]].with_leaf_under(path.drop_first()),
                ),
            }
        }
    }
}

impl Signals {
    /// A report in which nothing was done: no control was activated in any
    /// section that was shown.
    pub open spec fn quiet(self, deletable: bool) -> bool
        decreases self,
    {
        !self.open || (!(deletable && self.delete) && !self.add && forall|i: int|
            0 <= i < self.children.len() ==> (#[trigger] self.children[i]).quiet(true))
    }

    /// A report in which a single thing was done: the delete control of the
    /// node that `path` leads to was activated. The sections on the way to
    /// that node were open; whether any other was does not matter.
    pub open spec fn deletes_only(self, path: Seq<int>, deletable: bool) -> bool
        decreases path.len(),
    {
        &&& path.len() > 0
        &&& self.open
        &&& !(deletable && self.delete)
        &&& !self.add
        &&& forall|i: int|
            0 <= i < self.children.len() && i != path[0] ==> (#[trigger] self.children[i]).quiet(
                true,
            )
        &&& if path.len() == 1 {
            self.child(path[0]).open && self.child(path[0]).delete
        } else {
            self.child(path[0]).deletes_only(path.drop_first(), true)
        }
    }

    /// A report in which a single thing was done: the add control of the
    /// node that `path` leads to was activated.
    pub open spec fn adds_only(self, path: Seq<int>, deletable: bool) -> bool
        decreases path.len(),
    {
        &&& self.open
        &&& !(deletable && self.delete)
        &&& if path.len() == 0 {
            &&& self.add
            &&& forall|i: int|
                0 <= i < self.children.len() ==> (#[trigger] self.children[i]).quiet(true)
        } else {
            &&& !self.add
            &&& forall|i: int|
                0 <= i < self.children.len() && i != path[0] ==> (
                #[trigger] self.children[i]).quiet(true)
            &&& self.child(path[0]).adds_only(path.drop_first(), true)
        }
    }
}

/// The children that stay keep their order, and their places close up.
///
/// `kept_places` lists the places, before the frame, of the children that
/// the frame leaves: the child that the frame leaves at place `j` stood at
/// place `kept_places[j]`. Places rise with `j`, so no two children swap;
/// every child whose visit says "keep" is there and no other, so the new
/// places run from 0 without a gap; and what stands at the new place is what
/// the visit of that child, and of no other, left of it.
pub proof fn lemma_kept_children_keep_their_order(t: Shape, s: Signals, n: nat)
    requires
        n <= t.children.len(),
    ensures
        t.kept_places(s, n).len() == t.kept(s, n).len(),
        t.kept_places(s, n).len() <= n,
        forall|j: int|
            0 <= j < t.kept_places(s, n).len() ==> 0 <= #[trigger] t.kept_places(s, n)[j] < n,
        forall|j: int, k: int|
            0 <= j < k < t.kept_places(s, n).len() ==> t.kept_places(s, n)[j] < t.kept_places(
                s,
                n,
            )[k],
        forall|j: int|
            0 <= j < t.kept_places(s, n).len() ==> t.visit_child(
                s,
                #[trigger] t.kept_places(s, n)[j],
            ) == Some(t.kept(s, n)[j]),
        forall|i: int|
            0 <= i < n ==> ((#[trigger] t.visit_child(s, i)).is_some() <==> t.kept_places(
                s,
                n,
            ).contains(i)),
    decreases n,
{
    if n > 0 {
        lemma_kept_children_keep_their_order(t, s, (n - 1) as nat);
        let before = t.kept_places(s, (n - 1) as nat);
        let now = t.kept_places(s, n);
        assert forall|i: int| 0 <= i < n && (#[trigger] t.visit_child(s, i)).is_some() implies now.contains(
            i,
        ) by {
            if i < n - 1 {
                let j = choose|j: int| 0 <= j < before.len() && before[j] == i;
                assert(now[j] == i);
            } else {
                assert(now[now.len() - 1] == i);
            }
        }
    }
}

/// The visit of a node whose section is open, and which is not itself
/// deleted, leaves the children that stay, in their order, and after them
/// the new child if one was added: nothing else.
pub proof fn lemma_visit_rebuilds_children(t: Shape, s: Signals, deletable: bool)
    requires
        s.open,
        !(deletable && s.delete),
    ensures
        t.visit(s, deletable).is_some(),
        t.visit(s, deletable).unwrap().children == t.kept(s, t.children.len()) + s.added(),
        t.visit(s, deletable).unwrap().children.len() == t.kept(s, t.children.len()).len()
            + s.added().len(),
        forall|j: int|
            0 <= j < t.kept(s, t.children.len()).len() ==> t.visit(
                s,
                deletable,
            ).unwrap().children[j] == t.kept(s, t.children.len())[j],
{
}

/// `children` with the one at place `k` replaced by `left`, or gone where
/// there is none; `children` as they are where there is no such place.
spec fn but_one(children: Seq<Shape>, k: int, left: Option<Shape>) -> Seq<Shape> {
    if 0 <= k < children.len() {
        match left {
            Some(child) => children.update(k, child),
            None => children.remove(k),
        }
    } else {
        children
    }
}

/// What the visits of the first `n` children leave when all of them but the
/// one at place `k` are left as they were, and that one is left as `left`:
/// the children as they were, with the one at place `k` replaced or gone.
proof fn lemma_kept_but_one(t: Shape, s: Signals, k: int, left: Option<Shape>, n: nat)
    requires
        n <= t.children.len(),
        forall|i: int| 0 <= i < n && i != k ==> t.visit_child(s, i) == Some(t.children[i]),
        0 <= k < n ==> t.visit_child(s, k) == left,
    ensures
        t.kept(s, n) == but_one(t.children.take(n as int), k, left),
    decreases n,
{
    if n > 0 {
        lemma_kept_but_one(t, s, k, left, (n - 1) as nat);
        assert(k != n - 1 ==> t.visit_child(s, n - 1) == Some(t.children[n - 1]));
    }
}

/// A frame in which nothing is done leaves the tree as it is.
pub proof fn lemma_quiet_frame_changes_nothing(t: Shape, s: Signals, deletable: bool)
    requires
        s.quiet(deletable),
    ensures
        t.visit(s, deletable) == Some(t),
    decreases t,
{
    if s.open {
        assert forall|i: int| 0 <= i < t.children.len() implies t.visit_child(s, i) == Some(
            t.children[i],
        ) by {
            lemma_quiet_frame_changes_nothing(t.children[i], s.child(i), true);
        }
        lemma_kept_but_one(t, s, -1, None, t.children.len());
        assert(t.children.take(t.children.len() as int) =~= t.children);
    }
}

/// Deleting the node that `path` leads to takes away that node and all
/// below it, and nothing else: its siblings stay as they are and in their
/// order, and so does every node that is not below it.
pub proof fn lemma_delete_removes_one_subtree(
    t: Shape,
    s: Signals,
    path: Seq<int>,
    deletable: bool,
)
    requires
        t.has(path),
        s.deletes_only(path, deletable),
    ensures
        t.visit(s, deletable) == Some(t.without(path)),
    decreases path.len(),
{
    let k = path[0];
    assert forall|i: int| 0 <= i < t.children.len() && i != k implies t.visit_child(s, i) == Some(
        t.children[i],
    ) by {
        lemma_quiet_frame_changes_nothing(t.children[i], s.child(i), true);
    }
    assert(t.children.take(t.children.len() as int) =~= t.children);
    if path.len() == 1 {
        lemma_kept_but_one(t, s, k, None, t.children.len());
    } else {
        lemma_delete_removes_one_subtree(t.children[k], s.child(k), path.drop_first(), true);
        let child = t.children[k].without(path.drop_first());
        lemma_kept_but_one(t, s, k, Some(child), t.children.len());
    }
}

/// Where the delete control of a child was activated, what the frame leaves
/// of each of its siblings is what that sibling's own visit leaves of it:
/// the deletion does not reach them. `s` and `other` are two reports that
/// agree on the sibling at place `i`, and may differ in all else.
pub proof fn lemma_siblings_are_visited_alone(t: Shape, s: Signals, other: Signals, i: int)
    requires
        0 <= i < t.children.len(),
        s.child(i) == other.child(i),
    ensures
        t.visit_child(s, i) == t.visit_child(other, i),
{
}

/// The add control gives the node exactly one more child than it would
/// have had without it: a childless node, put after the children that
/// stay.
pub proof fn lemma_add_appends_one_leaf(t: Shape, s: Signals, deletable: bool)
    requires
        s.open,
        !(deletable && s.delete),
        s.add,
    ensures
        t.visit(s, deletable).is_some(),
        t.visit(s.without_add(), deletable).is_some(),
        t.visit(s, deletable).unwrap().children == t.visit(
            s.without_add(),
            deletable,
        ).unwrap().children.push(Shape::leaf()),
        t.visit(s, deletable).unwrap().children.len() == t.visit(
            s.without_add(),
            deletable,
        ).unwrap().children.len() + 1,
        t.visit(s, deletable).unwrap().children.last().children.len() == 0,
{
    lemma_kept_ignores_add(t, s, s.without_add(), t.children.len());
}

/// What the visits of the children leave does not depend on the controls of
/// the node itself.
proof fn lemma_kept_ignores_add(t: Shape, s: Signals, other: Signals, n: nat)
    requires
        s.children == other.children,
    ensures
        t.kept(s, n) == t.kept(other, n),
    decreases n,
{
    if n > 0 && n <= t.children.len() {
        lemma_kept_ignores_add(t, s, other, (n - 1) as nat);
    }
}

/// Adding a child under the node that `path` leads to, and doing nothing
/// else, gives that node one more child, which has no children, and leaves
/// every other node as it is.
pub proof fn lemma_add_child_under(t: Shape, s: Signals, path: Seq<int>, deletable: bool)
    requires
        t.has(path),
        s.adds_only(path, deletable),
    ensures
        t.visit(s, deletable) == Some(t.with_leaf_under(path)),
        t.with_leaf_under(path).has(path),
        t.with_leaf_under(path).at(path).children.len() == t.at(path).children.len() + 1,
        t.with_leaf_under(path).at(path).children.last() == Shape::leaf(),
        t.with_leaf_under(path).at(path).children.drop_last() == t.at(path).children,
    decreases path.len(),
{
    assert(t.children.take(t.children.len() as int) =~= t.children);
    if path.len() == 0 {
        assert forall|i: int| 0 <= i < t.children.len() implies t.visit_child(s, i) == Some(
            t.children[i],
        ) by {
            lemma_quiet_frame_changes_nothing(t.children[i], s.child(i), true);
        }
        lemma_kept_but_one(t, s, -1, None, t.children.len());
        assert(t.children + seq![Shape::leaf()] =~= t.children.push(Shape::leaf()));
    } else {
        let k = path[0];
        assert forall|i: int|
            0 <= i < t.children.len() && i != k implies t.visit_child(s, i) == Some(
            t.children[i],
        ) by {
            lemma_quiet_frame_changes_nothing(t.children[i], s.child(i), true);
        }
        lemma_add_child_under(t.children[k], s.child(k), path.drop_first(), true);
        let child = t.children[k].with_leaf_under(path.drop_first());
        lemma_kept_but_one(t, s, k, Some(child), t.children.len());
    }
}

} // verus!
