//! Where the nodes of a tree come from after any number of frames.
//!
//! Nodes have no names, so what a run of edits leaves can only be told by
//! place. A lineage tells it: for a tree as it was and as it is, it gives
//! for each node that is still there the place it had among its siblings.

use vstd::prelude::*;
use crate::tree::{Shape, Signals};
use crate::tree_laws::lemma_kept_children_keep_their_order;

verus! {

/// For one node as it was and as it is: which of its children are still
/// there, and where each of them stood.
///
/// The children that are still there come first among the children as they
/// are now, in places `0 .. origin.len()`; `origin[j]` is the place that the
/// child now at place `j` had, and `below[j]` tells the same of that
/// child's own children. The children after them were added since.
pub ghost struct Lineage {
    pub origin: Seq<int>,
    pub below: Seq<Lineage>,
}

impl Lineage {
    /// The lineage that names no child.
    pub open spec fn none() -> Lineage {
        Lineage { origin: Seq::empty(), below: Seq::empty() }
    }

    /// Whether this lineage leads from `old` to `new`: every place it names
    /// is there, the places of old rise with the places of new, so that no
    /// two children that stay change their order, and the same holds below
    /// each child that stays.
    pub open spec fn links(self, old: Shape, new: Shape) -> bool
        decreases self,
    {
        &&& self.origin.len() == self.below.len()
        &&& self.origin.len() <= new.children.len()
        &&& forall|j: int|
            0 <= j < self.origin.len() ==> 0 <= #[trigger] self.origin[j] < old.children.len()
        &&& forall|j: int, k: int|
            0 <= j < k < self.origin.len() ==> self.origin[j] < self.origin[k]
        &&& forall|j: int|
            0 <= j < self.below.len() ==> (#[trigger] self.below[j]).links(
                old.children[self.origin[j]],
                new.children[j],
            )
    }

    /// The lineage of a tree to which nothing was done: every child stands
    /// where it stood.
    pub open spec fn same(t: Shape) -> Lineage
        decreases t,
    {
        Lineage {
            origin: Seq::new(t.children.len(), |j: int| j),
            below: Seq::new(
                t.children.len(),
                |j: int|
                    if 0 <= j < t.children.len() {
                        Lineage::same(t.children[j])
                    } else {
                        Lineage::none()
                    },
            ),
        }
    }

    /// How many of the first `n` places are below `bound`.
    pub open spec fn count_below(origin: Seq<int>, bound: int, n: nat) -> nat
        decreases n,
    {
        if n == 0 || n > origin.len() {
            0
        } else {
            Lineage::count_below(origin, bound, (n - 1) as nat) + if origin[n - 1] < bound {
                1nat
            } else {
                0nat
            }
        }
    }

    /// How many children are still there after this lineage and then
    /// `next`: those that `next` traces to a child that this lineage traces
    /// in its turn.
    pub open spec fn still_there(self, next: Lineage) -> nat {
        Lineage::count_below(next.origin, self.origin.len() as int, next.origin.len())
    }

    /// This lineage and then `next`, as one: a child is traced through both,
    /// first to where `next` says it stood, and from there to where this
    /// lineage says that one stood.
    pub open spec fn followed_by(self, next: Lineage) -> Lineage
        decreases next,
    {
        Lineage {
            origin: Seq::new(self.still_there(next), |j: int| self.origin[next.origin[j]]),
            below: Seq::new(
                self.still_there(next),
                |j: int|
                    if 0 <= j < next.below.len() {
                        self.below[next.origin[j]].followed_by(next.below[j])
                    } else {
                        Lineage::none()
                    },
            ),
        }
    }
}

impl Shape {
    /// The lineage that one visit leaves: the children that stay, each with
    /// the place it had, and below each of them the lineage that its own
    /// visit leaves. A section that is not open keeps all as it stood.
    pub open spec fn frame_lineage(self, s: Signals, deletable: bool) -> Lineage
        decreases self,
    {
        if !s.open || (deletable && s.delete) {
            Lineage::same(self)
        } else {
            let places = self.kept_places(s, self.children.len());
            Lineage {
                origin: places,
                below: Seq::new(
                    places.len(),
                    |j: int|
                        if 0 <= j < places.len() && 0 <= places[j] < self.children.len() {
                            self.children[places[j]].frame_lineage(s.child(places[j]), true)
                        } else {
                            Lineage::none()
                        },
                ),
            }
        }
    }

    /// The tree after a run of frames, the first frame first, each visiting
    /// the root.
    pub open spec fn replayed(self, reports: Seq<Signals>) -> Shape
        decreases reports.len(),
    {
        if reports.len() == 0 {
            self
        } else {
            let before = self.replayed(reports.drop_last());
            match before.visit(reports.last(), false) {
                Some(after) => after,
                None => before,
            }
        }
    }

    /// The lineage that a run of frames leaves: the lineages of the frames,
    /// one followed by the next.
    pub open spec fn lineage(self, reports: Seq<Signals>) -> Lineage
        decreases reports.len(),
    {
        if reports.len() == 0 {
            Lineage::same(self)
        } else {
            self.lineage(reports.drop_last()).followed_by(
                self.replayed(reports.drop_last()).frame_lineage(reports.last(), false),
            )
        }
    }
}

/// A tree to which nothing was done has the lineage in which every child
/// stands where it stood.
pub proof fn lemma_same_links(t: Shape)
    ensures
        Lineage::same(t).links(t, t),
        Lineage::same(t).origin.len() == t.children.len(),
    decreases t,
{
    let l = Lineage::same(t);
    assert forall|j: int| 0 <= j < l.below.len() implies (#[trigger] l.below[j]).links(
        t.children[l.origin[j]],
        t.children[j],
    ) by {
        lemma_same_links(t.children[j]);
    }
}

/// Where places rise, those below a bound come first: of the first `n`
/// places, exactly the first `count_below` are below the bound.
proof fn lemma_count_below(origin: Seq<int>, bound: int, n: nat)
    requires
        n <= origin.len(),
        forall|j: int, k: int| 0 <= j < k < origin.len() ==> origin[j] < origin[k],
    ensures
        Lineage::count_below(origin, bound, n) <= n,
        forall|j: int| 0 <= j < Lineage::count_below(origin, bound, n) ==> origin[j] < bound,
        forall|j: int| Lineage::count_below(origin, bound, n) <= j < n ==> origin[j] >= bound,
    decreases n,
{
    if n > 0 {
        lemma_count_below(origin, bound, (n - 1) as nat);
    }
}

/// Lineages follow one another. From a lineage that leads from `a` to `b`
/// and one that leads from `b` to `c` comes one that leads from `a` to `c`,
/// and it names the right children: a child of `c` is traced to `a` if and
/// only if `next` traces it to a child of `b` that `first` traces to `a`,
/// and then to the place that the two of them give.
pub proof fn lemma_lineages_follow(a: Shape, b: Shape, c: Shape, first: Lineage, next: Lineage)
    requires
        first.links(a, b),
        next.links(b, c),
    ensures
        first.followed_by(next).links(a, c),
        first.followed_by(next).origin.len() == first.still_there(next),
        first.still_there(next) <= next.origin.len(),
        forall|j: int|
            0 <= j < first.still_there(next) ==> 0 <= #[trigger] next.origin[j]
                < first.origin.len() && first.followed_by(next).origin[j]
                == first.origin[next.origin[j]],
        forall|j: int|
            first.still_there(next) <= j < next.origin.len() ==> #[trigger] next.origin[j]
                >= first.origin.len(),
    decreases next,
{
    lemma_count_below(next.origin, first.origin.len() as int, next.origin.len());
    let l = first.followed_by(next);
    assert forall|j: int| 0 <= j < l.below.len() implies (#[trigger] l.below[j]).links(
        a.children[l.origin[j]],
        c.children[j],
    ) by {
        let i = next.origin[j];
        lemma_lineages_follow(
            a.children[first.origin[i]],
            b.children[i],
            c.children[j],
            first.below[i],
            next.below[j],
        );
    }
}

/// The lineage that a visit leaves leads from the tree that the visit found
/// to the tree that it left. Where the section was open, the children it
/// traces are exactly those that stay, and the only child it does not trace
/// is the one that the frame added.
pub proof fn lemma_frame_lineage_links(t: Shape, s: Signals, deletable: bool)
    requires
        t.visit(s, deletable).is_some(),
    ensures
        t.frame_lineage(s, deletable).links(t, t.visit(s, deletable).unwrap()),
        s.open ==> t.frame_lineage(s, deletable).origin == t.kept_places(s, t.children.len()),
        s.open ==> t.visit(s, deletable).unwrap().children.len() == t.frame_lineage(
            s,
            deletable,
        ).origin.len() + s.added().len(),
    decreases t,
{
    if !s.open {
        lemma_same_links(t);
    } else {
        let l = t.frame_lineage(s, deletable);
        let after = t.visit(s, deletable).unwrap();
        lemma_kept_children_keep_their_order(t, s, t.children.len());
        assert forall|j: int| 0 <= j < l.below.len() implies (#[trigger] l.below[j]).links(
            t.children[l.origin[j]],
            after.children[j],
        ) by {
            let i = l.origin[j];
            lemma_frame_lineage_links(t.children[i], s.child(i), true);
        }
    }
}

/// After any run of frames, the nodes that are still there stand in the
/// order in which they stood. The lineage of the run leads from the tree
/// that the run began with to the tree that it left: at every node, the
/// children that every frame kept fill the places from 0 on without a gap,
/// in their old order, and the children added since come after them.
pub proof fn lemma_survivors_keep_their_order(t: Shape, reports: Seq<Signals>)
    ensures
        t.lineage(reports).links(t, t.replayed(reports)),
    decreases reports.len(),
{
    if reports.len() == 0 {
        lemma_same_links(t);
    } else {
        lemma_survivors_keep_their_order(t, reports.drop_last());
        let before = t.replayed(reports.drop_last());
        lemma_frame_lineage_links(before, reports.last(), false);
        lemma_lineages_follow(
            t,
            before,
            t.replayed(reports),
            t.lineage(reports.drop_last()),
            before.frame_lineage(reports.last(), false),
        );
    }
}

} // verus!
