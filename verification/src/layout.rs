//! Layout descriptors: the axis along which children are placed, how they
//! sit across that axis, and whether the axis is walked backwards.

use vstd::prelude::*;

verus! {

/// The main axis: the direction along which children follow each other.
#[derive(Clone, Copy, Debug, PartialEq, Eq, Structural)]
pub enum Direction {
    Horizontal,
    Vertical,
}

/// Placement of children across the main axis.
///
/// `Justified` is a placement of its own, not the absence of one: children
/// are stretched over the whole cross-axis extent instead of being packed
/// against an edge or centred.
#[derive(Clone, Copy, Debug, PartialEq, Eq, Structural)]
pub enum Align {
    Min,
    Center,
    Max,
    Justified,
}

/// What a content pass needs to know before it places its first child.
///
/// A `Layout` is a value: once a pass has resolved it, later changes to the
/// settings it was resolved from do not reach it.
#[derive(Clone, Copy, Debug, PartialEq, Eq, Structural)]
pub struct Layout {
    pub dir: Direction,
    pub align: Align,
    pub reversed: bool,
}

impl Direction {
    /// The axis perpendicular to this one.
    pub open spec fn spec_cross(self) -> Direction {
        match self {
            Direction::Horizontal => Direction::Vertical,
            Direction::Vertical => Direction::Horizontal,
        }
    }

    /// The axis perpendicular to this one.
    #[verifier::when_used_as_spec(spec_cross)]
    pub fn cross(self) -> (axis: Direction)
        ensures
            axis == self.spec_cross(),
    {
        match self {
            Direction::Horizontal => Direction::Vertical,
            Direction::Vertical => Direction::Horizontal,
        }
    }
}

impl Layout {
    /// The layout that `dir`, `align` and `reversed` resolve to.
    pub open spec fn resolve(dir: Direction, align: Align, reversed: bool) -> Layout {
        Layout { dir, align, reversed }
    }

    /// The layout along `dir` with placement `align`, walked forwards.
    pub fn from_dir_align(dir: Direction, align: Align) -> (layout: Layout)
        ensures
            layout == Layout::resolve(dir, align, false),
    {
        Layout { dir, align, reversed: false }
    }

    /// The same layout walked the other way along its main axis.
    pub open spec fn spec_reverse(self) -> Layout {
        Layout { dir: self.dir, align: self.align, reversed: !self.reversed }
    }

    /// The same layout walked the other way along its main axis. Direction
    /// and placement across the axis stay as they are.
    #[verifier::when_used_as_spec(spec_reverse)]
    pub fn reverse(self) -> (layout: Layout)
        ensures
            layout == self.spec_reverse(),
    {
        Layout { dir: self.dir, align: self.align, reversed: !self.reversed }
    }

    /// The axis that `align` speaks of: always the one across the main axis.
    pub open spec fn spec_align_axis(self) -> Direction {
        self.dir.spec_cross()
    }

    /// The axis that `align` speaks of: the vertical one for a horizontal
    /// layout, the horizontal one for a vertical layout.
    #[verifier::when_used_as_spec(spec_align_axis)]
    pub fn align_axis(self) -> (axis: Direction)
        ensures
            axis == self.spec_align_axis(),
            axis != self.dir,
    {
        self.dir.cross()
    }

    /// Whether children are stretched over the whole cross-axis extent.
    pub open spec fn spec_is_justified(self) -> bool {
        self.align == Align::Justified
    }

    /// Whether children are stretched over the whole cross-axis extent,
    /// rather than held at `Min`, `Center` or `Max`.
    #[verifier::when_used_as_spec(spec_is_justified)]
    pub fn is_justified(self) -> (justified: bool)
        ensures
            justified == self.spec_is_justified(),
            justified <==> self.align != Align::Min && self.align != Align::Center && self.align
                != Align::Max,
    {
        match self.align {
            Align::Justified => true,
            _ => false,
        }
    }

    /// The place along the main axis, counted from its start, of the child
    /// that is `index`-th of `count` in composition order.
    pub open spec fn spec_slot(self, index: nat, count: nat) -> nat
        recommends
            index < count,
    {
        if self.reversed {
            (count - 1 - index) as nat
        } else {
            index
        }
    }

    /// The place along the main axis, counted from its start, of the child
    /// that is `index`-th of `count` in composition order: `index` itself
    /// when walking forwards, its mirror image when reversed.
    pub fn slot(self, index: usize, count: usize) -> (place: usize)
        requires
            index < count,
        ensures
            place == self.spec_slot(index as nat, count as nat),
            place < count,
    {
        if self.reversed {
            count - 1 - index
        } else {
            index
        }
    }

    /// Reversing a layout mirrors the place of every child along the main
    /// axis, and changes neither the direction nor the placement across it.
    pub proof fn lemma_reverse_mirrors_main_axis(self, index: nat, count: nat)
        requires
            index < count,
        ensures
            self.spec_reverse().spec_slot(index, count) == count - 1 - self.spec_slot(index, count),
            self.spec_reverse().align == self.align,
            self.spec_reverse().dir == self.dir,
            self.spec_reverse().spec_align_axis() == self.spec_align_axis(),
    {
    }

    /// Two layouts resolved from the same direction and placement, one
    /// walked forwards and one reversed, place their children in exactly
    /// opposite order along the main axis and alike across it.
    pub proof fn lemma_reversed_resolves_to_mirror(
        dir: Direction,
        align: Align,
        index: nat,
        count: nat,
    )
        requires
            index < count,
        ensures
            Layout::resolve(dir, align, true) == Layout::resolve(dir, align, false).spec_reverse(),
            Layout::resolve(dir, align, false).spec_slot(index, count) == index,
            Layout::resolve(dir, align, true).spec_slot(index, count) == count - 1 - index,
            Layout::resolve(dir, align, true).align == Layout::resolve(dir, align, false).align,
            Layout::resolve(dir, align, true).spec_align_axis() == Layout::resolve(
                dir,
                align,
                false,
            ).spec_align_axis(),
    {
    }

    /// Reversing twice gives the layout back.
    pub proof fn lemma_reverse_is_involution(self)
        ensures
            self.spec_reverse().spec_reverse() == self,
    {
    }

    /// Whatever the direction and whichever way the axis is walked, a
    /// justified placement resolves to a layout that fills the cross axis
    /// and holds its children at no fixed place across it.
    pub proof fn lemma_justified_fills_cross_axis(dir: Direction, reversed: bool)
        ensures
            Layout::resolve(dir, Align::Justified, reversed).spec_is_justified(),
            Layout::resolve(dir, Align::Justified, reversed).align != Align::Min,
            Layout::resolve(dir, Align::Justified, reversed).align != Align::Center,
            Layout::resolve(dir, Align::Justified, reversed).align != Align::Max,
            Layout::resolve(dir, Align::Justified, reversed).spec_align_axis() == dir.spec_cross(),
    {
    }
}

} // verus!
