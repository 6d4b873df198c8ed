//! What holds of a painting over any run of frames.

use vstd::prelude::*;
use crate::painting::{
    dragged, lemma_drag_keeps_tidy, ready, replayed, tidy, Drag, PaintingInput, PaintingView, Point,
};

verus! {

/// The frame in which the pen is down at `p`.
pub open spec fn pen_down(p: Point) -> Drag {
    Drag { active: true, pointer: Some(p) }
}

/// The frames of an unbroken drag through `points`, one frame for each.
pub open spec fn drag_through(points: Seq<Point>) -> Seq<Drag> {
    points.map_values(|p: Point| pen_down(p))
}

/// `points` without the points that repeat the one before them.
pub open spec fn without_repeats(points: Seq<Point>) -> Seq<Point>
    decreases points.len(),
{
    if points.len() == 0 {
        points
    } else {
        let before = without_repeats(points.drop_last());
        if points.len() >= 2 && points[points.len() - 2] == points.last() {
            before
        } else {
            before.push(points.last())
        }
    }
}

/// What is left of a run of points ends in the point that the run ends in,
/// and is empty only if the run is.
pub proof fn lemma_without_repeats_last(points: Seq<Point>)
    ensures
        without_repeats(points).len() <= points.len(),
        points.len() > 0 ==> without_repeats(points).len() > 0 && without_repeats(points).last()
            == points.last(),
    decreases points.len(),
{
    if points.len() > 0 {
        lemma_without_repeats_last(points.drop_last());
    }
}

/// A run of frames leaves at least as many lines as it found, at least one
/// if it has a frame at all, and keeps a tidy collection tidy.
pub proof fn lemma_replay_keeps_tidy(lines: Seq<Seq<Point>>, drags: Seq<Drag>)
    ensures
        replayed(lines, drags).len() >= lines.len(),
        drags.len() > 0 ==> replayed(lines, drags).len() >= 1,
        tidy(lines) ==> tidy(replayed(lines, drags)),
    decreases drags.len(),
{
    if drags.len() > 0 {
        lemma_replay_keeps_tidy(lines, drags.drop_last());
        lemma_drag_keeps_tidy(replayed(lines, drags.drop_last()), drags.last());
    }
}

/// Frames without a drag do not pile up empty lines: after one such frame a
/// second changes nothing.
pub proof fn lemma_release_is_idempotent(lines: Seq<Seq<Point>>, first: Drag, second: Drag)
    requires
        !first.active,
        !second.active,
    ensures
        dragged(dragged(lines, first), second) == dragged(lines, first),
{
}

/// A pointer that rests where the current line ends adds nothing to it.
pub proof fn lemma_resting_pointer_adds_nothing(lines: Seq<Seq<Point>>, p: Point)
    ensures
        dragged(dragged(lines, pen_down(p)), pen_down(p)) == dragged(lines, pen_down(p)),
{
}

/// A frame never touches a line that was closed before it: every line but
/// the current one comes out as it went in.
pub proof fn lemma_closed_lines_stay(lines: Seq<Seq<Point>>, drag: Drag, i: int)
    requires
        0 <= i < lines.len() - 1,
    ensures
        dragged(lines, drag)[i] == lines[i],
{
}

/// An unbroken drag that starts on an empty current line leaves in that
/// line the points it went through, without those that repeat the point
/// before them, and leaves every other line alone.
pub proof fn lemma_drag_draws_one_line(lines: Seq<Seq<Point>>, points: Seq<Point>)
    requires
        points.len() > 0,
        ready(lines).last().len() == 0,
    ensures
        replayed(lines, drag_through(points)) == ready(lines).update(
            ready(lines).len() - 1,
            without_repeats(points),
        ),
    decreases points.len(),
{
    let drags = drag_through(points);
    assert(drags.drop_last() =~= drag_through(points.drop_last()));
    if points.len() == 1 {
        assert(replayed(lines, drags.drop_last()) == lines);
        assert(without_repeats(points) =~= seq![points.last()]);
        assert(ready(lines).last().push(points.last()) =~= seq![points.last()]);
    } else {
        lemma_drag_draws_one_line(lines, points.drop_last());
        lemma_without_repeats_last(points.drop_last());
    }
}

/// The frame after a drag, with the pen up, closes the line that the drag
/// drew and opens an empty one after it.
pub proof fn lemma_release_closes_the_line(lines: Seq<Seq<Point>>, points: Seq<Point>, up: Drag)
    requires
        points.len() > 0,
        ready(lines).last().len() == 0,
        !up.active,
    ensures
        replayed(lines, drag_through(points).push(up)) == ready(lines).update(
            ready(lines).len() - 1,
            without_repeats(points),
        ).push(Seq::empty()),
{
    let drags = drag_through(points).push(up);
    assert(drags.drop_last() =~= drag_through(points));
    lemma_drag_draws_one_line(lines, points);
    lemma_without_repeats_last(points);
}

/// Once the lines are cleared, nothing of what was drawn before tells in
/// what is drawn after: two paintings that see the same frame with the
/// clear control activated, and then the same frames, hold the same lines.
pub proof fn lemma_clear_forgets_history(
    one: PaintingView,
    other: PaintingView,
    input: PaintingInput,
    drags: Seq<Drag>,
)
    requires
        input.clear,
    ensures
        one.after(input).lines == dragged(Seq::empty(), input.drag),
        replayed(one.after(input).lines, drags) == replayed(other.after(input).lines, drags),
{
}

} // verus!
