//! Freehand painting: a drag of the pointer over a surface, reported frame
//! by frame, is cut into the lines that the user drew.
//!
//! Coordinates and widths are carried as 32-bit words. The painting stores
//! them, hands them back and compares them bit for bit; it never computes
//! with them. A host that measures in single-precision numbers passes each
//! number's bit pattern, and takes the position of the pointer relative to
//! the origin of the surface before it reports it.

use vstd::prelude::*;

verus! {

/// A position on the painting surface, relative to the surface's origin.
///
/// Two points are equal when both coordinates are the same word.
#[derive(Clone, Copy, Debug, PartialEq, Eq, Structural)]
pub struct Point {
    pub x: u32,
    pub y: u32,
}

/// A colour: red, green, blue and opacity, each from 0 to 255.
#[derive(Clone, Copy, Debug, PartialEq, Eq, Structural)]
pub struct Srgba {
    pub r: u8,
    pub g: u8,
    pub b: u8,
    pub a: u8,
}

/// The pen: how wide a line is drawn, and in which colour.
#[derive(Clone, Copy, Debug, PartialEq, Eq, Structural)]
pub struct Stroke {
    pub width: u32,
    pub color: Srgba,
}

/// The bit pattern of the width of the pen that a fresh painting draws with:
/// one unit.
pub const UNIT_WIDTH: u32 = 0x3F80_0000;

impl Srgba {
    /// The colour of the pen that a fresh painting draws with.
    pub open spec fn spec_light_gray() -> Srgba {
        Srgba { r: 220, g: 220, b: 220, a: 255 }
    }

    /// The colour of the pen that a fresh painting draws with.
    #[verifier::when_used_as_spec(spec_light_gray)]
    pub fn light_gray() -> (color: Srgba)
        ensures
            color == Srgba::spec_light_gray(),
    {
        Srgba { r: 220, g: 220, b: 220, a: 255 }
    }

    /// No colour at all: what the lines of a painting are filled with.
    pub open spec fn spec_transparent() -> Srgba {
        Srgba { r: 0, g: 0, b: 0, a: 0 }
    }

    /// No colour at all: what the lines of a painting are filled with.
    #[verifier::when_used_as_spec(spec_transparent)]
    pub fn transparent() -> (color: Srgba)
        ensures
            color == Srgba::spec_transparent(),
    {
        Srgba { r: 0, g: 0, b: 0, a: 0 }
    }
}

/// What the host saw of the pointer during one frame.
#[derive(Clone, Copy, Debug, PartialEq, Eq)]
pub struct Drag {
    /// Whether the pointer is held down over the surface.
    pub active: bool,
    /// Where the pointer is, if the host knows.
    pub pointer: Option<Point>,
}

/// What the user did to the painting demo during one frame.
#[derive(Clone, Copy, Debug, PartialEq, Eq)]
pub struct PaintingInput {
    /// The pen as the pen control left it, if the user changed it.
    pub stroke: Option<Stroke>,
    /// Whether the clear control was activated.
    pub clear: bool,
    /// The pointer over the surface.
    pub drag: Drag,
}

/// One line for the host to paint, in coordinates relative to the origin of
/// the surface.
#[derive(Debug, PartialEq, Eq)]
pub struct Path {
    pub points: Vec<Point>,
    pub closed: bool,
    pub stroke: Stroke,
    pub fill: Srgba,
}

/// The lines drawn so far and the pen they are all drawn with.
///
/// The last line is the current one: the line that a drag extends. A line
/// is closed by the first frame without a drag that finds a point in it.
#[derive(Debug, PartialEq, Eq)]
pub struct Painting {
    pub lines: Vec<Vec<Point>>,
    pub stroke: Stroke,
}

/// A painting as a mathematical value.
pub ghost struct PaintingView {
    pub lines: Seq<Seq<Point>>,
    pub stroke: Stroke,
}

/// A line to paint as a mathematical value.
pub ghost struct PathView {
    pub points: Seq<Point>,
    pub closed: bool,
    pub stroke: Stroke,
    pub fill: Srgba,
}

impl View for Painting {
    type V = PaintingView;

    open spec fn view(&self) -> PaintingView {
        PaintingView { lines: self.lines@.map_values(|l: Vec<Point>| l@), stroke: self.stroke }
    }
}

impl View for Path {
    type V = PathView;

    open spec fn view(&self) -> PathView {
        PathView {
            points: self.points@,
            closed: self.closed,
            stroke: self.stroke,
            fill: self.fill,
        }
    }
}

/// The views of a sequence of paths.
pub open spec fn path_views(paths: Seq<Path>) -> Seq<PathView> {
    paths.map_values(|p: Path| p@)
}

/// The lines with a current line to draw into: an empty collection gets one
/// empty line, any other is left as it is.
pub open spec fn ready(lines: Seq<Seq<Point>>) -> Seq<Seq<Point>> {
    if lines.len() == 0 {
        seq![Seq::empty()]
    } else {
        lines
    }
}

/// The lines after one frame of the pointer.
///
/// While the pen is down at a known place, that place is added to the
/// current line unless it is the point that the line already ends in. A
/// frame without a drag closes a current line that holds a point, by
/// opening an empty one after it; a current line that is still empty stays
/// the current line. A drag whose place is unknown changes nothing.
pub open spec fn dragged(lines: Seq<Seq<Point>>, drag: Drag) -> Seq<Seq<Point>> {
    let lines = ready(lines);
    let current = lines.last();
    if drag.active {
        match drag.pointer {
            Some(p) => if current.len() > 0 && current.last() == p {
                lines
            } else {
                lines.update(lines.len() - 1, current.push(p))
            },
            None => lines,
        }
    } else if current.len() > 0 {
        lines.push(Seq::empty())
    } else {
        lines
    }
}

/// The lines after a run of frames, the first frame first.
pub open spec fn replayed(lines: Seq<Seq<Point>>, drags: Seq<Drag>) -> Seq<Seq<Point>>
    decreases drags.len(),
{
    if drags.len() == 0 {
        lines
    } else {
        dragged(replayed(lines, drags.drop_last()), drags.last())
    }
}

/// The test that a line shows: it has two points or more.
pub open spec fn shows() -> spec_fn(Seq<Point>) -> bool {
    |l: Seq<Point>| l.len() >= 2
}

/// The lines that show, in their order.
pub open spec fn visible(lines: Seq<Seq<Point>>) -> Seq<Seq<Point>> {
    lines.filter(shows())
}

/// The path that a line is painted as with the pen `stroke`: open, and not
/// filled.
pub open spec fn path_of(stroke: Stroke) -> spec_fn(Seq<Point>) -> PathView {
    |l: Seq<Point>|
        PathView { points: l, closed: false, stroke, fill: Srgba::spec_transparent() }
}

/// The order that the collection keeps from frame to frame: every line but
/// the last holds a point, and no line holds the same point twice in a row.
pub open spec fn tidy(lines: Seq<Seq<Point>>) -> bool {
    &&& forall|i: int| 0 <= i < lines.len() - 1 ==> (#[trigger] lines[i]).len() > 0
    &&& forall|i: int, j: int|
        0 <= i < lines.len() && 0 <= j < lines[i].len() - 1 ==> #[trigger] lines[i][j]
            != lines[i][j + 1]
}

impl PaintingView {
    /// The painting that a session starts with: no lines, and a light gray
    /// pen one unit wide.
    pub open spec fn initial() -> PaintingView {
        PaintingView {
            lines: Seq::empty(),
            stroke: Stroke { width: UNIT_WIDTH, color: Srgba::spec_light_gray() },
        }
    }

    /// What the host is to paint: each visible line as an open path, drawn
    /// with the pen and left unfilled.
    pub open spec fn painted(self) -> Seq<PathView> {
        visible(self.lines).map_values(path_of(self.stroke))
    }

    /// The painting after a whole frame: the pen is replaced if the user
    /// changed it, the lines are dropped if the user cleared them, and then
    /// the pointer is followed.
    pub open spec fn after(self, input: PaintingInput) -> PaintingView {
        PaintingView {
            lines: dragged(
                if input.clear {
                    Seq::empty()
                } else {
                    self.lines
                },
                input.drag,
            ),
            stroke: match input.stroke {
                Some(stroke) => stroke,
                None => self.stroke,
            },
        }
    }
}

impl Default for Painting {
    /// No lines, and a light gray pen one unit wide.
    fn default() -> (painting: Painting)
        ensures
            painting@ == PaintingView::initial(),
            tidy(painting@.lines),
    {
        let painting = Painting {
            lines: Vec::new(),
            stroke: Stroke { width: UNIT_WIDTH, color: Srgba::light_gray() },
        };
        assert(painting@.lines =~= Seq::<Seq<Point>>::empty());
        painting
    }
}

/// A copy of `line`.
fn copied(line: &Vec<Point>) -> (copy: Vec<Point>)
    ensures
        copy@ == line@,
{
    let mut copy: Vec<Point> = Vec::new();
    let mut j: usize = 0;
    while j < line.len()
        invariant
            j <= line.len(),
            copy@ == line@.take(j as int),
        decreases line.len() - j,
    {
        copy.push(line[j]);
        j = j + 1;
    }
    copy
}

impl Clone for Path {
    /// A path through the same points, drawn alike.
    fn clone(&self) -> (copy: Path)
        ensures
            copy@ == self@,
    {
        Path {
            points: copied(&self.points),
            closed: self.closed,
            stroke: self.stroke,
            fill: self.fill,
        }
    }
}

impl Clone for Painting {
    /// A painting of the same lines with the same pen.
    fn clone(&self) -> (copy: Painting)
        ensures
            copy@ == self@,
    {
        let mut lines: Vec<Vec<Point>> = Vec::new();
        let mut i: usize = 0;
        while i < self.lines.len()
            invariant
                i <= self.lines.len(),
                lines.len() == i,
                forall|k: int| 0 <= k < i ==> (#[trigger] lines[k])@ == self.lines[k]@,
            decreases self.lines.len() - i,
        {
            lines.push(copied(&self.lines[i]));
            i = i + 1;
        }
        let copy = Painting { lines, stroke: self.stroke };
        assert(copy@.lines =~= self@.lines);
        copy
    }
}

impl Painting {
    /// One frame of the demo: the pen control, the clear control, then the
    /// surface. Returns what the host is to paint on the surface.
    pub fn ui(&mut self, input: &PaintingInput) -> (paths: Vec<Path>)
        ensures
            final(self)@ == old(self)@.after(*input),
            path_views(paths@) == final(self)@.painted(),
            final(self)@.lines.len() >= 1,
            input.clear || tidy(old(self)@.lines) ==> tidy(final(self)@.lines),
    {
        if let Some(stroke) = input.stroke {
            self.stroke = stroke;
        }
        if input.clear {
            self.clear();
        }
        self.content(&input.drag)
    }

    /// Drops every line, the current one too. The pen stays.
    pub fn clear(&mut self)
        ensures
            final(self)@.lines == Seq::<Seq<Point>>::empty(),
            final(self)@.stroke == old(self)@.stroke,
            tidy(final(self)@.lines),
    {
        self.lines.clear();
    }

    /// The surface during one frame: follows the pointer, then returns what
    /// the host is to paint.
    pub fn content(&mut self, drag: &Drag) -> (paths: Vec<Path>)
        ensures
            final(self)@.lines == dragged(old(self)@.lines, *drag),
            final(self)@.stroke == old(self)@.stroke,
            path_views(paths@) == final(self)@.painted(),
            final(self)@.lines.len() >= 1,
            tidy(old(self)@.lines) ==> tidy(final(self)@.lines),
    {
        self.capture(drag);
        self.paths()
    }

    /// Follows the pointer for one frame.
    pub fn capture(&mut self, drag: &Drag)
        ensures
            final(self)@.lines == dragged(old(self)@.lines, *drag),
            final(self)@.stroke == old(self)@.stroke,
            final(self)@.lines.len() >= 1,
            tidy(old(self)@.lines) ==> tidy(final(self)@.lines),
    {
        proof {
            lemma_drag_keeps_tidy(self@.lines, *drag);
        }
        if self.lines.is_empty() {
            self.lines.push(Vec::new());
        }
        let last: usize = self.lines.len() - 1;
        if drag.active {
            if let Some(p) = drag.pointer {
                let n: usize = self.lines[last].len();
                if n == 0 || self.lines[last][n - 1] != p {
                    self.lines[last].push(p);
                }
            }
        } else if !self.lines[last].is_empty() {
            self.lines.push(Vec::new());
        }
    }

    /// What the host is to paint: the lines of two points or more, in the
    /// order in which they were drawn, each as an open, unfilled path drawn
    /// with the pen. Shorter lines do not show.
    pub fn paths(&self) -> (paths: Vec<Path>)
        ensures
            path_views(paths@) == self@.painted(),
    {
        let mut paths: Vec<Path> = Vec::new();
        let mut i: usize = 0;
        let ghost shows = shows();
        let ghost path_of = path_of(self.stroke);
        assert(Seq::<Seq<Point>>::empty().filter(shows) =~= Seq::<Seq<Point>>::empty()) by {
            reveal(Seq::filter);
        }
        while i < self.lines.len()
            invariant
                i <= self.lines.len(),
                shows == self::shows(),
                path_of == self::path_of(self.stroke),
                path_views(paths@) == self@.lines.take(i as int).filter(shows).map_values(path_of),
            decreases self.lines.len() - i,
        {
            let ghost seen = self@.lines.take(i as int);
            let ghost line = self@.lines[i as int];
            assert(self@.lines.take(i + 1) =~= seen.push(line));
            proof {
                seen.lemma_filter_push(line, shows);
            }
            if self.lines[i].len() >= 2 {
                let path = Path {
                    points: copied(&self.lines[i]),
                    closed: false,
                    stroke: self.stroke,
                    fill: Srgba::transparent(),
                };
                paths.push(path);
                assert(seen.filter(shows).push(line).map_values(path_of) =~= seen.filter(
                    shows,
                ).map_values(path_of).push(path_of(line)));
            }
            i = i + 1;
        }
        assert(self@.lines.take(self.lines.len() as int) =~= self@.lines);
        paths
    }
}

/// A frame leaves at least one line, and keeps a tidy collection tidy.
pub proof fn lemma_drag_keeps_tidy(lines: Seq<Seq<Point>>, drag: Drag)
    ensures
        dragged(lines, drag).len() >= 1,
        dragged(lines, drag).len() >= lines.len(),
        tidy(lines) ==> tidy(dragged(lines, drag)),
{
}

} // verus!
