//! A tree of nested sections that the user edits while it is shown: every
//! section but the root can be deleted, and every section can be given one
//! more child.
//!
//! A node has no name of its own. Its section is named after the place it
//! has among its siblings when the frame begins, so the host's report of a
//! frame is a tree of answers laid out like the tree it was shown.

use vstd::prelude::*;
use vstd::string::*;

verus! {

/// A node: the sequence of its children, in order. A node owns its children
/// and nothing else.
#[derive(Debug, PartialEq, Eq)]
pub struct Tree(pub Vec<Tree>);

/// What the visit of a node tells the node's parent.
#[derive(Clone, Copy, Debug, PartialEq, Eq, Structural)]
pub enum Action {
    /// The node stays among its siblings.
    Keep,
    /// The node and all below it are to go.
    Delete,
}

/// What the host saw of one section during one frame.
#[derive(Debug, PartialEq, Eq)]
pub struct TreeInput {
    /// Whether the section was open, so that its content was shown. Nothing
    /// can be done to what is not shown: the other fields of a closed
    /// section are not read.
    pub open: bool,
    /// Whether the delete control was activated. The root shows no such
    /// control, and the flag is not read there.
    pub delete: bool,
    /// Whether the control that adds a child was activated.
    pub add: bool,
    /// What the host saw of the sections of the children, in the order in
    /// which the node held them when the frame began. A child for which
    /// nothing is reported counts as not shown.
    pub children: Vec<TreeInput>,
}

/// A tree as a mathematical value.
pub ghost struct Shape {
    pub children: Seq<Shape>,
}

/// A report as a mathematical value.
pub ghost struct Signals {
    pub open: bool,
    pub delete: bool,
    pub add: bool,
    pub children: Seq<Signals>,
}

impl View for Tree {
    type V = Shape;

    open spec fn view(&self) -> Shape
        decreases self,
    {
        Shape {
            children: Seq::new(
                self.0.len() as nat,
                |i: int|
                    if 0 <= i < self.0.len() {
                        self.0[i].view()
                    } else {
                        Shape::leaf()
                    },
            ),
        }
    }
}

impl View for TreeInput {
    type V = Signals;

    open spec fn view(&self) -> Signals
        decreases self,
    {
        Signals {
            open: self.open,
            delete: self.delete,
            add: self.add,
            children: Seq::new(
                self.children.len() as nat,
                |i: int|
                    if 0 <= i < self.children.len() {
                        self.children[i].view()
                    } else {
                        Signals::unvisited()
                    },
            ),
        }
    }
}

/// The views of a sequence of trees.
pub open spec fn shapes(trees: Seq<Tree>) -> Seq<Shape> {
    trees.map_values(|t: Tree| t@)
}

impl Signals {
    /// The report of a section that was not shown.
    pub open spec fn unvisited() -> Signals {
        Signals { open: false, delete: false, add: false, children: Seq::empty() }
    }

    /// This report as that of an open section.
    pub open spec fn opened(self) -> Signals {
        Signals { open: true, ..self }
    }

    /// This report with the add control left alone.
    pub open spec fn without_add(self) -> Signals {
        Signals { add: false, ..self }
    }

    /// What the add control brings: one childless node where it was
    /// activated, nothing else.
    pub open spec fn added(self) -> Seq<Shape> {
        if self.add {
            seq![Shape::leaf()]
        } else {
            Seq::empty()
        }
    }

    /// The report for the child at place `i`: the one given, or that of a
    /// section not shown where none is given.
    pub open spec fn child(self, i: int) -> Signals {
        if 0 <= i < self.children.len() {
            self.children[i]
        } else {
            Signals::unvisited()
        }
    }
}

impl Shape {
    /// The node without children.
    pub open spec fn leaf() -> Shape {
        Shape { children: Seq::empty() }
    }

    /// The node whose children are `count` copies of `child`.
    pub open spec fn fan(count: nat, child: Shape) -> Shape {
        Shape { children: Seq::new(count, |i: int| child) }
    }

    /// The tree that the demo starts from: a node with four childless
    /// children, and beside it a node with three children of two childless
    /// children each.
    pub open spec fn demo() -> Shape {
        Shape {
            children: seq![
                Shape::fan(4, Shape::leaf()),
                Shape::fan(3, Shape::fan(2, Shape::leaf())),
            ],
        }
    }

    /// What the visit of this node leaves of it: `None` where the node is to
    /// be deleted, else the node as it is after the frame.
    ///
    /// A section that is not open is left alone. In an open section the
    /// delete control comes first, and `deletable` says whether there is
    /// one; where it was activated nothing below the node is looked at.
    /// Else the children are visited in order and those to be deleted
    /// are dropped, and then, if the add control was activated, a childless
    /// node is put after them.
    pub open spec fn visit(self, s: Signals, deletable: bool) -> Option<Shape>
        decreases self, self.children.len() + 1,
    {
        if !s.open {
            Some(self)
        } else if deletable && s.delete {
            None
        } else {
            Some(Shape { children: self.kept(s, self.children.len()) + s.added() })
        }
    }

    /// What the visit of the child at place `i` leaves of it. A child can
    /// always be deleted.
    pub open spec fn visit_child(self, s: Signals, i: int) -> Option<Shape>
        recommends
            0 <= i < self.children.len(),
    {
        self.children[i].visit(s.child(i), true)
    }

    /// What the visits of the first `n` children leave, in order.
    pub open spec fn kept(self, s: Signals, n: nat) -> Seq<Shape>
        decreases self, n,
    {
        if n == 0 || n > self.children.len() {
            Seq::empty()
        } else {
            let before = self.kept(s, (n - 1) as nat);
            match self.children[n - 1].visit(s.child(n - 1), true) {
                Some(child) => before.push(child),
                None => before,
            }
        }
    }
}

/// The character of a decimal digit.
pub open spec fn digit(d: nat) -> char
    recommends
        d < 10,
{
    if d == 0 {
        '0'
    } else if d == 1 {
        '1'
    } else if d == 2 {
        '2'
    } else if d == 3 {
        '3'
    } else if d == 4 {
        '4'
    } else if d == 5 {
        '5'
    } else if d == 6 {
        '6'
    } else if d == 7 {
        '7'
    } else if d == 8 {
        '8'
    } else {
        '9'
    }
}

/// A number in decimal digits, without leading zeros.
pub open spec fn decimal(n: nat) -> Seq<char>
    decreases n,
{
    if n < 10 {
        seq![digit(n)]
    } else {
        decimal(n / 10).push(digit(n % 10))
    }
}

/// The name of the section of the child at place `index`.
pub open spec fn spec_child_name(index: nat) -> Seq<char> {
    "child #"@ + decimal(index)
}

/// The text of one decimal digit.
fn digit_text(d: usize) -> (text: &'static str)
    requires
        d < 10,
    ensures
        text@ == seq![digit(d as nat)],
{
    proof {
        reveal_strlit("0");
        reveal_strlit("1");
        reveal_strlit("2");
        reveal_strlit("3");
        reveal_strlit("4");
        reveal_strlit("5");
        reveal_strlit("6");
        reveal_strlit("7");
        reveal_strlit("8");
        reveal_strlit("9");
    }
    let text = if d == 0 {
        "0"
    } else if d == 1 {
        "1"
    } else if d == 2 {
        "2"
    } else if d == 3 {
        "3"
    } else if d == 4 {
        "4"
    } else if d == 5 {
        "5"
    } else if d == 6 {
        "6"
    } else if d == 7 {
        "7"
    } else if d == 8 {
        "8"
    } else {
        "9"
    };
    text
}

/// Writes `n` in decimal digits after what `text` holds.
fn append_decimal(text: &mut String, n: usize)
    ensures
        final(text)@ == old(text)@ + decimal(n as nat),
    decreases n,
{
    if n >= 10 {
        append_decimal(text, n / 10);
    }
    text.append(digit_text(n % 10));
}

impl Clone for Tree {
    /// A tree of the same shape, which shares nothing with this one.
    fn clone(&self) -> (copy: Tree)
        ensures
            copy@ == self@,
        decreases self,
    {
        let mut children: Vec<Tree> = Vec::new();
        let mut i: usize = 0;
        while i < self.0.len()
            invariant
                i <= self.0.len(),
                children.len() == i,
                forall|k: int| 0 <= k < i ==> (#[trigger] children[k])@ == self.0[k]@,
            decreases self.0.len() - i,
        {
            let child = self.0[i].clone();
            children.push(child);
            i = i + 1;
        }
        let copy = Tree(children);
        assert(copy@.children =~= self@.children);
        copy
    }
}

impl Default for TreeInput {
    /// The report of a section that was not shown.
    fn default() -> (input: TreeInput)
        ensures
            input@ == Signals::unvisited(),
    {
        let input = TreeInput { open: false, delete: false, add: false, children: Vec::new() };
        assert(input@.children =~= Seq::empty());
        input
    }
}

impl Default for Tree {
    /// The node without children.
    fn default() -> (tree: Tree)
        ensures
            tree@ == Shape::leaf(),
    {
        let tree = Tree(Vec::new());
        assert(tree@.children =~= Seq::empty());
        tree
    }
}

impl Tree {
    /// The name of the root's section.
    pub const ROOT_NAME: &'static str = "root";

    /// The node whose children are `count` copies of `child`.
    fn fan(count: usize, child: &Tree) -> (tree: Tree)
        ensures
            tree@ == Shape::fan(count as nat, child@),
    {
        let mut children: Vec<Tree> = Vec::new();
        let mut i: usize = 0;
        while i < count
            invariant
                i <= count,
                children.len() == i,
                forall|k: int| 0 <= k < i ==> (#[trigger] children[k])@ == child@,
            decreases count - i,
        {
            children.push(child.clone());
            i = i + 1;
        }
        let tree = Tree(children);
        assert(tree@.children =~= Shape::fan(count as nat, child@).children);
        tree
    }

    /// The tree that the demo starts from.
    pub fn demo() -> (tree: Tree)
        ensures
            tree@ == Shape::demo(),
    {
        let leaf = Tree::default();
        let mut children: Vec<Tree> = Vec::new();
        children.push(Tree::fan(4, &leaf));
        children.push(Tree::fan(3, &Tree::fan(2, &leaf)));
        let tree = Tree(children);
        assert(tree@.children =~= Shape::demo().children);
        tree
    }

    /// The name of the section of the child at place `index`: the text
    /// "child #" and the place in decimal digits.
    pub fn child_name(index: usize) -> (name: String)
        ensures
            name@ == spec_child_name(index as nat),
    {
        let mut name = String::from_str("child #");
        append_decimal(&mut name, index);
        name
    }

    /// Whether the section of a node at `depth` starts out open: only the
    /// root's does.
    pub fn default_open(depth: usize) -> (open: bool)
        ensures
            open <==> depth == 0,
    {
        depth < 1
    }

    /// Whether the section of a node at `depth` shows a delete control:
    /// every section does but the root's.
    pub fn can_delete(depth: usize) -> (deletable: bool)
        ensures
            deletable <==> depth > 0,
    {
        depth > 0
    }

    /// One frame of the tree: visits the root with what the host saw. The
    /// root cannot be deleted, so the answer is always `Keep`; callers may
    /// drop it.
    pub fn ui(&mut self, input: &TreeInput) -> (action: Action)
        ensures
            action == Action::Keep,
            Some(final(self)@) == old(self)@.visit(input@, false),
    {
        self.ui_impl(input, 0)
    }

    /// Visits the node at `depth` with what the host saw of its section.
    ///
    /// Returns `Delete`, and leaves the node as it is, where the node is to
    /// be deleted; the caller drops it. Returns `Keep` else, with the node
    /// as the frame leaves it.
    pub fn ui_impl(&mut self, input: &TreeInput, depth: usize) -> (action: Action)
        ensures
            action == Action::Keep <==> old(self)@.visit(input@, depth > 0).is_some(),
            action == Action::Keep ==> Some(final(self)@) == old(self)@.visit(input@, depth > 0),
            action == Action::Delete ==> final(self)@ == old(self)@,
        decreases old(self)@, 1nat,
    {
        if !input.open {
            return Action::Keep;
        }
        self.children_ui(input, depth)
    }

    /// The content of the open section of the node at `depth`: the delete
    /// control, the children, the control that adds a child. Does not read
    /// `input.open`.
    ///
    /// The children are taken out of the node, visited one by one, and those
    /// that stay are collected in a new sequence, which the node gets in one
    /// step when all have been visited. A child that is added is not visited
    /// in the frame that adds it.
    pub fn children_ui(&mut self, input: &TreeInput, depth: usize) -> (action: Action)
        ensures
            action == Action::Keep <==> old(self)@.visit(input@.opened(), depth > 0).is_some(),
            action == Action::Keep ==> Some(final(self)@) == old(self)@.visit(
                input@.opened(),
                depth > 0,
            ),
            action == Action::Delete ==> final(self)@ == old(self)@,
        decreases old(self)@, 0nat,
    {
        if depth > 0 && input.delete {
            return Action::Delete;
        }
        let child_depth: usize = if depth < usize::MAX {
            depth + 1
        } else {
            depth
        };
        let ghost before = self@;
        let ghost signals = input@.opened();
        let mut children: Vec<Tree> = Vec::new();
        std::mem::swap(&mut self.0, &mut children);
        let mut rebuilt: Vec<Tree> = Vec::new();
        let mut i: usize = 0;
        for child in it: children.into_iter()
            invariant
                i == it.index(),
                before == old(self)@,
                signals == input@.opened(),
                child_depth > 0,
                shapes(it.seq()) == before.children,
                shapes(rebuilt@) == before.kept(signals, i as nat),
        {
            let mut child = child;
            let unvisited = TreeInput::default();
            let child_input = if i < input.children.len() {
                &input.children[i]
            } else {
                &unvisited
            };
            proof {
                assert(before.kept(signals, (i + 1) as nat) == match before.visit_child(
                    signals,
                    i as int,
                ) {
                    Some(c) => before.kept(signals, i as nat).push(c),
                    None => before.kept(signals, i as nat),
                });
            }
            match child.ui_impl(child_input, child_depth) {
                Action::Keep => {
                    rebuilt.push(child);
                },
                Action::Delete => {},
            }
            i = i + 1;
        }
        let ghost sofar = rebuilt@;
        if input.add {
            rebuilt.push(Tree::default());
            assert(shapes(rebuilt@) =~= shapes(sofar) + seq![Shape::leaf()]);
        }
        self.0 = rebuilt;
        assert(self@.children =~= shapes(rebuilt@));
        Action::Keep
    }
}

} // verus!
