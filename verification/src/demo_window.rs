//! The demo window: the sections whose state is kept here, side by side.
//!
//! Each section of the window is closed or open. The host composes the
//! content of the open ones only, so only for those is there anything to
//! report, and only those change.

use vstd::prelude::*;
use crate::layout::Layout;
use crate::layout_demo::{LayoutDemo, LayoutInput};
use crate::painting::{path_views, Painting, PaintingInput, PaintingView, Path};
use crate::tree::{Shape, Tree, TreeInput};

verus! {

/// The state of the window, kept from frame to frame.
#[derive(Debug, PartialEq, Eq)]
pub struct DemoWindow {
    pub num_columns: usize,
    pub layout: LayoutDemo,
    pub tree: Tree,
    pub painting: Painting,
}

/// What the user did to the columns section during one frame.
#[derive(Clone, Copy, Debug, PartialEq, Eq, Structural)]
pub struct ColumnsInput {
    /// The number of columns as the control that sets it left it.
    pub num_columns: usize,
    /// Whether the delete control, which only the last column shows, was
    /// activated.
    pub delete_last: bool,
}

/// What the user did to the window during one frame, section by section:
/// `None` for a section that was closed.
#[derive(Debug, PartialEq, Eq)]
pub struct DemoInput {
    pub layout: Option<LayoutInput>,
    pub tree: Option<TreeInput>,
    pub columns: Option<ColumnsInput>,
    pub painting: Option<PaintingInput>,
}

/// What the host is to do with the sections it composes.
#[derive(Debug, PartialEq, Eq)]
pub struct DemoOutput {
    /// The layout to place the controls of the layout section with, where
    /// that section is open.
    pub layout: Option<Layout>,
    /// The lines to paint on the painting surface, where that section is
    /// open.
    pub paths: Option<Vec<Path>>,
}

/// A window as a mathematical value.
pub ghost struct DemoWindowView {
    pub num_columns: nat,
    pub layout: LayoutDemo,
    pub tree: Shape,
    pub painting: PaintingView,
}

impl View for DemoWindow {
    type V = DemoWindowView;

    open spec fn view(&self) -> DemoWindowView {
        DemoWindowView {
            num_columns: self.num_columns as nat,
            layout: self.layout,
            tree: self.tree@,
            painting: self.painting@,
        }
    }
}

/// The number of columns after a frame: the number that the control set,
/// less one if the delete control of the last column was activated. Without
/// columns there is no last column to delete.
pub open spec fn columns_after(input: ColumnsInput) -> nat {
    if input.delete_last && input.num_columns > 0 {
        (input.num_columns - 1) as nat
    } else {
        input.num_columns as nat
    }
}

impl DemoWindowView {
    /// The window that a session starts with: two columns, the initial
    /// layout settings, the demo tree, and an empty painting.
    pub open spec fn initial() -> DemoWindowView {
        DemoWindowView {
            num_columns: 2,
            layout: LayoutDemo::initial(),
            tree: Shape::demo(),
            painting: PaintingView::initial(),
        }
    }

    /// The window after a frame: each section that was open as its own
    /// rules leave it, each closed section as it was. The root of the tree
    /// cannot be deleted, so the tree is always there.
    pub open spec fn after(self, input: DemoInput) -> DemoWindowView {
        DemoWindowView {
            num_columns: match input.columns {
                Some(answers) => columns_after(answers),
                None => self.num_columns,
            },
            layout: match input.layout {
                Some(answers) => self.layout.after(answers),
                None => self.layout,
            },
            tree: match input.tree {
                Some(report) => match self.tree.visit(report@, false) {
                    Some(tree) => tree,
                    None => self.tree,
                },
                None => self.tree,
            },
            painting: match input.painting {
                Some(answers) => self.painting.after(answers),
                None => self.painting,
            },
        }
    }

    /// The layout that the layout section is composed with in a frame, if
    /// it is open: the one that the settings resolve to as the frame finds
    /// them.
    pub open spec fn layout_shown(self, input: DemoInput) -> Option<Layout> {
        match input.layout {
            Some(_) => Some(self.layout.spec_layout()),
            None => None,
        }
    }
}

impl Default for DemoWindow {
    /// The window that a session starts with.
    fn default() -> (window: DemoWindow)
        ensures
            window@ == DemoWindowView::initial(),
    {
        DemoWindow {
            num_columns: 2,
            layout: LayoutDemo::default(),
            tree: Tree::demo(),
            painting: Painting::default(),
        }
    }
}

impl DemoWindow {
    /// One frame of the window. Each open section takes its part of the
    /// report; a closed section keeps its state. What the visit of the
    /// tree's root answers is dropped: the root stays.
    pub fn ui(&mut self, input: &DemoInput) -> (output: DemoOutput)
        ensures
            final(self)@ == old(self)@.after(*input),
            output.layout == old(self)@.layout_shown(*input),
            output.paths.is_some() <==> input.painting.is_some(),
            output.paths.is_some() ==> path_views(output.paths.unwrap()@)
                == final(self)@.painting.painted(),
    {
        let layout = match &input.layout {
            Some(answers) => Some(self.layout.ui(answers)),
            None => None,
        };
        match &input.tree {
            Some(report) => {
                let _ = self.tree.ui(report);
            },
            None => {},
        }
        match &input.columns {
            Some(answers) => {
                self.num_columns = answers.num_columns;
                if answers.delete_last && self.num_columns > 0 {
                    self.num_columns = self.num_columns - 1;
                }
            },
            None => {},
        }
        let paths = match &input.painting {
            Some(answers) => Some(self.painting.ui(answers)),
            None => None,
        };
        DemoOutput { layout, paths }
    }
}

} // verus!
