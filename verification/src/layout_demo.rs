//! The layout demo: three settings, the controls that change them, and the
//! layout they resolve to.

use vstd::prelude::*;
use crate::layout::{Align, Direction, Layout};

verus! {

/// The settings of the layout demo, kept from frame to frame.
#[derive(Clone, Copy, Debug, PartialEq, Eq, Structural)]
pub struct LayoutDemo {
    pub dir: Direction,
    pub align: Align,
    pub reversed: bool,
}

/// What the user did to the controls of the layout demo during one frame.
///
/// Each field answers for one control, in the order in which the content
/// pass shows them: `true` when that control was activated in this frame.
#[derive(Clone, Copy, Debug, PartialEq, Eq, Structural)]
pub struct LayoutInput {
    /// The reset control.
    pub reset: bool,
    /// The choice "horizontal" of the direction.
    pub horizontal: bool,
    /// The choice "vertical" of the direction.
    pub vertical: bool,
    /// The check box that flips `reversed`.
    pub reversed: bool,
    /// The choice "min" of the alignment.
    pub min: bool,
    /// The choice "center" of the alignment.
    pub center: bool,
    /// The choice "max" of the alignment.
    pub max: bool,
    /// The choice "justified" of the alignment.
    pub justified: bool,
}

impl LayoutInput {
    /// The answers of a frame in which no control was touched.
    pub open spec fn idle() -> LayoutInput {
        LayoutInput {
            reset: false,
            horizontal: false,
            vertical: false,
            reversed: false,
            min: false,
            center: false,
            max: false,
            justified: false,
        }
    }
}

impl LayoutInput {
    /// The answers of a frame in which only the reset control was
    /// activated.
    pub open spec fn only_reset() -> LayoutInput {
        LayoutInput { reset: true, ..LayoutInput::idle() }
    }
}

impl Default for LayoutInput {
    /// The answers of a frame in which no control was touched.
    fn default() -> (input: LayoutInput)
        ensures
            input == LayoutInput::idle(),
    {
        LayoutInput {
            reset: false,
            horizontal: false,
            vertical: false,
            reversed: false,
            min: false,
            center: false,
            max: false,
            justified: false,
        }
    }
}

impl Default for LayoutDemo {
    /// Vertical, centred, walked forwards.
    fn default() -> (demo: LayoutDemo)
        ensures
            demo == LayoutDemo::initial(),
    {
        LayoutDemo { dir: Direction::Vertical, align: Align::Center, reversed: false }
    }
}

impl LayoutDemo {
    /// The settings a fresh or reset demo starts from.
    pub open spec fn initial() -> LayoutDemo {
        LayoutDemo { dir: Direction::Vertical, align: Align::Center, reversed: false }
    }

    /// The layout these settings resolve to.
    pub open spec fn spec_layout(&self) -> Layout {
        Layout::resolve(self.dir, self.align, self.reversed)
    }

    /// The settings after a content pass that got the answers `input`.
    ///
    /// The controls act in the order in which they are shown: reset first,
    /// then the direction, the check box and the alignment. Where a frame
    /// reports two choices of one group, the one shown later stands.
    pub open spec fn after(self, input: LayoutInput) -> LayoutDemo {
        let start = if input.reset {
            LayoutDemo::initial()
        } else {
            self
        };
        LayoutDemo {
            dir: if input.vertical {
                Direction::Vertical
            } else if input.horizontal {
                Direction::Horizontal
            } else {
                start.dir
            },
            align: if input.justified {
                Align::Justified
            } else if input.max {
                Align::Max
            } else if input.center {
                Align::Center
            } else if input.min {
                Align::Min
            } else {
                start.align
            },
            reversed: if input.reversed {
                !start.reversed
            } else {
                start.reversed
            },
        }
    }

    /// Resolves the settings to the layout of a content pass: the direction
    /// and the alignment as they stand, reversed if and only if `reversed`
    /// is set.
    #[verifier::when_used_as_spec(spec_layout)]
    pub fn layout(&self) -> (layout: Layout)
        ensures
            layout == self.spec_layout(),
            layout.dir == self.dir,
            layout.align == self.align,
            layout.reversed == self.reversed,
    {
        let layout = Layout::from_dir_align(self.dir, self.align);
        if self.reversed {
            layout.reverse()
        } else {
            layout
        }
    }

    /// One frame of the demo. The layout is resolved once, from the settings
    /// as the frame found them, and returned for the host to place the
    /// controls with; only then do the answers of the controls change the
    /// settings, so a change made in this frame shows in the next.
    pub fn ui(&mut self, input: &LayoutInput) -> (layout: Layout)
        ensures
            layout == old(self).spec_layout(),
            *final(self) == old(self).after(*input),
    {
        let layout = self.layout();
        self.content_ui(input);
        layout
    }

    /// The content pass: applies the answers of the controls to the
    /// settings, in the order in which the controls are shown.
    pub fn content_ui(&mut self, input: &LayoutInput)
        ensures
            *final(self) == old(self).after(*input),
    {
        if input.reset {
            *self = LayoutDemo::default();
        }
        if input.horizontal {
            self.dir = Direction::Horizontal;
        }
        if input.vertical {
            self.dir = Direction::Vertical;
        }
        if input.reversed {
            self.reversed = !self.reversed;
        }
        if input.min {
            self.align = Align::Min;
        }
        if input.center {
            self.align = Align::Center;
        }
        if input.max {
            self.align = Align::Max;
        }
        if input.justified {
            self.align = Align::Justified;
        }
    }

    /// A frame in which no control is touched leaves the settings alone.
    pub proof fn lemma_idle_frame_changes_nothing(self)
        ensures
            self.after(LayoutInput::idle()) == self,
    {
    }

    /// A frame in which only the reset control is activated gives the
    /// initial settings, whatever the settings were.
    pub proof fn lemma_reset_restores_initial(self)
        ensures
            self.after(LayoutInput::only_reset()) == LayoutDemo::initial(),
    {
    }
}

} // verus!
