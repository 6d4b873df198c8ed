//! The state and the per-frame rules of an immediate-mode demo window.
//!
//! A host composes the window afresh on every redraw. It shows the controls,
//! collects what the user did to them during that frame, and hands the
//! collected answers to the component concerned, which updates its state and
//! says what is to be laid out or painted. Nothing here draws or reads input.
//!
//! - [`layout`]: the descriptor that a content pass places its children by.
//! - [`layout_demo`]: the settings that resolve to a layout, and their
//!   controls.
//! - [`tree`]: a tree of sections that is edited while it is shown;
//!   [`tree_laws`] and [`tree_lineage`] hold what is proved of its edits.
//! - [`painting`]: freehand lines cut out of a drag; [`painting_laws`] holds
//!   what is proved of them.
//! - [`demo_window`]: the sections side by side.

pub mod demo_window;
pub mod layout;
pub mod layout_demo;
pub mod painting;
pub mod painting_laws;
pub mod tree;
pub mod tree_laws;
pub mod tree_lineage;
