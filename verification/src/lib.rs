//! Undo/redo bookkeeping and drawing-tool decisions of the screenshot editor.
//!
//! The drawings themselves (shapes with floating-point geometry, painted through
//! the GUI toolkit) live outside this crate; the library is generic over the
//! drawing type and states what every operation does to the lists it manages.

pub mod redo_list;
pub mod history;
pub mod tools;
pub mod canvas;
pub mod save;
