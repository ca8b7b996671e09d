pub mod color_wheel;
pub mod data_labels;
pub mod data_window;
pub mod selection;
pub mod vertical_scroll;

use vstd::prelude::*;

verus! {

/// A move of a list selection: one line, ten lines, or to either end.
#[derive(Copy, Clone, PartialEq, Eq, Structural, Debug)]
pub enum MoveSelection {
    Up,
    Down,
    MultipleUp,
    MultipleDown,
    Top,
    Bottom,
}

} // verus!
