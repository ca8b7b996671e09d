pub mod area;
pub mod command;
pub mod command_new;
pub mod cpu;
pub mod error;
pub mod filter;
pub mod help;
pub mod memory;
pub mod network;
pub mod performance;
pub mod process;
pub mod process_filter;
pub mod process_list;
pub mod process_list_items;
pub mod search_bar;
pub mod system_component;
pub mod tab;
pub mod temp;
pub mod terminate;
pub mod utils;
pub mod vertical_tabs;

use vstd::prelude::*;
use crate::config::KeyConfig;
use crate::input::Key;
use crate::components::utils::MoveSelection as ListMove;

verus! {

/// Whether a component handled an input event.
#[derive(PartialEq, Eq, Structural, Debug, Clone, Copy)]
pub enum EventState {
    Consumed,
    NotConsumed,
}

impl EventState {
    pub fn is_consumed(&self) -> (r: bool)
        ensures
            r == (*self == EventState::Consumed),
    {
        *self == Self::Consumed
    }
}

/// A move of a list selection requested by a navigation key.
#[derive(Copy, Clone, PartialEq, Eq, Structural, Debug)]
pub enum MoveSelection {
    Up,
    Down,
    Top,
    Bottom,
}

/// The navigation that `key` is bound to, checked in the order down, bottom, up, top.
pub open spec fn spec_common_nav(key: Key, key_config: KeyConfig) -> Option<MoveSelection> {
    if key == key_config.move_down {
        Some(MoveSelection::Down)
    } else if key == key_config.move_bottom {
        Some(MoveSelection::Bottom)
    } else if key == key_config.move_up {
        Some(MoveSelection::Up)
    } else if key == key_config.move_top {
        Some(MoveSelection::Top)
    } else {
        None
    }
}

/// Maps a navigation key to the move it requests, or `None` for any other key.
pub fn common_nav(key: Key, key_config: &KeyConfig) -> (r: Option<MoveSelection>)
    ensures
        r == spec_common_nav(key, *key_config),
{
    if key == key_config.move_down {
        Some(MoveSelection::Down)
    } else if key == key_config.move_bottom {
        Some(MoveSelection::Bottom)
    } else if key == key_config.move_up {
        Some(MoveSelection::Up)
    } else if key == key_config.move_top {
        Some(MoveSelection::Top)
    } else {
        None
    }
}

/// The list move that a navigation request makes.
pub open spec fn spec_list_move(dir: MoveSelection) -> ListMove {
    match dir {
        MoveSelection::Up => ListMove::Up,
        MoveSelection::Down => ListMove::Down,
        MoveSelection::Top => ListMove::Top,
        MoveSelection::Bottom => ListMove::Bottom,
    }
}

/// Turns a navigation request into the move of a list selection.
pub fn list_move(dir: MoveSelection) -> (r: ListMove)
    ensures
        r == spec_list_move(dir),
{
    match dir {
        MoveSelection::Up => ListMove::Up,
        MoveSelection::Down => ListMove::Down,
        MoveSelection::Top => ListMove::Top,
        MoveSelection::Bottom => ListMove::Bottom,
    }
}

} // verus!
