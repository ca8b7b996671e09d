pub mod process_item_info;
pub mod process_list;
pub mod process_list_items;
pub mod selection_rules;

use vstd::prelude::*;
use crate::components::utils::MoveSelection as ListMove;
use crate::models::items::process_item::ProcessItemSortOrder;

verus! {

/// The orders in which the process list can be sorted.
#[derive(PartialEq, Eq, Structural, Clone, Copy, Debug)]
pub enum ListSortOrder {
    PidInc,
    PidDec,
    NameInc,
    NameDec,
    CpuUsageInc,
    CpuUsageDec,
    MemoryUsageInc,
    MemoryUsageDec,
}

impl Default for ListSortOrder {
    /// Busiest processes first.
    fn default() -> (r: Self)
        ensures
            r == ListSortOrder::CpuUsageDec,
    {
        ListSortOrder::CpuUsageDec
    }
}

/// The order of processes that a list order stands for.
pub open spec fn item_order(sort: ListSortOrder) -> ProcessItemSortOrder {
    match sort {
        ListSortOrder::PidInc => ProcessItemSortOrder::PidInc,
        ListSortOrder::PidDec => ProcessItemSortOrder::PidDec,
        ListSortOrder::NameInc => ProcessItemSortOrder::NameInc,
        ListSortOrder::NameDec => ProcessItemSortOrder::NameDec,
        ListSortOrder::CpuUsageInc => ProcessItemSortOrder::CpuUsageInc,
        ListSortOrder::CpuUsageDec => ProcessItemSortOrder::CpuUsageDec,
        ListSortOrder::MemoryUsageInc => ProcessItemSortOrder::MemoryUsageInc,
        ListSortOrder::MemoryUsageDec => ProcessItemSortOrder::MemoryUsageDec,
    }
}

/// The order of processes that a list order stands for (see `item_order`).
pub fn to_item_order(sort: ListSortOrder) -> (r: ProcessItemSortOrder)
    ensures
        r == item_order(sort),
{
    match sort {
        ListSortOrder::PidInc => ProcessItemSortOrder::PidInc,
        ListSortOrder::PidDec => ProcessItemSortOrder::PidDec,
        ListSortOrder::NameInc => ProcessItemSortOrder::NameInc,
        ListSortOrder::NameDec => ProcessItemSortOrder::NameDec,
        ListSortOrder::CpuUsageInc => ProcessItemSortOrder::CpuUsageInc,
        ListSortOrder::CpuUsageDec => ProcessItemSortOrder::CpuUsageDec,
        ListSortOrder::MemoryUsageInc => ProcessItemSortOrder::MemoryUsageInc,
        ListSortOrder::MemoryUsageDec => ProcessItemSortOrder::MemoryUsageDec,
    }
}

/// A move of the process list's selection: one line, ten lines, or to either end.
#[derive(Copy, Clone, PartialEq, Eq, Structural, Debug)]
pub enum MoveSelection {
    Up,
    Down,
    MultipleUp,
    MultipleDown,
    Top,
    End,
}

/// The list move that a process list move stands for.
pub open spec fn spec_as_list_move(dir: MoveSelection) -> ListMove {
    match dir {
        MoveSelection::Up => ListMove::Up,
        MoveSelection::Down => ListMove::Down,
        MoveSelection::MultipleUp => ListMove::MultipleUp,
        MoveSelection::MultipleDown => ListMove::MultipleDown,
        MoveSelection::Top => ListMove::Top,
        MoveSelection::End => ListMove::Bottom,
    }
}

/// The list move that a process list move stands for (see `spec_as_list_move`).
pub fn as_list_move(dir: MoveSelection) -> (r: ListMove)
    ensures
        r == spec_as_list_move(dir),
{
    match dir {
        MoveSelection::Up => ListMove::Up,
        MoveSelection::Down => ListMove::Down,
        MoveSelection::MultipleUp => ListMove::MultipleUp,
        MoveSelection::MultipleDown => ListMove::MultipleDown,
        MoveSelection::Top => ListMove::Top,
        MoveSelection::End => ListMove::Bottom,
    }
}

} // verus!
