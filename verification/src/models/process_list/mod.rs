pub mod process_list;

use vstd::prelude::*;
use crate::components::process::key_named_for;
use crate::config::KeyConfig;
use crate::input::Key;
use crate::models::items::process_item::ProcessItemSortOrder as ItemOrder;

verus! {

/// The orders in which the process list can be sorted.
#[derive(PartialEq, Eq, Structural, Clone, Copy, Debug)]
pub enum ProcessItemSortOrder {
    PidInc,
    PidDec,
    NameInc,
    NameDec,
    CpuUsageInc,
    CpuUsageDec,
    MemoryUsageInc,
    MemoryUsageDec,
}

/// The order of processes that a list order stands for.
pub open spec fn spec_row_order(sort: ProcessItemSortOrder) -> ItemOrder {
    match sort {
        ProcessItemSortOrder::PidInc => ItemOrder::PidInc,
        ProcessItemSortOrder::PidDec => ItemOrder::PidDec,
        ProcessItemSortOrder::NameInc => ItemOrder::NameInc,
        ProcessItemSortOrder::NameDec => ItemOrder::NameDec,
        ProcessItemSortOrder::CpuUsageInc => ItemOrder::CpuUsageInc,
        ProcessItemSortOrder::CpuUsageDec => ItemOrder::CpuUsageDec,
        ProcessItemSortOrder::MemoryUsageInc => ItemOrder::MemoryUsageInc,
        ProcessItemSortOrder::MemoryUsageDec => ItemOrder::MemoryUsageDec,
    }
}

/// The order of processes that a list order stands for (see `spec_row_order`).
pub fn row_order_of(sort: ProcessItemSortOrder) -> (r: ItemOrder)
    ensures
        r == spec_row_order(sort),
{
    match sort {
        ProcessItemSortOrder::PidInc => ItemOrder::PidInc,
        ProcessItemSortOrder::PidDec => ItemOrder::PidDec,
        ProcessItemSortOrder::NameInc => ItemOrder::NameInc,
        ProcessItemSortOrder::NameDec => ItemOrder::NameDec,
        ProcessItemSortOrder::CpuUsageInc => ItemOrder::CpuUsageInc,
        ProcessItemSortOrder::CpuUsageDec => ItemOrder::CpuUsageDec,
        ProcessItemSortOrder::MemoryUsageInc => ItemOrder::MemoryUsageInc,
        ProcessItemSortOrder::MemoryUsageDec => ItemOrder::MemoryUsageDec,
    }
}

/// The sort order a key asks for, checked in the order processor use, memory use, pid,
/// name, decreasing before increasing.
pub open spec fn spec_key_to_process_sort(key: Key, kc: KeyConfig) -> Option<ProcessItemSortOrder> {
    if key == kc.sort_cpu_usage_dec {
        Some(ProcessItemSortOrder::CpuUsageDec)
    } else if key == kc.sort_cpu_usage_inc {
        Some(ProcessItemSortOrder::CpuUsageInc)
    } else if key == kc.sort_memory_usage_dec {
        Some(ProcessItemSortOrder::MemoryUsageDec)
    } else if key == kc.sort_memory_usage_inc {
        Some(ProcessItemSortOrder::MemoryUsageInc)
    } else if key == kc.sort_pid_dec {
        Some(ProcessItemSortOrder::PidDec)
    } else if key == kc.sort_pid_inc {
        Some(ProcessItemSortOrder::PidInc)
    } else if key == kc.sort_name_dec {
        Some(ProcessItemSortOrder::NameDec)
    } else if key == kc.sort_name_inc {
        Some(ProcessItemSortOrder::NameInc)
    } else {
        None
    }
}

/// Each sort key selects the list order it is named after: a key selects an order only
/// if the settings bind it to that order (the key `sort_memory_usage_inc` to increasing
/// memory use, and so on), and a key bound to no sort order selects none.
pub proof fn lemma_sort_keys_select_their_list_order(key: Key, kc: KeyConfig)
    ensures
        spec_key_to_process_sort(key, kc) matches Some(o) ==> key_named_for(kc, spec_row_order(o)) == Some(key),
        spec_key_to_process_sort(key, kc) is None <==> (forall|o: ItemOrder| #[trigger] key_named_for(kc, o) != Some(key)),
{
    if spec_key_to_process_sort(key, kc) is None {
        assert forall|o: ItemOrder| #[trigger] key_named_for(kc, o) != Some(key) by {
            match o {
                ItemOrder::PidInc => {},
                _ => {},
            }
        }
    } else {
        let o = spec_key_to_process_sort(key, kc)->0;
        assert(key_named_for(kc, spec_row_order(o)) == Some(key));
    }
}

/// Maps a key press to the sort order it asks for (see `spec_key_to_process_sort`).
pub fn map_key_to_process_sort(key: Key, key_config: &KeyConfig) -> (r: Option<ProcessItemSortOrder>)
    ensures
        r == spec_key_to_process_sort(key, *key_config),
{
    if key == key_config.sort_cpu_usage_dec {
        Some(ProcessItemSortOrder::CpuUsageDec)
    } else if key == key_config.sort_cpu_usage_inc {
        Some(ProcessItemSortOrder::CpuUsageInc)
    } else if key == key_config.sort_memory_usage_dec {
        Some(ProcessItemSortOrder::MemoryUsageDec)
    } else if key == key_config.sort_memory_usage_inc {
        Some(ProcessItemSortOrder::MemoryUsageInc)
    } else if key == key_config.sort_pid_dec {
        Some(ProcessItemSortOrder::PidDec)
    } else if key == key_config.sort_pid_inc {
        Some(ProcessItemSortOrder::PidInc)
    } else if key == key_config.sort_name_dec {
        Some(ProcessItemSortOrder::NameDec)
    } else if key == key_config.sort_name_inc {
        Some(ProcessItemSortOrder::NameInc)
    } else {
        None
    }
}

} // verus!
