use process_display::components::process::{
    compute_row_style, header_with_sort, match_sort_order_key, Focus, ProcessComponent, RowStyle,
};
use process_display::components::EventState;
use process_display::config::{Config, KeyConfig};
use process_display::input::{Key, Mouse, MouseKind};
use process_display::models::items::process_item::ProcessItemSortOrder;
use process_display::models::process_list::process_list::ProcessList as ModelProcessList;
use process_display::models::process_list::{map_key_to_process_sort, ProcessItemSortOrder as ModelSort};
use process_display::models::process_table::{compare_text, sort_rows, table_view, ProcessRow};
use process_display::models::SortOrdering;
use process_display::process_list::process_list::ProcessList;
use process_display::process_list::process_list_items::ProcessListItems;
use process_display::process_list::{ListSortOrder, MoveSelection};

/// A process as the tables see it; the processor use orders by hundredths of a percent.
fn row(pid: u32, name: &str, cpu_usage: f32, memory_usage: u64, run_time: u64, status: &str) -> ProcessRow {
    ProcessRow {
        pid,
        name: String::from(name),
        cpu_rank: (cpu_usage * 100.0) as u32,
        memory_usage,
        status: String::from(status),
        run_time,
        cpu_test: None,
    }
}

fn item(pid: u32, name: &str, cpu_usage: f32, memory_usage: u64) -> ProcessRow {
    row(pid, name, cpu_usage, memory_usage, 10, "test")
}

#[test]
fn process_list_test_constructors() {
    // Default constructor.
    let empty_instance = ProcessList::default();
    assert!(empty_instance.is_empty());
    assert_eq!(empty_instance.selection(), None);

    // New constructor.
    let items = vec![item(1, "a", 1.0, 1), item(2, "b", 2.0, 2)];
    let instance = ProcessList::new(items);
    assert!(!instance.is_empty());
    assert_eq!(instance.selection(), Some(0));

    // Filter constructor case 1.
    let filter_string = String::from("c");
    let filter_instance = instance.filter(&filter_string);
    assert!(filter_instance.is_empty());
    assert_eq!(filter_instance.selection(), None);

    // Filter constructor case 2.
    let filter_string = String::from("b");
    let filter_instance = instance.filter(&filter_string);
    assert!(!filter_instance.is_empty());
    assert_eq!(filter_instance.selection(), Some(0));
}

#[test]
fn test_update() {
    // Update with empty list of items.
    let mut instance = ProcessList::new(vec![item(1, "a", 1.0, 1), item(2, "b", 2.0, 2)]);
    instance.update(vec![]);
    assert!(instance.is_empty());
    assert!(instance.selection().is_none());

    // Update with non-empty list of items.
    let mut instance = ProcessList::new(vec![item(1, "a", 1.0, 1), item(2, "b", 2.0, 2)]);
    instance.update(vec![item(3, "c", 3.0, 3)]);
    assert!(!instance.is_empty());
    assert_eq!(instance.selection(), Some(0));

    // Update with empty list of items and follow_selection set to true.
    let mut instance = ProcessList::new(vec![item(1, "a", 1.0, 1), item(2, "b", 2.0, 2)]);
    instance.toggle_follow_selection();
    instance.update(vec![]);
    assert!(instance.is_empty());
    assert!(instance.selection().is_none());

    // Update with non-empty list of items and follow_selection set to true case 1.
    let mut instance = ProcessList::new(vec![item(1, "a", 1.0, 1), item(2, "b", 2.0, 2)]);
    instance.toggle_follow_selection();
    instance.update(vec![item(3, "c", 3.0, 3)]);
    assert!(!instance.is_empty());
    assert_eq!(instance.selection(), Some(0));

    // Update with non-empty list of items and follow_selection set to true case 2.
    let mut instance = ProcessList::new(vec![item(1, "a", 1.0, 1), item(2, "b", 2.0, 2)]);
    instance.toggle_follow_selection();
    instance.update(vec![item(2, "b", 2.0, 2), item(3, "c", 3.0, 3)]);
    assert!(!instance.is_empty());
    assert_eq!(instance.selection(), Some(0));
}

#[test]
fn test_sort() {
    // Test sort when follow_selection = false.
    let mut instance = ProcessList::new(vec![item(2, "b", 1.0, 1), item(1, "a", 2.0, 2)]);
    assert!(*instance.get_sort_order() == ListSortOrder::CpuUsageDec);
    assert!(!instance.is_follow_selection());
    assert_eq!(instance.selection(), Some(0));
    instance.sort(&ListSortOrder::CpuUsageInc);
    assert_eq!(instance.selection(), Some(0));

    let mut instance = ProcessList::new(vec![item(1, "a", 2.0, 2), item(2, "b", 1.0, 1)]);
    assert!(*instance.get_sort_order() == ListSortOrder::CpuUsageDec);
    instance.toggle_follow_selection();
    assert!(instance.is_follow_selection());
    assert_eq!(instance.selection(), Some(0));
    instance.sort(&ListSortOrder::CpuUsageInc);
    assert_eq!(instance.selection(), Some(1));
}

#[test]
fn test_selection() {
    let mut empty_instance = ProcessList::default();
    empty_instance.move_selection(MoveSelection::Down);
    assert_eq!(empty_instance.selection(), None);

    let mut instance = ProcessList::new(vec![item(1, "a", 2.0, 2), item(2, "b", 1.0, 1)]);
    assert_eq!(instance.selection(), Some(0));
    instance.move_selection(MoveSelection::Down);
    instance.move_selection(MoveSelection::Down);
    assert_eq!(instance.selection(), Some(1));

    instance.move_selection(MoveSelection::Up);
    instance.move_selection(MoveSelection::Up);
    assert_eq!(instance.selection(), Some(0));

    instance.move_selection(MoveSelection::End);
    instance.move_selection(MoveSelection::End);
    assert_eq!(instance.selection(), Some(1));

    instance.move_selection(MoveSelection::Top);
    instance.move_selection(MoveSelection::Top);
    assert_eq!(instance.selection(), Some(0));

    instance.move_selection(MoveSelection::MultipleDown);
    instance.move_selection(MoveSelection::MultipleDown);
    assert_eq!(instance.selection(), Some(1));

    instance.move_selection(MoveSelection::MultipleUp);
    instance.move_selection(MoveSelection::MultipleUp);
    assert_eq!(instance.selection(), Some(0));
}

fn pid_at(items: &ProcessListItems, idx: usize) -> Option<u32> {
    items.get_item_ref(idx).map(|r| r.pid)
}

#[test]
fn process_list_items_test_default() {
    let instance = ProcessListItems::default();
    assert_eq!(instance.items_len(), 0);
    assert_eq!(instance.get_idx(4), None);
    assert!(instance.get_item_ref(0).is_none());
}

#[test]
fn process_list_items_test_new() {
    let instance = ProcessListItems::new(vec![item(1, "a", 1.0, 1), item(2, "b", 2.0, 2)]);
    assert_eq!(instance.items_len(), 2);
    assert_eq!(instance.get_idx(1), Some(0));
    assert_eq!(instance.get_idx(2), Some(1));
    assert_eq!(instance.get_idx(3), None);
    assert_eq!(pid_at(&instance, 0), Some(1));
    assert_eq!(pid_at(&instance, 1), Some(2));
    assert!(instance.get_item_ref(2).is_none());
}

#[test]
fn test_filter() {
    let instance = ProcessListItems::new(vec![item(1, "a", 1.0, 1), item(2, "b", 2.0, 2)]);
    let filtered_instance = instance.filter(&String::from("a"));
    assert_eq!(filtered_instance.items_len(), 1);
    assert_eq!(pid_at(&filtered_instance, 0), Some(1));
    assert!(filtered_instance.get_item_ref(1).is_none());
    assert_eq!(filtered_instance.get_idx(1), Some(0));
    assert_eq!(filtered_instance.get_idx(2), None);
}

#[test]
fn test_update_items() {
    let mut instance = ProcessListItems::new(vec![item(1, "a", 1.0, 1), item(2, "b", 2.0, 2)]);

    // Note: processes are compared by pid.
    let new_items = vec![item(1, "a", 7.0, 1337), item(3, "c", 3.0, 3)];

    instance.sort_items(&ListSortOrder::CpuUsageInc);
    assert_eq!(instance.get_idx(1), Some(0));
    assert_eq!(instance.get_idx(2), Some(1));
    instance.update_items(new_items);
    instance.sort_items(&ListSortOrder::CpuUsageInc);
    // Pid 2 is not in new_items so it should be removed from the instance list.
    assert_eq!(instance.get_idx(2), None);
    // Pid 3 cpu usage is 3.0 so it should be first in the instance list.
    assert_eq!(instance.get_idx(3), Some(0));
    // Pid 1 cpu usage is updated to 7.0 so it should be last in the instance list.
    assert_eq!(instance.get_idx(1), Some(1));
}

#[test]
fn test_sort_items() {
    let mut instance = ProcessListItems::new(vec![item(1, "a", 1.0, 1), item(2, "b", 2.0, 2), item(3, "c", 3.0, 3)]);

    assert_eq!(instance.get_idx(1), Some(0));
    assert_eq!(instance.get_idx(2), Some(1));
    assert_eq!(instance.get_idx(3), Some(2));
    instance.sort_items(&ListSortOrder::CpuUsageInc);
    assert_eq!(instance.get_idx(1), Some(0));
    assert_eq!(instance.get_idx(2), Some(1));
    assert_eq!(instance.get_idx(3), Some(2));

    instance.sort_items(&ListSortOrder::CpuUsageDec);
    assert_eq!(instance.get_idx(1), Some(2));
    assert_eq!(instance.get_idx(2), Some(1));
    assert_eq!(instance.get_idx(3), Some(0));

    instance.sort_items(&ListSortOrder::NameInc);
    assert_eq!(instance.get_idx(1), Some(0));
    assert_eq!(instance.get_idx(2), Some(1));
    assert_eq!(instance.get_idx(3), Some(2));

    instance.sort_items(&ListSortOrder::NameDec);
    assert_eq!(instance.get_idx(1), Some(2));
    assert_eq!(instance.get_idx(2), Some(1));
    assert_eq!(instance.get_idx(3), Some(0));

    instance.sort_items(&ListSortOrder::PidInc);
    assert_eq!(instance.get_idx(1), Some(0));
    assert_eq!(instance.get_idx(2), Some(1));
    assert_eq!(instance.get_idx(3), Some(2));

    instance.sort_items(&ListSortOrder::PidDec);
    assert_eq!(instance.get_idx(1), Some(2));
    assert_eq!(instance.get_idx(2), Some(1));
    assert_eq!(instance.get_idx(3), Some(0));

    instance.sort_items(&ListSortOrder::MemoryUsageInc);
    assert_eq!(instance.get_idx(1), Some(0));
    assert_eq!(instance.get_idx(2), Some(1));
    assert_eq!(instance.get_idx(3), Some(2));

    instance.sort_items(&ListSortOrder::MemoryUsageDec);
    assert_eq!(instance.get_idx(1), Some(2));
    assert_eq!(instance.get_idx(2), Some(1));
    assert_eq!(instance.get_idx(3), Some(0));
}

#[test]
fn process_list_items_filter_matches_pid_digits() {
    let instance = ProcessListItems::new(vec![item(12, "x", 1.0, 1), item(34, "y", 2.0, 2)]);
    let filtered = instance.filter("3");
    assert_eq!(filtered.items_len(), 1);
    assert_eq!(pid_at(&filtered, 0), Some(34));
    // the name filter keeps case
    let filtered = ProcessListItems::new(vec![item(1, "Abc", 1.0, 1)]).filter("abc");
    assert_eq!(filtered.items_len(), 0);
}

fn test_data(idx: usize) -> Vec<ProcessRow> {
    let all = vec![
        row(0, "Discord", 12.0, 12, 12, "Runnable"),
        row(1, "Slack", 8.5, 15, 15, "Sleeping"),
        row(2, "Chrome", 25.3, 40, 40, "Runnable"),
        row(3, "iTerm", 9.0, 9, 9, "Runnable"),
        row(4, "Spotify", 7.2, 22, 22, "Sleeping"),
        row(5, "VSCode", 18.1, 35, 35, "Runnable"),
        row(6, "SystemUIServer", 1.5, 5, 5, "Runnable"),
        row(7, "Dock", 0.8, 3, 3, "Sleeping"),
        row(8, "Finder", 4.4, 18, 18, "Runnable"),
        row(9, "Discord-Helper", 20.0, 20, 20, "Runnable"),
        row(10, "Photos", 3.1, 12, 12, "Sleeping"),
        row(11, "process-display", 2.0, 2, 2, "Runnable"),
        row(12, "Mail", 1.2, 7, 7, "Runnable"),
        row(13, "Calendar", 0.6, 6, 6, "Sleeping"),
        row(14, "Notes", 0.4, 4, 4, "Sleeping"),
        row(15, "Preview", 0.9, 8, 8, "Runnable"),
        row(16, "Safari", 11.0, 30, 30, "Runnable"),
        row(17, "Terminal", 5.7, 10, 10, "Runnable"),
        row(18, "Activity Monitor", 2.9, 14, 14, "Runnable"),
        row(19, "Xcode", 14.3, 50, 50, "Runnable"),
    ];
    match idx {
        0 => all,
        1 => all.into_iter().take(11).collect(),
        _ => vec![],
    }
}

#[test]
fn test_constructor_with_data() {
    let config = Config::default();
    let component = ProcessComponent::new(config, test_data(0));
    // the table shows every process
    assert_eq!(component.process_rows().len(), test_data(0).len());
    assert_eq!(component.shown_len(), test_data(0).len());
    // the first line is selected since there is data
    assert_eq!(component.ui_selection(), Some(0));
    // no sort and no filter
    assert!(component.sort().is_none());
    assert_eq!(component.filter_input(), "");
    assert_eq!(component.focus(), Focus::List);
}

#[test]
fn test_constructor_with_no_data() {
    let config = Config::default();
    let component = ProcessComponent::new(config, test_data(2));
    assert_eq!(component.process_rows().len(), test_data(2).len());
    assert_eq!(component.ui_selection(), None);
    assert!(component.sort().is_none());
    assert_eq!(component.filter_input(), "");
    assert_eq!(component.focus(), Focus::List);
}

#[test]
fn test_handle_move_selection() {
    let config = Config::default();
    let mut component = ProcessComponent::new(config, test_data(0));
    let keys = KeyConfig::default();

    // testing boundaries
    component.key_event(keys.move_up);
    assert_eq!(component.ui_selection(), Some(0));
    component.key_event(keys.move_down);
    assert_eq!(component.ui_selection(), Some(1));
    component.key_event(keys.move_bottom);
    assert_eq!(component.ui_selection(), Some(component.shown_len().saturating_sub(1)));
    component.key_event(keys.move_down);
    assert_eq!(component.ui_selection(), Some(component.shown_len().saturating_sub(1)));
}

#[test]
fn test_handle_refresh_selection() {
    let config = Config::default();
    let mut component = ProcessComponent::new(config, test_data(0));

    // refresh from non-empty to non-empty list
    let ui_selection = component.ui_selection();
    component.refresh(test_data(1));
    // the selected line stays unless it is out of bounds
    assert_eq!(component.ui_selection(), ui_selection);
    assert!(component.selected_row().is_some());

    // refresh from non-empty to empty list
    component.refresh(test_data(2));
    assert!(component.ui_selection().is_none());
    assert!(component.selected_row().is_none());

    // refresh from empty to empty list
    component.refresh(test_data(2));
    assert!(component.ui_selection().is_none());
    assert!(component.selected_row().is_none());

    // refresh from empty to non-empty list
    component.refresh(test_data(0));
    assert_eq!(component.ui_selection(), Some(0));
    assert!(component.selected_row().is_some());
}

#[test]
fn process_component_filters_and_sorts() {
    let keys = KeyConfig::default();
    let mut component = ProcessComponent::new(Config::default(), test_data(0));
    // move down, then filter: the filter selects the first row
    component.key_event(keys.move_down);
    assert_eq!(component.key_event(keys.filter), EventState::Consumed);
    assert_eq!(component.focus(), Focus::Filter);
    assert_eq!(component.key_event(Key::Char('d')), EventState::Consumed);
    assert_eq!(component.key_event(Key::Char('i')), EventState::Consumed);
    assert_eq!(component.filter_input(), "di");
    // Discord, Discord-Helper and process-display hold "di", ignoring case
    assert_eq!(component.shown_rows(), &[0, 9, 11]);
    assert_eq!(component.ui_selection(), Some(0));
    assert_eq!(component.key_event(Key::Backspace), EventState::Consumed);
    assert_eq!(component.filter_input(), "d");
    assert_eq!(component.key_event(keys.enter), EventState::Consumed);
    assert_eq!(component.focus(), Focus::List);
    // sort by increasing pid, then by decreasing processor use
    assert_eq!(component.key_event(keys.sort_pid_dec), EventState::Consumed);
    assert_eq!(component.sort(), Some(ProcessItemSortOrder::PidDec));
    let shown = component.shown_rows().to_vec();
    let mut expected = shown.clone();
    expected.sort_by(|a, b| b.cmp(a));
    assert_eq!(shown, expected);
    assert_eq!(component.key_event(keys.sort_cpu_usage_dec), EventState::Consumed);
    let rows = component.process_rows();
    let ranks: Vec<u32> = component.shown_rows().iter().map(|i| rows[*i].cpu_rank).collect();
    assert!(ranks.windows(2).all(|w| w[0] >= w[1]));
    // an unbound key is not used
    assert_eq!(component.key_event(Key::Tab), EventState::NotConsumed);
    // the wheel moves the selection
    let before = component.ui_selection();
    let scroll = Mouse { kind: MouseKind::ScrollDown, column: 0, row: 0 };
    assert_eq!(component.mouse_event(scroll), EventState::Consumed);
    assert_eq!(component.ui_selection(), before.map(|s| (s + 1).min(component.shown_len() - 1)));
}

#[test]
fn process_component_visible_rows_follow_selection() {
    let keys = KeyConfig::default();
    let mut component = ProcessComponent::new(Config::default(), test_data(0));
    for _ in 0..12 {
        component.key_event(keys.move_down);
    }
    assert_eq!(component.ui_selection(), Some(12));
    let visible = component.visible_rows(5);
    assert_eq!(visible.len(), 5);
    assert!(visible.iter().any(|(idx, selected)| *selected && *idx == component.shown_rows()[12]));
    assert_eq!(visible.iter().filter(|(_, selected)| *selected).count(), 1);
}

#[test]
fn sort_keys_headers_and_row_styles() {
    let keys = KeyConfig::default();
    assert_eq!(match_sort_order_key(keys.sort_pid_inc, &keys), Some(ProcessItemSortOrder::PidInc));
    assert_eq!(match_sort_order_key(keys.sort_name_dec, &keys), Some(ProcessItemSortOrder::NameDec));
    assert_eq!(match_sort_order_key(Key::Esc, &keys), None);
    assert_eq!(map_key_to_process_sort(keys.sort_memory_usage_inc, &keys), Some(ModelSort::MemoryUsageInc));
    assert_eq!(map_key_to_process_sort(Key::Esc, &keys), None);
    assert_eq!(
        header_with_sort(Some(ProcessItemSortOrder::PidInc), ProcessItemSortOrder::PidInc, ProcessItemSortOrder::PidDec, "PID"),
        "PID \u{25b2}"
    );
    assert_eq!(
        header_with_sort(Some(ProcessItemSortOrder::PidDec), ProcessItemSortOrder::PidInc, ProcessItemSortOrder::PidDec, "PID"),
        "PID \u{25bc}"
    );
    assert_eq!(header_with_sort(None, ProcessItemSortOrder::PidInc, ProcessItemSortOrder::PidDec, "PID"), "PID");
    assert_eq!(compute_row_style(true, true), RowStyle::Selected);
    assert_eq!(compute_row_style(true, false), RowStyle::Focused);
    assert_eq!(compute_row_style(false, true), RowStyle::SelectedNotFocused);
    assert_eq!(compute_row_style(false, false), RowStyle::NotFocused);
}

#[test]
fn table_view_filters_then_sorts_stably() {
    let rows = vec![
        row(5, "b", 1.0, 10, 1, "S"),
        row(3, "a", 2.0, 10, 1, "R"),
        row(9, "c", 1.0, 20, 1, "S"),
    ];
    // memory ties keep the list order
    assert_eq!(table_view(&rows, Some(ProcessItemSortOrder::MemoryUsageInc), None), vec![0, 1, 2]);
    assert_eq!(table_view(&rows, Some(ProcessItemSortOrder::MemoryUsageDec), None), vec![2, 0, 1]);
    assert_eq!(table_view(&rows, Some(ProcessItemSortOrder::NameInc), None), vec![1, 0, 2]);
    assert_eq!(table_view(&rows, Some(ProcessItemSortOrder::StatusDec), None), vec![0, 2, 1]);
    assert_eq!(table_view(&rows, None, Some("pid>4")), vec![0, 2]);
    assert_eq!(table_view(&rows, Some(ProcessItemSortOrder::PidDec), Some("pid>4")), vec![2, 0]);
    let sorted = sort_rows(&rows, ProcessItemSortOrder::CpuUsageInc);
    let pids: Vec<u32> = sorted.iter().map(|r| r.pid).collect();
    assert_eq!(pids, vec![5, 9, 3]);
    // sorting again in the same order changes nothing
    let again = sort_rows(&sorted, ProcessItemSortOrder::CpuUsageInc);
    let pids_again: Vec<u32> = again.iter().map(|r| r.pid).collect();
    assert_eq!(pids_again, pids);
    assert_eq!(compare_text("abc", "abd"), SortOrdering::Less);
    assert_eq!(compare_text("ab", "a"), SortOrdering::Greater);
    assert_eq!(compare_text("", ""), SortOrdering::Equal);
}

#[test]
fn model_process_list_updates_filters_and_follows() {
    let mut list = ModelProcessList::new(vec![item(1, "Alpha", 1.0, 1), item(2, "beta", 5.0, 2), item(3, "ALPINE", 3.0, 3)]);
    assert_eq!(list.selection(), Some(0));
    assert_eq!(*list.sort_order(), ModelSort::CpuUsageDec);
    let filtered = list.filter("alp");
    assert_eq!(filtered.len(), 2);
    assert_eq!(filtered.selection_pid(), Some(1));
    // an update sorts by decreasing processor use and clamps the selection
    list.move_selection(process_display::components::utils::MoveSelection::Bottom);
    assert_eq!(list.selection(), Some(2));
    list.update(vec![item(3, "ALPINE", 3.0, 3), item(2, "beta", 5.0, 2)]);
    assert_eq!(list.len(), 2);
    assert_eq!(list.selection(), Some(1));
    assert_eq!(list.selection_pid(), Some(3));
    // following: the selection moves with its process
    list.toggle_follow_selection();
    assert!(list.is_follow_selection());
    list.sort(&ModelSort::PidInc);
    assert_eq!(list.selection_pid(), Some(3));
    assert_eq!(list.selection(), Some(1));
    list.update(vec![item(3, "ALPINE", 9.0, 3), item(2, "beta", 5.0, 2), item(4, "gamma", 1.0, 4)]);
    assert_eq!(list.selection_pid(), Some(3));
    // an empty list does not follow
    list.update(vec![]);
    assert!(list.is_empty());
    assert_eq!(list.selection(), None);
    assert!(!list.is_follow_selection());
    list.toggle_follow_selection();
    assert!(!list.is_follow_selection());
    let lines = ModelProcessList::new(vec![item(1, "a", 1.0, 1), item(2, "b", 1.0, 1)]).iterate(1, 5);
    assert_eq!(lines, vec![(1, false)]);
}

#[test]
fn update_keeps_a_followed_process_selected() {
    let mut list = ProcessList::new(vec![item(1, "a", 2.0, 1), item(2, "b", 1.0, 2)]);
    list.toggle_follow_selection();
    list.move_selection(MoveSelection::Down);
    assert_eq!(list.selected_pid(), Some(2));
    list.update(vec![item(5, "e", 0.5, 5), item(2, "b", 9.0, 2), item(1, "a", 3.0, 1)]);
    assert_eq!(list.len(), 3);
    assert_eq!(list.selected_pid(), Some(2));
    assert_eq!(list.selection(), Some(0));
}
