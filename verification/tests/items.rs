use process_display::decimal::decimal_string;
use process_display::dynamic_list::DynamicList;
use process_display::models::items::memory_item::MemoryItem;
use process_display::models::items::network_item::NetworkItem;
use process_display::models::items::process_item::run_time_dd_hh_mm_ss;
use process_display::models::items::{byte_to_kb, ByteToMB};
use process_display::models::vec_model::VecModel;
use process_display::performance_queue::memory_item::MemoryItem as PerformanceMemoryItem;
use process_display::process_list::process_item_info::ProcessItemInfo;

#[test]
fn memory_item_test_default() {
    let instance = MemoryItem::default();
    assert_eq!(instance.total_memory(), 0);
    assert_eq!(instance.used_memory(), 0);
    assert_eq!(instance.total_memory() as f64 / 1000000000_f64, 0.0);
    assert_eq!(instance.used_memory() as f64 / 1000000000_f64, 0.0);

    let instance = PerformanceMemoryItem::default();
    assert_eq!(instance.total_memory(), 0);
    assert_eq!(instance.used_memory(), 0);
    assert_eq!(instance.free_memory(), 0);
    assert_eq!(instance.available_memory(), 0);
    assert_eq!(instance.total_memory() as f64 / 1000000000 as f64, 0.0);
    assert_eq!(instance.used_memory() as f64 / 1000000000 as f64, 0.0);
    assert_eq!(instance.free_memory() as f64 / 1000000000 as f64, 0.0);
    assert_eq!(instance.available_memory() as f64 / 1000000000 as f64, 0.0);
}

#[test]
fn memory_item_test_new() {
    let instance = MemoryItem::new(1, 2, 0, 0);
    assert_eq!(instance.total_memory(), 1);
    assert_eq!(instance.used_memory(), 2);
    assert_eq!(instance.total_memory() as f64 / 1000000000_f64, 0.000000001);
    assert_eq!(instance.used_memory() as f64 / 1000000000_f64, 0.000000002);

    let instance = PerformanceMemoryItem::new(1, 2, 3, 4);
    assert_eq!(instance.total_memory(), 1);
    assert_eq!(instance.used_memory(), 2);
    assert_eq!(instance.free_memory(), 3);
    assert_eq!(instance.available_memory(), 4);
    assert_eq!(instance.total_memory() as f64 / 1000000000 as f64, 0.000000001);
    assert_eq!(instance.used_memory() as f64 / 1000000000 as f64, 0.000000002);
    assert_eq!(instance.free_memory() as f64 / 1000000000 as f64, 0.000000003);
    assert_eq!(instance.available_memory() as f64 / 1000000000 as f64, 0.000000004);
}

#[test]
fn memory_item_update_replaces_every_field() {
    let mut instance = MemoryItem::new(1, 2, 3, 4);
    instance.update(10, 20, 30, 40);
    assert_eq!(instance.total_memory(), 10);
    assert_eq!(instance.used_memory(), 20);
    assert_eq!(instance.total_swap(), 30);
    assert_eq!(instance.used_swap(), 40);
}

#[test]
fn network_item_getters() {
    let item = NetworkItem::new(1, 2, 3, 4);
    assert_eq!(item.tx(), 1);
    assert_eq!(item.rx(), 2);
    assert_eq!(item.total_tx(), 3);
    assert_eq!(item.total_rx(), 4);
    let empty = NetworkItem::default();
    assert_eq!(empty.total_rx(), 0);
}

#[test]
fn byte_conversions_round_down() {
    assert_eq!(byte_to_kb(2047), 1);
    assert_eq!(byte_to_kb(2048), 2);
    assert_eq!(byte_to_kb(1023), 0);
    assert_eq!(3_145_727u64.byte_to_mb(), 2);
    assert_eq!(1_048_576u32.byte_to_mb(), 1);
    assert_eq!(1_048_575usize.byte_to_mb(), 0);
}

#[test]
fn vec_model_operations() {
    let mut model = VecModel::new(vec![1, 2]);
    assert_eq!(model.len(), 2);
    assert!(!model.is_empty());
    model.push(3);
    assert_eq!(model.items(), &[1, 2, 3]);
    assert_eq!(model.pop(), Some(3));
    model.replace(vec![9]);
    assert_eq!(model.items(), &[9]);
    model.clear();
    assert!(model.is_empty());
    assert_eq!(model.pop(), None);
}

#[test]
fn dynamic_list_filter_keeps_matching_items_in_order() {
    let list = DynamicList::from_vec(vec![5, 1, 8, 2, 9]);
    let big = list.filter(|x: &i32| *x > 4);
    assert_eq!(big.as_slice(), &[5, 8, 9]);
    assert_eq!(list.as_slice(), &[5, 1, 8, 2, 9]);
    let none = list.filter(|_x: &i32| false);
    assert_eq!(none.as_slice(), &[] as &[i32]);
}

#[test]
fn dynamic_list_sort_get_and_replace() {
    let mut list = DynamicList::new();
    assert_eq!(list.get(0), None);
    list.replace_all(vec![3, 1, 2]);
    list.sort_by(|a: &i32, b: &i32| a.cmp(b));
    assert_eq!(list.as_slice(), &[1, 2, 3]);
    list.sort_by(|a: &i32, b: &i32| b.cmp(a));
    assert_eq!(list.get(0), Some(&3));
    assert_eq!(list.get(3), None);
}

#[test]
fn dynamic_list_sort_is_stable() {
    let mut list = DynamicList::from_vec(vec![(2, 'a'), (1, 'b'), (2, 'c'), (1, 'd'), (0, 'e')]);
    list.sort_by(|a: &(i32, char), b: &(i32, char)| a.0.cmp(&b.0));
    assert_eq!(list.as_slice(), &[(0, 'e'), (1, 'b'), (1, 'd'), (2, 'a'), (2, 'c')]);
}

#[test]
fn process_item_info_text() {
    let mut info = ProcessItemInfo::new(12, 0, 18446744073709551615, String::from("Run"));
    assert_eq!(
        info.get_info(),
        vec![
            String::from("12"),
            String::from("0"),
            String::from("18446744073709551615"),
            String::from("Run"),
        ]
    );
    info.update(1, 2, 3, String::from("Sleep"));
    assert_eq!(info.get_info(), vec!["1", "2", "3", "Sleep"]);
}

#[test]
fn decimal_string_matches_to_string() {
    for n in [0u64, 7, 10, 99, 100, 12345, u64::MAX] {
        assert_eq!(decimal_string(n), n.to_string());
    }
}

#[test]
fn run_time_text() {
    assert_eq!(run_time_dd_hh_mm_ss(0), "00D 00H 00M 00S");
    assert_eq!(run_time_dd_hh_mm_ss(3661), "00D 01H 01M 01S");
    assert_eq!(run_time_dd_hh_mm_ss(86399), "00D 23H 59M 59S");
    assert_eq!(run_time_dd_hh_mm_ss(90061), "00D 01H 01M 01S");
}
