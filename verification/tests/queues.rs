use process_display::components::performance::PerformanceComponent;
use process_display::components::vertical_tabs::VerticalTab;
use process_display::config::KeyConfig;
use process_display::models::bounded_queue_model::BoundedQueueModel;
use process_display::performance_queue::bounded_queue::PerformanceQueue;
use process_display::performance_queue::memory_item::MemoryItem as PerformanceMemoryItem;

#[test]
fn perf_item_test_cpuinfo_default() {
    let queue: PerformanceQueue<u64> = PerformanceQueue::new(0);
    assert_eq!(queue.capacity(), 0);
}

#[test]
fn bounded_queue_model_keeps_most_recent_items() {
    let mut queue: BoundedQueueModel<u64> = BoundedQueueModel::new(2);
    assert_eq!(queue.capacity(), 2);
    assert_eq!(queue.front(), None);
    assert_eq!(queue.back(), None);
    queue.add_item(20);
    assert_eq!(queue.back(), Some(&20));
    assert_eq!(queue.front(), Some(&20));
    queue.add_item(132);
    assert_eq!(queue.back(), Some(&132));
    assert_eq!(queue.front(), Some(&20));
    queue.add_item(157);
    assert_eq!(queue.back(), Some(&157));
    assert_eq!(queue.front(), Some(&132));
    assert_eq!(queue.items().len(), 2);
    let collected: Vec<u64> = queue.iter().copied().collect();
    assert_eq!(collected, vec![132, 157]);
}

#[test]
fn bounded_queue_model_with_capacity_zero_keeps_the_first_item() {
    let mut queue: BoundedQueueModel<u64> = BoundedQueueModel::new(0);
    queue.add_item(7);
    assert_eq!(queue.front(), Some(&7));
    assert_eq!(queue.items().len(), 1);
}

#[test]
fn bounded_queue_model_holds_last_capacity_of_many_items() {
    let mut queue: BoundedQueueModel<u64> = BoundedQueueModel::new(3);
    for i in 0..10u64 {
        queue.add_item(i);
    }
    let collected: Vec<u64> = queue.iter().copied().collect();
    assert_eq!(collected, vec![7, 8, 9]);
}

#[test]
fn performance_queue_keeps_most_recent_samples() {
    let mut queue: PerformanceQueue<PerformanceMemoryItem> = PerformanceQueue::new(2);
    assert_eq!(queue.capacity(), 2);
    let a = PerformanceMemoryItem::new(1, 2, 3, 4);
    let b = PerformanceMemoryItem::new(5, 6, 7, 8);
    let c = PerformanceMemoryItem::new(9, 10, 11, 12);
    queue.add_item(&a);
    assert_eq!(queue.back().unwrap().total_memory(), 1);
    assert_eq!(queue.front().unwrap().total_memory(), 1);
    queue.add_item(&b);
    assert_eq!(queue.back().unwrap().total_memory(), 5);
    assert_eq!(queue.front().unwrap().total_memory(), 1);
    queue.add_item(&c);
    assert_eq!(queue.back().unwrap().total_memory(), 9);
    assert_eq!(queue.front().unwrap().total_memory(), 5);
    assert_eq!(queue.iter().count(), 2);
}

#[test]
fn performance_queue_trims_an_overfull_queue() {
    let mut queue: PerformanceQueue<u32> = PerformanceQueue::new(2);
    queue.performance_items.push_back(1);
    queue.performance_items.push_back(2);
    queue.performance_items.push_back(3);
    queue.performance_items.push_back(4);
    queue.add_item(&5);
    let collected: Vec<u32> = queue.iter().copied().collect();
    assert_eq!(collected, vec![4, 5]);
}

#[test]
fn performance_queue_iterates_the_most_recent_items() {
    let mut queue: PerformanceQueue<u32> = PerformanceQueue::new(3);
    for x in 1..=7u32 {
        queue.add_item(&x);
    }
    let collected: Vec<u32> = queue.iter().copied().collect();
    assert_eq!(collected, vec![5, 6, 7]);
    let mut short: PerformanceQueue<u32> = PerformanceQueue::new(3);
    short.add_item(&1);
    short.add_item(&2);
    let collected: Vec<u32> = short.iter().copied().collect();
    assert_eq!(collected, vec![1, 2]);
}

#[test]
fn performance_component_keeps_both_histories() {
    let mut perf: PerformanceComponent<u32> = PerformanceComponent::new(KeyConfig::default(), 2);
    assert!(perf.selected_tab() == VerticalTab::Cpu);
    for x in 1..=3u64 {
        perf.update(&(x as u32), &PerformanceMemoryItem::new(x, 0, 0, 0));
    }
    let cpu: Vec<u32> = perf.cpu_info().iter().copied().collect();
    assert_eq!(cpu, vec![2, 3]);
    assert_eq!(perf.memory_info().front().unwrap().total_memory(), 2);
    let mut none: PerformanceComponent<u32> = PerformanceComponent::new(KeyConfig::default(), 0);
    none.update(&7, &PerformanceMemoryItem::default());
    assert_eq!(none.cpu_info().back(), Some(&7));
}
