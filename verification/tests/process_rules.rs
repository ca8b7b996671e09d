use process_display::events::event::Event;
use process_display::input::{Key, Mouse, MouseKind};
use process_display::models::items::process_filter::{
    filter_matches, name_matches, parse_filter, Comparison, ProcessFilter,
};
use process_display::process_list::selection_rules::{
    get_idx, selection_after_sort, selection_after_update,
};

#[test]
fn parse_filter_reads_pid_cpu_and_memory() {
    assert_eq!(parse_filter("pid>10"), ProcessFilter::Pid(Comparison::Greater, 10));
    assert_eq!(parse_filter("pid< 7 "), ProcessFilter::Pid(Comparison::Less, 7));
    assert_eq!(parse_filter("pid=+0"), ProcessFilter::Pid(Comparison::Equal, 0));
    assert_eq!(parse_filter("pid=4294967295"), ProcessFilter::Pid(Comparison::Equal, u32::MAX));
    assert_eq!(parse_filter("pid=4294967296"), ProcessFilter::Name);
    assert_eq!(parse_filter("pid=x"), ProcessFilter::Name);
    assert_eq!(parse_filter("pid="), ProcessFilter::Name);
    assert_eq!(parse_filter("cpu> 2.5 "), ProcessFilter::Cpu(Comparison::Greater, vec!['2', '.', '5']));
    assert_eq!(parse_filter("mem<300"), ProcessFilter::Memory(Comparison::Less, 300));
    assert_eq!(parse_filter("mem=-1"), ProcessFilter::Name);
    assert_eq!(parse_filter("pid"), ProcessFilter::Name);
    assert_eq!(parse_filter("chrome"), ProcessFilter::Name);
    assert_eq!(parse_filter(""), ProcessFilter::Name);
}

#[test]
fn filter_matches_compares_and_searches_names() {
    let q = parse_filter("pid>10");
    assert!(filter_matches(&q, "pid>10", 11, 0, "a", None));
    assert!(!filter_matches(&q, "pid>10", 10, 0, "a", None));
    let q = parse_filter("mem=3");
    assert!(filter_matches(&q, "mem=3", 1, 3_999_999, "a", None));
    assert!(!filter_matches(&q, "mem=3", 1, 4_000_000, "a", None));
    let q = parse_filter("cpu>1.5");
    assert!(filter_matches(&q, "cpu>1.5", 1, 0, "a", Some(true)));
    assert!(!filter_matches(&q, "cpu>1.5", 1, 0, "a", Some(false)));
    assert!(filter_matches(&q, "cpu>1.5", 1, 0, "my cpu>1.5 task", None));
    let q = parse_filter("Chr");
    assert!(filter_matches(&q, "Chr", 1, 0, "chrome", None));
    assert!(!filter_matches(&q, "Chr", 1, 0, "firefox", None));
    assert!(filter_matches(&parse_filter(""), "", 0, 0, "", None));
    assert!(!filter_matches(&parse_filter("a"), "a", 0, 0, "", None));
    assert!(filter_matches(&parse_filter("pid=0"), "pid=0", 0, 0, "", None));
}

#[test]
fn name_matches_ignores_case() {
    assert!(name_matches("Discord-Helper", "HELPER"));
    assert!(name_matches("abc", ""));
    assert!(!name_matches("abc", "abcd"));
    assert!(name_matches("ÉCOLE", "école"));
}

#[test]
fn get_idx_finds_first_position() {
    let pids = [4, 7, 7, 1];
    assert_eq!(get_idx(&pids, 7), Some(1));
    assert_eq!(get_idx(&pids, 1), Some(3));
    assert_eq!(get_idx(&pids, 9), None);
    assert_eq!(get_idx(&[], 9), None);
}

#[test]
fn selection_after_update_follows_or_clamps() {
    assert_eq!(selection_after_update(Some(3), false, Some(5), &[]), None);
    assert_eq!(selection_after_update(Some(3), false, Some(5), &[1, 2]), Some(1));
    assert_eq!(selection_after_update(Some(0), false, Some(5), &[1, 2]), Some(0));
    assert_eq!(selection_after_update(None, false, None, &[1, 2]), Some(0));
    assert_eq!(selection_after_update(Some(0), true, Some(2), &[1, 2]), Some(1));
    assert_eq!(selection_after_update(Some(1), true, Some(3), &[1, 2]), Some(0));
    assert_eq!(selection_after_update(Some(0), true, None, &[1, 2]), Some(0));
}

#[test]
fn selection_after_sort_follows_only_when_asked() {
    assert_eq!(selection_after_sort(Some(0), false, Some(1), &[2, 1]), Some(0));
    assert_eq!(selection_after_sort(Some(0), true, Some(1), &[2, 1]), Some(1));
    assert_eq!(selection_after_sort(Some(0), true, Some(9), &[2, 1]), None);
    assert_eq!(selection_after_sort(None, true, None, &[2, 1]), None);
}

#[test]
fn events_carry_inputs() {
    let e = Event::KeyInput(Key::Char('q'));
    assert!(e == Event::KeyInput(Key::Char('q')));
    let m = Event::MouseInput(Mouse { kind: MouseKind::LeftClick, column: 3, row: 4 });
    assert!(m != Event::Tick);
    assert!(Event::Refresh != Event::Tick);
}
