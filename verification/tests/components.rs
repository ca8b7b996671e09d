use process_display::components::command::{
    exit_popup, filter_submit, help, key_debug, move_selection, select_process,
    selection_to_top_bottom, sort_list_by_cpu_usage, sort_list_by_memory_usage, sort_list_by_name,
    sort_list_by_pid, terminate_process, CommandInfo, CommandText, CMD_GROUP_GENERAL,
    CMD_GROUP_PROCESS,
};
use process_display::components::command_new::{HelpInfo, HelpText};
use process_display::components::process_list::ProcessList;
use process_display::components::system_component::{SystemComponent, SystemComponentInner};
use process_display::components::terminate::TerminateComponent;
use process_display::components::utils::color_wheel::ColorWheel;
use process_display::components::utils::data_labels::DataLabels;
use process_display::components::utils::data_window::DataWindow;
use process_display::components::utils::selection::SelectionState;
use process_display::components::utils::vertical_scroll::VerticalScroll;
use process_display::components::utils::MoveSelection;
use process_display::components::{common_nav, EventState, MoveSelection as NavMove};
use process_display::config::{ms_to_s, Config, KeyConfig, MouseConfig};
use process_display::input::{Key, MouseKind};

#[test]
fn data_window_new_checks_length_and_fit() {
    assert!(DataWindow::new(0, 1, 10).is_none());
    assert!(DataWindow::new(5, 6, 10).is_none());
    let w = DataWindow::new(4, 6, 10).unwrap();
    assert_eq!(w.window_offset(), 4);
    assert_eq!(w.window_length(), 6);
}

#[test]
fn data_window_pans_within_buffer() {
    let mut w = DataWindow::new(0, 4, 10).unwrap();
    w.pan_positive(3);
    assert_eq!(w.window_offset(), 3);
    w.pan_positive(100);
    assert_eq!(w.window_offset(), 6);
    w.pan_negative(2);
    assert_eq!(w.window_offset(), 4);
    w.pan_negative(100);
    assert_eq!(w.window_offset(), 0);
}

#[test]
fn data_window_zooms_within_buffer() {
    let mut w = DataWindow::new(6, 4, 10).unwrap();
    w.zoom_out(3);
    assert_eq!(w.window_offset(), 3);
    assert_eq!(w.window_length(), 7);
    w.zoom_out(100);
    assert_eq!(w.window_offset(), 0);
    assert_eq!(w.window_length(), 10);
    w.zoom_in(3);
    assert_eq!(w.window_length(), 7);
    w.zoom_in(100);
    assert_eq!(w.window_length(), 2);
}

#[test]
fn selection_state_moves_within_list() {
    let mut s = SelectionState::new(Some(0));
    assert!(!s.follow_selection);
    s.move_selection(MoveSelection::Up, 2);
    assert_eq!(s.selection, Some(0));
    s.move_selection(MoveSelection::Down, 2);
    s.move_selection(MoveSelection::Down, 2);
    assert_eq!(s.selection, Some(1));
    s.move_selection(MoveSelection::Top, 2);
    assert_eq!(s.selection, Some(0));
    s.move_selection(MoveSelection::Bottom, 2);
    assert_eq!(s.selection, Some(1));
    s.move_selection(MoveSelection::MultipleUp, 2);
    assert_eq!(s.selection, Some(0));
    s.move_selection(MoveSelection::MultipleDown, 25);
    assert_eq!(s.selection, Some(10));
    s.move_selection(MoveSelection::MultipleDown, 15);
    assert_eq!(s.selection, Some(14));
    s.move_selection(MoveSelection::MultipleUp, 15);
    assert_eq!(s.selection, Some(4));
    s.set_selection(None);
    s.move_selection(MoveSelection::Down, 15);
    assert_eq!(s.selection, None);
    s.set_follow(true);
    assert!(s.follow_selection);
}

#[test]
fn selection_state_on_empty_list() {
    let mut s = SelectionState::new(Some(0));
    s.move_selection(MoveSelection::Down, 0);
    assert_eq!(s.selection, Some(0));
    s.move_selection(MoveSelection::Bottom, 0);
    assert_eq!(s.selection, Some(0));
}

fn entries() -> Vec<(u32, String)> {
    vec![(1, String::from("a")), (2, String::from("b")), (3, String::from("a"))]
}

#[test]
fn process_list_steps_and_wraps() {
    let mut list = ProcessList::new();
    assert_eq!(list.get_pid(), None);
    list.set_unfiltered_list(entries());
    assert_eq!(list.get_pid(), Some(1));
    assert!(list.event(Key::Up));
    assert_eq!(list.get_idx(), 2);
    assert_eq!(list.get_pid(), Some(3));
    assert!(list.event(Key::Down));
    assert_eq!(list.get_idx(), 0);
    assert!(list.event(Key::Down));
    assert_eq!(list.get_pid(), Some(2));
    assert!(!list.event(Key::Left));
    assert_eq!(list.get_idx(), 1);
}

#[test]
fn process_list_filters_by_name() {
    let mut list = ProcessList::new();
    list.set_unfiltered_list(entries());
    list.set_filter_name(String::from("a"));
    list.set_filtered_list();
    assert!(list.event(Key::Enter));
    assert_eq!(list.get_process_list(), vec![(1, String::from("a")), (3, String::from("a"))]);
    assert_eq!(list.get_pid(), Some(1));
    list.event(Key::Down);
    assert_eq!(list.get_pid(), Some(3));
    list.swap_filter();
    assert_eq!(list.get_process_list(), entries());
    list.reset();
    assert_eq!(list.get_process_list(), vec![]);
    assert_eq!(list.get_idx(), 0);
}

#[test]
fn color_wheel_turns() {
    let mut c = ColorWheel::default();
    assert_eq!(c.as_str(), "red");
    c.rotate();
    assert!(c == ColorWheel::Blue);
    for _ in 0..5 {
        c.rotate();
    }
    assert!(c == ColorWheel::Red);
    assert!(ColorWheel::from_index(10) == ColorWheel::LightGreen);
    assert_eq!(ColorWheel::from_index(5).as_str(), "magenta");
    c = ColorWheel::Cyan;
    c.reset();
    assert!(c == ColorWheel::Red);
}

#[test]
fn vertical_scroll_keeps_selection_visible() {
    let mut scroll = VerticalScroll::new();
    assert_eq!(scroll.get_top(), 0);
    assert_eq!(scroll.update(3, 100, 10), 0);
    assert_eq!(scroll.update(9, 100, 10), 4);
    assert_eq!(scroll.update(8, 100, 10), 3);
    assert_eq!(scroll.update(6, 100, 10), 1);
    assert_eq!(scroll.update(2, 100, 10), 0);
    assert_eq!(scroll.update(5, 100, 11), 0);
    assert_eq!(scroll.update(6, 100, 11), 1);
    assert_eq!(scroll.update(50, 100, 0), 0);
    scroll.update(40, 100, 10);
    scroll.reset();
    assert_eq!(scroll.get_top(), 0);
}

#[test]
fn data_labels_start_relative() {
    let labels = DataLabels::new();
    assert_eq!(labels.time_last_refresh, 0);
    labels.labels(10, 0, 2, 2000);
}

#[test]
fn command_texts_show_bound_keys() {
    let key = KeyConfig::default();
    let mouse = MouseConfig::default();
    let c = move_selection(&key);
    assert_eq!(c.name, "Move selection up/down [Up/Down]");
    assert_eq!(c.group, CMD_GROUP_GENERAL);
    assert!(!c.hide_help);
    assert_eq!(selection_to_top_bottom(&key).name, "Move selection to top/bottom [Char('W')/Char('S')]");
    assert_eq!(filter_submit(&key).name, "Filter/Submit filter [Char('/')/Enter]");
    assert_eq!(exit_popup(&key).name, "Exit current screen [Esc]");
    assert_eq!(help(&key).name, "Help [Char('?')]");
    assert_eq!(terminate_process(&key).name, "Terminate selected process [Char('T')]");
    assert_eq!(sort_list_by_name(&key, &mouse).name, "Sort by name toggle [Char('n')]");
    assert_eq!(sort_list_by_pid(&key, &mouse).name, "Sort by PID toggle [Char('p')]");
    assert_eq!(sort_list_by_cpu_usage(&key, &mouse).name, "Sort by cpu usage toggle [Char('c')]");
    assert_eq!(sort_list_by_memory_usage(&key, &mouse).name, "Sort by memory usage toggle [Char('m')]");
    let s = select_process(&key, &mouse);
    assert_eq!(s.name, "Select process by mouse [LeftClick] | [ScrollDown/ScrollUp]");
    assert_eq!(s.group, CMD_GROUP_PROCESS);
}

#[test]
fn key_debug_matches_derived_debug() {
    for k in [Key::Enter, Key::Esc, Key::Char('x'), Key::Char('\''), Key::Char('\n'), Key::Backspace, Key::Up, Key::Down, Key::Left, Key::Right, Key::Tab, Key::Unkown] {
        assert_eq!(key_debug(k), format!("{:?}", k));
    }
}

#[test]
fn command_and_help_records() {
    let info = CommandInfo::new(CommandText::new(String::from("x"), CMD_GROUP_GENERAL));
    assert_eq!(info.text.name, "x");
    assert!(!info.text.hide_help);
    let help = HelpInfo::new(HelpText::new(String::from("y"), "g"));
    assert_eq!(help.text.name, "y");
    assert_eq!(help.text.group, "g");
}

#[test]
fn common_nav_maps_navigation_keys() {
    let keys = KeyConfig::default();
    assert!(common_nav(Key::Down, &keys) == Some(NavMove::Down));
    assert!(common_nav(Key::Char('S'), &keys) == Some(NavMove::Bottom));
    assert!(common_nav(Key::Up, &keys) == Some(NavMove::Up));
    assert!(common_nav(Key::Char('W'), &keys) == Some(NavMove::Top));
    assert!(common_nav(Key::Char('q'), &keys).is_none());
    assert!(EventState::Consumed.is_consumed());
    assert!(!EventState::NotConsumed.is_consumed());
}

#[test]
fn config_defaults() {
    let config = Config::default();
    assert_eq!(config.refresh_rate(), 2000);
    assert_eq!(config.max_time_scale(), 300000);
    assert_eq!(config.min_time_scale(), 60000);
    assert_eq!(config.time_inc(), 30000);
    assert_eq!(config.tick_rate(), 250);
    assert!(config.key_config.exit == Key::Esc);
    assert!(config.mouse_config.scroll_up == MouseKind::ScrollUp);
    assert_eq!(ms_to_s(1999), 1);
    assert_eq!(ms_to_s(2000), 2);
}

#[test]
fn system_component_init_update_and_keys() {
    let inner = SystemComponentInner::default();
    assert_eq!(inner.as_vec(), vec!["", "", "", "", "", ""]);
    assert_eq!(SystemComponentInner::FIELD_NAMES[5], "System Uptime");
    let mut inner = inner;
    inner.update(String::from("5s"));
    assert_eq!(inner.as_vec()[5], "5s");
    assert_eq!(inner.as_vec(), vec!["", "", "", "", "", "5s"]);

    let mut c = SystemComponent::default();
    assert!(c.key_event(Key::Down) == EventState::NotConsumed);
    let facts: Vec<String> = ["k", "h", "a", "4", "os", "1s"].iter().map(|s| s.to_string()).collect();
    c.init(facts);
    for _ in 0..10 {
        assert!(c.key_event(Key::Down) == EventState::Consumed);
    }
    assert!(c.key_event(Key::Up) == EventState::Consumed);
    assert!(c.key_event(Key::Char('z')) == EventState::NotConsumed);
    c.update(String::from("2s"));
}

#[test]
fn terminate_component_takes_process() {
    let mut t = TerminateComponent::new(KeyConfig::default());
    t.set_info(None);
    t.set_info(Some((42, String::from("proc"))));
    t.set_info(None);
}
