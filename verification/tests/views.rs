use process_display::app::{commands, App, MainFocus};
use process_display::components::area::{centered_area, Area};
use process_display::components::cpu::{CPUComponent, ColorWheel as CpuColor, Focus as CpuFocus};
use process_display::components::error::ErrorComponent;
use process_display::components::filter::FilterComponent;
use process_display::components::help::{HelpComponent, HelpLineKind};
use process_display::components::memory::MemoryComponent;
use process_display::components::network::NetworkComponent;
use process_display::components::tab::{Tab, TabComponent};
use process_display::components::temp::TempComponent;
use process_display::components::utils::data_window::visible_points;
use process_display::components::vertical_tabs::{VerticalTab, VerticalTabComponent};
use process_display::components::EventState;
use process_display::config::{Config, KeyConfig, MouseConfig};
use process_display::input::{Key, Mouse, MouseKind};
use process_display::models::items::memory_item::MemoryItem;
use process_display::models::items::network_item::NetworkItem;
use process_display::models::process_table::ProcessRow;

fn click(kind: MouseKind, column: u16, row: u16) -> Mouse {
    Mouse { kind, column, row }
}

#[test]
fn cpu_component_navigates_list_and_chart() {
    let config = Config::default();
    let keys = config.key_config;
    let mut cpu: CPUComponent<u32> = CPUComponent::new(config, vec![(0, 10), (1, 20), (2, 30)]);
    assert_eq!(cpu.selection(), Some(0));
    assert_eq!(cpu.focus(), CpuFocus::CPUList);
    assert_eq!(cpu.cpu_selection(), None);
    assert_eq!(cpu.data_window().window_length(), 30);
    assert_eq!(cpu.data_window().window_offset(), 0);
    // the list has a line for all and one per processor
    assert_eq!(cpu.key_event(keys.move_down), EventState::Consumed);
    assert_eq!(cpu.selection(), Some(1));
    assert_eq!(cpu.cpu_selection(), Some(0));
    assert_eq!(cpu.key_event(keys.move_bottom), EventState::Consumed);
    assert_eq!(cpu.selection(), Some(3));
    assert_eq!(cpu.cpu_selection(), Some(2));
    assert_eq!(cpu.key_event(Key::Char('x')), EventState::NotConsumed);
    // the filter key moves the focus to the chart, where keys pan and zoom by 15 samples
    assert_eq!(cpu.key_event(keys.filter), EventState::Consumed);
    assert_eq!(cpu.focus(), CpuFocus::Chart);
    assert_eq!(cpu.key_event(keys.move_down), EventState::Consumed);
    assert_eq!(cpu.data_window().window_length(), 45);
    assert_eq!(cpu.key_event(keys.move_up), EventState::Consumed);
    assert_eq!(cpu.data_window().window_length(), 30);
    assert_eq!(cpu.key_event(keys.move_left), EventState::Consumed);
    assert_eq!(cpu.data_window().window_offset(), 15);
    assert_eq!(cpu.key_event(keys.move_right), EventState::Consumed);
    assert_eq!(cpu.data_window().window_offset(), 0);
    assert_eq!(cpu.selection(), Some(3));
    // the wheel zooms the chart
    assert_eq!(cpu.mouse_event(click(MouseKind::ScrollDown, 0, 0)), EventState::Consumed);
    assert_eq!(cpu.data_window().window_length(), 45);
    // clicks move the focus once the areas are known
    assert_eq!(cpu.mouse_event(click(MouseKind::LeftClick, 12, 3)), EventState::NotConsumed);
    cpu.set_areas(Area::new(0, 0, 10, 10), Area::new(10, 0, 5, 10));
    assert_eq!(cpu.mouse_event(click(MouseKind::LeftClick, 12, 3)), EventState::Consumed);
    assert_eq!(cpu.focus(), CpuFocus::CPUList);
    // in the list the wheel moves the selection without using the event
    assert_eq!(cpu.mouse_event(click(MouseKind::ScrollUp, 0, 0)), EventState::NotConsumed);
    assert_eq!(cpu.selection(), Some(2));
    // new samples go to their processor's queue
    cpu.update(vec![(1, 21), (3, 40)]);
    assert_eq!(cpu.cpus().len(), 4);
    assert_eq!(cpu.cpus().get(&1).unwrap().items().len(), 2);
    assert_eq!(*cpu.cpus().get(&1).unwrap().back().unwrap(), 21);
    assert_eq!(*cpu.cpus().get(&3).unwrap().front().unwrap(), 40);
}

#[test]
fn cpu_chart_shows_all_or_the_selected_processor() {
    let config = Config::default();
    let keys = config.key_config;
    let mut cpu: CPUComponent<u32> = CPUComponent::new(config, vec![(2, 30), (0, 10), (1, 20)]);
    assert_eq!(cpu.chart_ids(), vec![0, 1, 2]);
    assert_eq!(cpu.key_event(keys.move_down), EventState::Consumed);
    assert_eq!(cpu.chart_ids(), vec![0]);
    assert_eq!(cpu.key_event(keys.move_bottom), EventState::Consumed);
    assert_eq!(cpu.chart_ids(), vec![2]);
}

#[test]
fn cpu_color_wheel_has_seven_colors() {
    let mut c = CpuColor::default();
    assert_eq!(c.as_str(), "lightred");
    for _ in 0..7 {
        c.rotate();
    }
    assert_eq!(c, CpuColor::LightRed);
    assert_eq!(CpuColor::from_index(7783).as_str(), CpuColor::from_index(7783 % 7).as_str());
    assert_eq!(CpuColor::from_index(6).as_str(), "lightmagenta");
    c.rotate();
    c.reset();
    assert_eq!(c, CpuColor::LightRed);
}

#[test]
fn memory_component_widens_and_narrows() {
    let config = Config::default();
    let keys = config.key_config;
    let mut memory = MemoryComponent::new(config, MemoryItem::new(100, 50, 10, 5));
    assert_eq!(memory.time_span(), 60000);
    assert_eq!(memory.window_length(), 30);
    assert_eq!(memory.key_event(keys.move_down), EventState::Consumed);
    assert_eq!(memory.time_span(), 90000);
    // narrowing never goes below the longest span
    assert_eq!(memory.key_event(keys.move_up), EventState::Consumed);
    assert_eq!(memory.time_span(), 300000);
    assert_eq!(memory.key_event(keys.move_down), EventState::Consumed);
    assert_eq!(memory.time_span(), 300000);
    assert_eq!(memory.window_length(), 150);
    assert_eq!(memory.key_event(Key::Enter), EventState::NotConsumed);
    assert_eq!(memory.mouse_event(click(MouseKind::Drag, 0, 0)), EventState::NotConsumed);
    memory.refresh(MemoryItem::new(100, 60, 10, 5));
    assert_eq!(memory.queue().items().len(), 2);
}

#[test]
fn network_component_pans_and_zooms() {
    let config = Config::default();
    let keys = config.key_config;
    let mut network = NetworkComponent::new(config, NetworkItem::new(1, 2, 3, 4));
    assert_eq!(network.key_event(keys.move_left), EventState::Consumed);
    assert_eq!(network.data_window().window_offset(), 15);
    assert_eq!(network.key_event(keys.move_down), EventState::Consumed);
    assert_eq!(network.data_window().window_length(), 45);
    assert_eq!(network.mouse_event(click(MouseKind::ScrollUp, 0, 0)), EventState::Consumed);
    assert_eq!(network.data_window().window_length(), 30);
    assert_eq!(network.key_event(Key::Tab), EventState::NotConsumed);
    network.refresh(NetworkItem::new(5, 6, 7, 8));
    assert_eq!(network.queue().items().len(), 2);
}

#[test]
fn network_peak_and_legend() {
    let config = Config::default();
    let mut network = NetworkComponent::new(config, NetworkItem::new(4096, 1024, 3 * 1048576, 1048576));
    network.refresh(NetworkItem::new(10240, 20480, 5 * 1048576, 2 * 1048576));
    // both samples are visible: the largest is 20480 bytes received, 20 KiB
    assert_eq!(network.visible_peak_kb(), 20);
    // per second over a refresh period of two seconds, and totals in MiB
    assert_eq!(network.legend(), Some((5, 10, 5, 2)));
    // panning back past the newest sample leaves only the first one visible
    network.key_event(config.key_config.move_left);
    assert_eq!(network.data_window().window_offset(), 15);
    assert_eq!(network.visible_peak_kb(), 0);
}

#[test]
fn window_moves_undo_each_other() {
    let config = Config::default();
    let keys = config.key_config;
    let mut network = NetworkComponent::new(config, NetworkItem::new(1, 2, 3, 4));
    network.key_event(keys.move_left);
    network.key_event(keys.move_right);
    assert_eq!(network.data_window().window_offset(), 0);
    network.key_event(keys.move_down);
    network.key_event(keys.move_up);
    assert_eq!(network.data_window().window_length(), 30);
}

#[test]
fn visible_points_map_newest_samples_to_the_right() {
    assert_eq!(visible_points(10, 2, 3), vec![(2, 7), (1, 6), (0, 5)]);
    assert_eq!(visible_points(3, 0, 5), vec![(4, 2), (3, 1), (2, 0)]);
    assert_eq!(visible_points(3, 4, 5), vec![]);
}

#[test]
fn help_component_lists_commands_in_groups() {
    let config = Config::default();
    let keys = config.key_config;
    let mut help = HelpComponent::new(config);
    help.set_commands(commands(&keys, &MouseConfig::default()));
    assert_eq!(help.commands_len(), 10);
    assert!(!help.is_visible());
    assert_eq!(help.key_event(keys.move_down), EventState::NotConsumed);
    assert_eq!(help.key_event(keys.help), EventState::Consumed);
    assert!(help.is_visible());
    assert_eq!(help.key_event(keys.move_down), EventState::Consumed);
    assert_eq!(help.selection(), 1);
    assert_eq!(help.key_event(keys.move_up), EventState::Consumed);
    assert_eq!(help.key_event(keys.move_up), EventState::Consumed);
    assert_eq!(help.selection(), 0);
    for _ in 0..20 {
        help.key_event(keys.move_down);
    }
    assert_eq!(help.selection(), 9);
    let lines = help.get_text(5);
    // two groups of four, then two more in the first group again
    assert_eq!(lines.len(), 13);
    assert_eq!(lines[0].text, "-- General --");
    assert_eq!(lines[0].kind, HelpLineKind::Group);
    assert_eq!(lines[1].text, " Help [Char('?')]    5");
    assert_eq!(lines[1].kind, HelpLineKind::Plain);
    assert_eq!(lines[5].text, "-- Process --");
    assert_eq!(lines[10].text, "-- General --");
    assert_eq!(lines[12].kind, HelpLineKind::Selected);
    assert_eq!(help.scroll(), 1);
    assert_eq!(help.area(100, 50), Area::new(17, 13, 65, 24));
    assert_eq!(help.mouse_event(click(MouseKind::LeftClick, 0, 0)), EventState::NotConsumed);
    assert_eq!(help.key_event(keys.exit), EventState::Consumed);
    assert!(!help.is_visible());
}

#[test]
fn error_and_filter_components() {
    let config = Config::default();
    let mut error = ErrorComponent::new(config);
    assert_eq!(error.key_event(Key::Esc), EventState::NotConsumed);
    error.set(String::from("boom"));
    assert!(error.is_visible());
    assert_eq!(error.error(), "boom");
    assert_eq!(error.key_event(Key::Enter), EventState::NotConsumed);
    assert_eq!(error.key_event(Key::Esc), EventState::Consumed);
    assert!(!error.is_visible());
    assert_eq!(error.error(), "");
    assert_eq!(error.area(40, 5), Area::new(0, 0, 40, 5));

    let mut filter = FilterComponent::new(config);
    assert!(filter.is_filter_empty());
    assert_eq!(filter.filter_contents(), None);
    assert_eq!(filter.key_event(Key::Char('a')), EventState::Consumed);
    assert_eq!(filter.key_event(Key::Char('b')), EventState::Consumed);
    assert_eq!(filter.key_event(Key::Backspace), EventState::Consumed);
    assert_eq!(filter.key_event(Key::Up), EventState::NotConsumed);
    assert_eq!(filter.filter_contents(), Some("a"));
    filter.key_event(Key::Backspace);
    assert_eq!(filter.key_event(Key::Backspace), EventState::Consumed);
    assert_eq!(filter.input_str(), "");
    filter.key_event(Key::Char('z'));
    filter.reset();
    assert!(filter.is_filter_empty());
}

#[test]
fn tabs_wrap_round() {
    let config = Config::default();
    let mut tabs = TabComponent::new(config);
    assert_eq!(tabs.event(config.key_config.tab_right), EventState::Consumed);
    assert_eq!(tabs.selected_tab, Tab::CPU);
    assert_eq!(tabs.event(config.key_config.tab_left), EventState::Consumed);
    assert_eq!(tabs.event(config.key_config.tab_left), EventState::Consumed);
    assert_eq!(tabs.selected_tab, Tab::Disk);
    assert_eq!(tabs.selected_index(), 3);
    assert_eq!(tabs.event(Key::Enter), EventState::NotConsumed);
    assert_eq!(tabs.names(), vec!["Process", "CPU", "Memory", "Disk"]);
    tabs.reset();
    assert_eq!(tabs.selected_tab, Tab::Process);

    let mut vertical = VerticalTabComponent::new(KeyConfig::default());
    assert_eq!(vertical.event(Key::Down), EventState::Consumed);
    assert_eq!(vertical.selected_vert_tab, VerticalTab::Memory);
    assert_eq!(vertical.event(Key::Up), EventState::Consumed);
    assert_eq!(vertical.event(Key::Up), EventState::Consumed);
    assert_eq!(vertical.selected_vert_tab, VerticalTab::Network);
    assert_eq!(vertical.event(Key::Enter), EventState::NotConsumed);
    assert_eq!(vertical.names(), vec!["CPU", "Memory", "Network"]);
    vertical.reset();
    assert_eq!(vertical.selected_vert_tab, VerticalTab::Cpu);
}

#[test]
fn temp_component_moves_within_sensors() {
    let config = Config::default();
    let mut temps: TempComponent<u32> = TempComponent::new(config, vec![40, 50, 60]);
    for _ in 0..4 {
        assert_eq!(temps.event(Key::Down), EventState::Consumed);
    }
    assert_eq!(temps.ui_selection(), 2);
    assert_eq!(temps.event(Key::Up), EventState::Consumed);
    assert_eq!(temps.ui_selection(), 1);
    assert_eq!(temps.event(Key::Tab), EventState::NotConsumed);
    assert_eq!(temps.scroll(2), 0);
    temps.update(vec![45]);
    assert_eq!(temps.temps(), &[45]);
    assert_eq!(temps.ui_selection(), 1);
}

fn rows() -> Vec<ProcessRow> {
    vec![ProcessRow {
        pid: 1,
        name: String::from("init"),
        cpu_rank: 0,
        memory_usage: 1,
        status: String::from("Sleeping"),
        run_time: 5,
        cpu_test: None,
    }]
}

#[test]
fn app_moves_focus_and_toggles_modes() {
    let config = Config::default();
    let keys = config.key_config;
    let mut app: App<u32> = App::new(
        config,
        rows(),
        vec![(0, 1)],
        MemoryItem::new(10, 5, 1, 0),
        NetworkItem::new(1, 1, 1, 1),
    );
    assert_eq!(app.focus(), MainFocus::Process);
    assert_eq!(app.help.commands_len(), 10);
    assert_eq!(app.key_event(keys.tab), EventState::Consumed);
    assert_eq!(app.focus(), MainFocus::CPU);
    assert_eq!(app.key_event(keys.tab), EventState::Consumed);
    assert_eq!(app.focus(), MainFocus::Memory);
    assert_eq!(app.key_event(keys.tab), EventState::Consumed);
    assert_eq!(app.focus(), MainFocus::Network);
    assert_eq!(app.key_event(keys.tab), EventState::Consumed);
    assert_eq!(app.focus(), MainFocus::Process);
    // the process view takes its keys, and the terminate key
    assert_eq!(app.key_event(keys.terminate), EventState::Consumed);
    assert_eq!(app.key_event(keys.expand), EventState::Consumed);
    assert!(app.is_expanded());
    assert_eq!(app.key_event(keys.freeze), EventState::Consumed);
    assert!(app.is_frozen());
    // a frozen application ignores new data
    let r = app.refresh_event(vec![], vec![(0, 2)], MemoryItem::new(10, 6, 1, 0), NetworkItem::new(2, 2, 2, 2));
    assert_eq!(r, EventState::Consumed);
    assert_eq!(app.process.process_rows().len(), 1);
    app.toggle_freeze();
    app.refresh_event(vec![], vec![(0, 2)], MemoryItem::new(10, 6, 1, 0), NetworkItem::new(2, 2, 2, 2));
    assert_eq!(app.process.process_rows().len(), 0);
    assert_eq!(app.memory.queue().items().len(), 2);
    // an error window takes the exit key
    app.error.set(String::from("failed"));
    assert_eq!(app.key_event(keys.exit), EventState::Consumed);
    assert!(!app.error.is_visible());
    assert_eq!(app.key_event(keys.exit), EventState::NotConsumed);
}

#[test]
fn app_clicks_move_focus() {
    let config = Config::default();
    let mut app: App<u32> = App::new(
        config,
        rows(),
        vec![(0, 1)],
        MemoryItem::new(10, 5, 1, 0),
        NetworkItem::new(1, 1, 1, 1),
    );
    app.insert_focus_rect(MainFocus::CPU, Area::new(0, 0, 50, 10));
    app.insert_focus_rect(MainFocus::Process, Area::new(0, 20, 100, 30));
    app.insert_focus_rect(MainFocus::Help, Area::new(90, 40, 5, 3));
    app.insert_focus_rect(MainFocus::CPU, Area::new(0, 0, 60, 10));
    assert_eq!(app.focus_rects.len(), 3);
    assert_eq!(app.mouse_event(click(MouseKind::LeftClick, 55, 5)), EventState::Consumed);
    assert_eq!(app.focus(), MainFocus::CPU);
    // the help area lies over the process table and keeps the focus
    assert_eq!(app.mouse_event(click(MouseKind::LeftClick, 91, 41)), EventState::Consumed);
    assert_eq!(app.focus(), MainFocus::CPU);
    assert_eq!(app.mouse_event(click(MouseKind::LeftClick, 10, 25)), EventState::Consumed);
    assert_eq!(app.focus(), MainFocus::Process);
    assert_eq!(app.mouse_event(click(MouseKind::LeftClick, 200, 200)), EventState::NotConsumed);
    assert_eq!(app.mouse_event(click(MouseKind::ScrollDown, 200, 200)), EventState::Consumed);
    app.clear_focus_rects();
    assert_eq!(app.focus_rects.len(), 0);
}

#[test]
fn app_draws_all_views_or_the_focused_one() {
    let config = Config::default();
    let keys = config.key_config;
    let mut app: App<u32> = App::new(
        config,
        rows(),
        vec![(0, 1)],
        MemoryItem::new(10, 5, 1, 0),
        NetworkItem::new(1, 1, 1, 1),
    );
    assert_eq!(
        app.views_to_draw(),
        vec![MainFocus::Process, MainFocus::Help, MainFocus::CPU, MainFocus::Memory, MainFocus::Network]
    );
    app.key_event(keys.tab);
    app.key_event(keys.expand);
    assert_eq!(app.views_to_draw(), vec![MainFocus::CPU]);
    app.help.show();
    assert_eq!(app.views_to_draw(), vec![]);
    // while shown, the help window takes every key
    assert_eq!(app.key_event(keys.tab), EventState::Consumed);
    assert_eq!(app.focus(), MainFocus::CPU);
    assert_eq!(app.key_event(keys.exit), EventState::Consumed);
    assert!(!app.help.is_visible());
}

#[test]
fn centered_areas_fit_the_screen() {
    assert_eq!(centered_area(100, 50, 65, 24), Area::new(17, 13, 65, 24));
    assert_eq!(centered_area(40, 10, 65, 24), Area::new(0, 0, 40, 10));
    assert!(Area::new(10, 10, 5, 5).contains(14, 10));
    assert!(!Area::new(10, 10, 5, 5).contains(15, 10));
    assert!(Area::new(65530, 0, 10, 1).contains(65534, 0));
}
