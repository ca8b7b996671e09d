use vstd::prelude::*;
use crate::input::{Key, MouseKind};

verus! {

/// Refresh period in milliseconds (2 seconds).
pub const DEFAULT_REFRESH_RATE: u64 = 2000;
/// Longest time span a chart shows, in milliseconds (5 minutes).
pub const DEFAULT_MAX_TIME_SCALE: u64 = 300000;
/// Shortest time span a chart shows, in milliseconds (60 seconds).
pub const DEFAULT_MIN_TIME_SCALE: u64 = 60000;
/// Step by which a chart's time span changes, in milliseconds (30 seconds).
pub const DEFAULT_TIME_INC: u64 = 30000;
/// Period of the input tick, in milliseconds.
pub const DEFAULT_TICK_RATE: u64 = 250;

/// Settings of the monitor: key and mouse bindings and timing (in milliseconds).
#[derive(Clone, Copy)]
pub struct Config {
    pub key_config: KeyConfig,
    pub mouse_config: MouseConfig,
    pub refresh_rate: u64,
    pub max_time_scale: u64,
    pub min_time_scale: u64,
    pub time_inc: u64,
    pub tick_rate: u64,
}

impl Config {
    pub fn refresh_rate(&self) -> (r: u64)
        ensures
            r == self.refresh_rate,
    {
        self.refresh_rate
    }

    pub fn max_time_scale(&self) -> (r: u64)
        ensures
            r == self.max_time_scale,
    {
        self.max_time_scale
    }

    pub fn min_time_scale(&self) -> (r: u64)
        ensures
            r == self.min_time_scale,
    {
        self.min_time_scale
    }

    pub fn time_inc(&self) -> (r: u64)
        ensures
            r == self.time_inc,
    {
        self.time_inc
    }

    pub fn tick_rate(&self) -> (r: u64)
        ensures
            r == self.tick_rate,
    {
        self.tick_rate
    }
}

impl Config {
    /// The default settings.
    pub open spec fn default_spec() -> Config {
        Config {
            key_config: KeyConfig::spec_default(),
            mouse_config: MouseConfig::spec_default(),
            refresh_rate: DEFAULT_REFRESH_RATE,
            max_time_scale: DEFAULT_MAX_TIME_SCALE,
            min_time_scale: DEFAULT_MIN_TIME_SCALE,
            time_inc: DEFAULT_TIME_INC,
            tick_rate: DEFAULT_TICK_RATE,
        }
    }
}

impl Default for Config {
    fn default() -> (r: Self)
        ensures
            r == Config::default_spec(),
    {
        Self {
            key_config: KeyConfig::default(),
            mouse_config: MouseConfig::default(),
            refresh_rate: DEFAULT_REFRESH_RATE,
            max_time_scale: DEFAULT_MAX_TIME_SCALE,
            min_time_scale: DEFAULT_MIN_TIME_SCALE,
            time_inc: DEFAULT_TIME_INC,
            tick_rate: DEFAULT_TICK_RATE,
        }
    }
}

impl Config {
    /// The number of samples the history buffers hold: the longest time span over the
    /// refresh period.
    pub open spec fn spec_buffer_capacity(&self) -> int {
        self.max_time_scale as int / self.refresh_rate as int
    }

    /// The number of samples a chart shows at first: the shortest time span over the
    /// refresh period.
    pub open spec fn spec_default_window(&self) -> int {
        self.min_time_scale as int / self.refresh_rate as int
    }

    /// The number of samples a zoom or pan step moves by: the time step over the refresh
    /// period.
    pub open spec fn spec_index_step(&self) -> int {
        self.time_inc as int / self.refresh_rate as int
    }

    /// Whether the timing can size a chart: a positive refresh period, counts that fit in
    /// `usize`, and a first window of at least two samples inside the buffer.
    pub open spec fn valid_timing(&self) -> bool {
        &&& self.refresh_rate > 0
        &&& self.spec_buffer_capacity() <= usize::MAX
        &&& self.spec_index_step() <= usize::MAX
        &&& 2 <= self.spec_default_window() <= self.spec_buffer_capacity()
    }

    /// Whether the timing can size a chart (see `valid_timing`).
    pub fn timing_is_valid(&self) -> (r: bool)
        ensures
            r == self.valid_timing(),
    {
        if self.refresh_rate == 0 {
            return false;
        }
        let capacity = self.max_time_scale / self.refresh_rate;
        let window = self.min_time_scale / self.refresh_rate;
        let step = self.time_inc / self.refresh_rate;
        capacity <= usize::MAX as u64 && step <= usize::MAX as u64 && 2 <= window && window <= capacity
    }

    pub fn buffer_capacity(&self) -> (r: usize)
        requires
            self.valid_timing(),
        ensures
            r == self.spec_buffer_capacity(),
    {
        (self.max_time_scale / self.refresh_rate) as usize
    }

    pub fn default_window(&self) -> (r: usize)
        requires
            self.valid_timing(),
        ensures
            r == self.spec_default_window(),
    {
        (self.min_time_scale / self.refresh_rate) as usize
    }

    pub fn index_step(&self) -> (r: usize)
        requires
            self.valid_timing(),
        ensures
            r == self.spec_index_step(),
    {
        (self.time_inc / self.refresh_rate) as usize
    }
}

/// The default timing sizes charts.
pub proof fn lemma_default_timing_is_valid()
    ensures
        Config::default_spec().valid_timing(),
{
}

/// Converts a duration in milliseconds to whole seconds, rounding down.
pub fn ms_to_s(data_ms: u64) -> (r: u64)
    ensures
        r == data_ms / 1000,
{
    data_ms / 1000
}

/// The key bound to each command.
#[derive(Clone, Copy, PartialEq, Eq, Structural)]
pub struct KeyConfig {
    pub move_up: Key,
    pub move_top: Key,
    pub move_down: Key,
    pub move_bottom: Key,
    pub move_left: Key,
    pub move_right: Key,
    pub enter: Key,
    pub tab: Key,
    pub filter: Key,
    pub terminate: Key,
    pub help: Key,
    pub exit: Key,
    pub sort_name_toggle: Key,
    pub sort_pid_toggle: Key,
    pub sort_cpu_toggle: Key,
    pub sort_memory_toggle: Key,
    pub follow_selection: Key,
    pub expand: Key,
    pub tab_left: Key,
    pub tab_right: Key,
    pub freeze: Key,
    pub sort_pid_inc: Key,
    pub sort_pid_dec: Key,
    pub sort_name_inc: Key,
    pub sort_name_dec: Key,
    pub sort_cpu_usage_inc: Key,
    pub sort_cpu_usage_dec: Key,
    pub sort_memory_usage_inc: Key,
    pub sort_memory_usage_dec: Key,
}

impl KeyConfig {
    /// The default bindings.
    pub open spec fn spec_default() -> KeyConfig {
        KeyConfig {
            move_up: Key::Up,
            move_top: Key::Char('W'),
            move_down: Key::Down,
            move_bottom: Key::Char('S'),
            move_left: Key::Left,
            move_right: Key::Right,
            enter: Key::Enter,
            tab: Key::Tab,
            filter: Key::Char('/'),
            terminate: Key::Char('T'),
            help: Key::Char('?'),
            exit: Key::Esc,
            sort_name_toggle: Key::Char('n'),
            sort_pid_toggle: Key::Char('p'),
            sort_cpu_toggle: Key::Char('c'),
            sort_memory_toggle: Key::Char('m'),
            follow_selection: Key::Char('f'),
            expand: Key::Char('e'),
            tab_left: Key::Left,
            tab_right: Key::Right,
            freeze: Key::Char(' '),
            sort_pid_inc: Key::Char('p'),
            sort_pid_dec: Key::Char('P'),
            sort_name_inc: Key::Char('n'),
            sort_name_dec: Key::Char('N'),
            sort_cpu_usage_inc: Key::Char('c'),
            sort_cpu_usage_dec: Key::Char('C'),
            sort_memory_usage_inc: Key::Char('m'),
            sort_memory_usage_dec: Key::Char('M'),
        }
    }
}

impl Default for KeyConfig {
    fn default() -> (r: Self)
        ensures
            r == KeyConfig::spec_default(),
    {
        Self {
            move_up: Key::Up,
            move_top: Key::Char('W'),
            move_down: Key::Down,
            move_bottom: Key::Char('S'),
            move_left: Key::Left,
            move_right: Key::Right,
            enter: Key::Enter,
            tab: Key::Tab,
            filter: Key::Char('/'),
            terminate: Key::Char('T'),
            help: Key::Char('?'),
            exit: Key::Esc,
            sort_name_toggle: Key::Char('n'),
            sort_pid_toggle: Key::Char('p'),
            sort_cpu_toggle: Key::Char('c'),
            sort_memory_toggle: Key::Char('m'),
            follow_selection: Key::Char('f'),
            expand: Key::Char('e'),
            tab_left: Key::Left,
            tab_right: Key::Right,
            freeze: Key::Char(' '),
            sort_pid_inc: Key::Char('p'),
            sort_pid_dec: Key::Char('P'),
            sort_name_inc: Key::Char('n'),
            sort_name_dec: Key::Char('N'),
            sort_cpu_usage_inc: Key::Char('c'),
            sort_cpu_usage_dec: Key::Char('C'),
            sort_memory_usage_inc: Key::Char('m'),
            sort_memory_usage_dec: Key::Char('M'),
        }
    }
}

/// The mouse action bound to each command.
#[derive(Clone, Copy, PartialEq, Eq, Structural)]
pub struct MouseConfig {
    pub left_click: MouseKind,
    pub middle_click: MouseKind,
    pub scroll_up: MouseKind,
    pub scroll_down: MouseKind,
}

impl MouseConfig {
    /// The default bindings.
    pub open spec fn spec_default() -> MouseConfig {
        MouseConfig {
            left_click: MouseKind::LeftClick,
            middle_click: MouseKind::MiddleClick,
            scroll_up: MouseKind::ScrollUp,
            scroll_down: MouseKind::ScrollDown,
        }
    }
}

impl Default for MouseConfig {
    fn default() -> (r: Self)
        ensures
            r == MouseConfig::spec_default(),
    {
        Self {
            left_click: MouseKind::LeftClick,
            middle_click: MouseKind::MiddleClick,
            scroll_up: MouseKind::ScrollUp,
            scroll_down: MouseKind::ScrollDown,
        }
    }
}

} // verus!
