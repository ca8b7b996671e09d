use vstd::prelude::*;
use crate::components::EventState;
use crate::config::Config;
use crate::input::Key;

verus! {

/// A direction in which the tab bar moves.
#[derive(Clone, Copy, PartialEq, Eq, Structural, Debug)]
pub enum MoveTabDirection {
    Left,
    Right,
}

/// The tabs of the tab bar, left to right.
#[derive(Clone, Copy, PartialEq, Eq, Structural, Debug)]
pub enum Tab {
    Process,
    CPU,
    Memory,
    Disk,
}

/// The place of a tab in the bar.
pub open spec fn tab_index(t: Tab) -> int {
    match t {
        Tab::Process => 0,
        Tab::CPU => 1,
        Tab::Memory => 2,
        Tab::Disk => 3,
    }
}

/// The tab reached from `t` by one move; the bar wraps round at both ends.
pub open spec fn next_tab(t: Tab, direction: MoveTabDirection) -> Tab {
    match (t, direction) {
        (Tab::Process, MoveTabDirection::Right) => Tab::CPU,
        (Tab::Process, MoveTabDirection::Left) => Tab::Disk,
        (Tab::CPU, MoveTabDirection::Right) => Tab::Memory,
        (Tab::CPU, MoveTabDirection::Left) => Tab::Process,
        (Tab::Memory, MoveTabDirection::Right) => Tab::Disk,
        (Tab::Memory, MoveTabDirection::Left) => Tab::CPU,
        (Tab::Disk, MoveTabDirection::Right) => Tab::Process,
        (Tab::Disk, MoveTabDirection::Left) => Tab::Memory,
    }
}

/// A move to the right is undone by a move to the left and the other way round, a move
/// goes to the neighbouring place (counting round), and four moves in one direction come
/// back to the start.
pub proof fn lemma_tab_moves(t: Tab, direction: MoveTabDirection)
    ensures
        next_tab(next_tab(t, MoveTabDirection::Right), MoveTabDirection::Left) == t,
        next_tab(next_tab(t, MoveTabDirection::Left), MoveTabDirection::Right) == t,
        tab_index(next_tab(t, MoveTabDirection::Right)) == (tab_index(t) + 1) % 4,
        tab_index(next_tab(t, MoveTabDirection::Left)) == (tab_index(t) + 3) % 4,
        next_tab(next_tab(next_tab(next_tab(t, direction), direction), direction), direction) == t,
{
}

/// The tab bar.
pub struct TabComponent {
    pub selected_tab: Tab,
    pub config: Config,
}

impl TabComponent {
    /// A bar on the process tab.
    pub fn new(config: Config) -> (r: Self)
        ensures
            r.selected_tab == Tab::Process,
            r.config == config,
    {
        Self { selected_tab: Tab::Process, config }
    }

    /// Back to the process tab and the default settings.
    pub fn reset(&mut self)
        ensures
            final(self).selected_tab == Tab::Process,
            final(self).config == Config::default_spec(),
    {
        self.selected_tab = Tab::Process;
        self.config = Config::default();
    }

    /// The titles of the tabs, left to right.
    pub fn names(&self) -> (r: Vec<String>)
        ensures
            r@.len() == 4,
            r@[0]@ == "Process"@,
            r@[1]@ == "CPU"@,
            r@[2]@ == "Memory"@,
            r@[3]@ == "Disk"@,
    {
        let mut names = Vec::new();
        names.push(String::from_str("Process"));
        names.push(String::from_str("CPU"));
        names.push(String::from_str("Memory"));
        names.push(String::from_str("Disk"));
        names
    }

    /// The place of the selected tab.
    pub fn selected_index(&self) -> (r: usize)
        ensures
            r == tab_index(self.selected_tab),
    {
        match self.selected_tab {
            Tab::Process => 0,
            Tab::CPU => 1,
            Tab::Memory => 2,
            Tab::Disk => 3,
        }
    }

    fn update_selected_tab(&mut self, direction: MoveTabDirection)
        ensures
            final(self).selected_tab == next_tab(old(self).selected_tab, direction),
            final(self).config == old(self).config,
    {
        match self.selected_tab {
            Tab::Process => {
                if direction == MoveTabDirection::Right {
                    self.selected_tab = Tab::CPU;
                } else {
                    self.selected_tab = Tab::Disk;
                }
            },
            Tab::CPU => {
                if direction == MoveTabDirection::Right {
                    self.selected_tab = Tab::Memory;
                } else {
                    self.selected_tab = Tab::Process;
                }
            },
            Tab::Memory => {
                if direction == MoveTabDirection::Right {
                    self.selected_tab = Tab::Disk;
                } else {
                    self.selected_tab = Tab::CPU;
                }
            },
            Tab::Disk => {
                if direction == MoveTabDirection::Right {
                    self.selected_tab = Tab::Process;
                } else {
                    self.selected_tab = Tab::Memory;
                }
            },
        }
    }

    /// The tab-right key moves to the next tab and the tab-left key to the previous one.
    pub fn event(&mut self, key: Key) -> (r: EventState)
        ensures
            final(self).config == old(self).config,
            key == old(self).config.key_config.tab_right ==> r == EventState::Consumed
                && final(self).selected_tab == next_tab(old(self).selected_tab, MoveTabDirection::Right),
            key != old(self).config.key_config.tab_right && key == old(self).config.key_config.tab_left
                ==> r == EventState::Consumed && final(self).selected_tab == next_tab(
                old(self).selected_tab,
                MoveTabDirection::Left,
            ),
            key != old(self).config.key_config.tab_right && key != old(self).config.key_config.tab_left
                ==> r == EventState::NotConsumed && final(self).selected_tab == old(self).selected_tab,
    {
        if key == self.config.key_config.tab_right {
            self.update_selected_tab(MoveTabDirection::Right);
            return EventState::Consumed;
        } else if key == self.config.key_config.tab_left {
            self.update_selected_tab(MoveTabDirection::Left);
            return EventState::Consumed;
        }
        EventState::NotConsumed
    }
}

} // verus!
