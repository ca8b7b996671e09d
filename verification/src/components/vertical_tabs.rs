use vstd::prelude::*;
use crate::components::EventState;
use crate::config::KeyConfig;
use crate::input::Key;

verus! {

/// A direction in which the vertical tab bar moves.
#[derive(Clone, Copy, PartialEq, Eq, Structural, Debug)]
pub enum MoveTabDirection {
    Up,
    Down,
}

/// The tabs of the vertical bar, top to bottom.
#[derive(Clone, Copy, PartialEq, Eq, Structural, Debug)]
pub enum VerticalTab {
    Cpu,
    Memory,
    Network,
}

impl Default for VerticalTab {
    fn default() -> (r: Self)
        ensures
            r == VerticalTab::Cpu,
    {
        VerticalTab::Cpu
    }
}

/// The tab reached from `t` by one move; the bar wraps round at both ends.
pub open spec fn next_vertical_tab(t: VerticalTab, direction: MoveTabDirection) -> VerticalTab {
    match (t, direction) {
        (VerticalTab::Cpu, MoveTabDirection::Up) => VerticalTab::Network,
        (VerticalTab::Cpu, MoveTabDirection::Down) => VerticalTab::Memory,
        (VerticalTab::Memory, MoveTabDirection::Up) => VerticalTab::Cpu,
        (VerticalTab::Memory, MoveTabDirection::Down) => VerticalTab::Network,
        (VerticalTab::Network, MoveTabDirection::Up) => VerticalTab::Memory,
        (VerticalTab::Network, MoveTabDirection::Down) => VerticalTab::Cpu,
    }
}

/// A move down is undone by a move up and the other way round, and three moves in one
/// direction come back to the start.
pub proof fn lemma_vertical_tab_moves(t: VerticalTab, direction: MoveTabDirection)
    ensures
        next_vertical_tab(next_vertical_tab(t, MoveTabDirection::Down), MoveTabDirection::Up) == t,
        next_vertical_tab(next_vertical_tab(t, MoveTabDirection::Up), MoveTabDirection::Down) == t,
        next_vertical_tab(next_vertical_tab(next_vertical_tab(t, direction), direction), direction) == t,
{
}

/// The vertical tab bar.
pub struct VerticalTabComponent {
    pub selected_vert_tab: VerticalTab,
    pub key_config: KeyConfig,
}

impl Default for VerticalTabComponent {
    /// A bar on the processor tab with the default bindings.
    fn default() -> (r: Self)
        ensures
            r.selected_vert_tab == VerticalTab::Cpu,
            r.key_config == KeyConfig::spec_default(),
    {
        Self { selected_vert_tab: VerticalTab::Cpu, key_config: KeyConfig::default() }
    }
}

impl VerticalTabComponent {
    /// A bar on the processor tab.
    pub fn new(key_config: KeyConfig) -> (r: Self)
        ensures
            r.selected_vert_tab == VerticalTab::Cpu,
            r.key_config == key_config,
    {
        Self { selected_vert_tab: VerticalTab::Cpu, key_config }
    }

    /// Back to the processor tab and the default bindings.
    pub fn reset(&mut self)
        ensures
            final(self).selected_vert_tab == VerticalTab::Cpu,
            final(self).key_config == KeyConfig::spec_default(),
    {
        self.selected_vert_tab = VerticalTab::Cpu;
        self.key_config = KeyConfig::default();
    }

    /// The titles of the tabs, top to bottom.
    pub fn names(&self) -> (r: Vec<String>)
        ensures
            r@.len() == 3,
            r@[0]@ == "CPU"@,
            r@[1]@ == "Memory"@,
            r@[2]@ == "Network"@,
    {
        let mut names = Vec::new();
        names.push(String::from_str("CPU"));
        names.push(String::from_str("Memory"));
        names.push(String::from_str("Network"));
        names
    }

    fn update_selected_tab(&mut self, direction: MoveTabDirection)
        ensures
            final(self).selected_vert_tab == next_vertical_tab(old(self).selected_vert_tab, direction),
            final(self).key_config == old(self).key_config,
    {
        match self.selected_vert_tab {
            VerticalTab::Cpu => {
                if direction == MoveTabDirection::Up {
                    self.selected_vert_tab = VerticalTab::Network;
                } else {
                    self.selected_vert_tab = VerticalTab::Memory;
                }
            },
            VerticalTab::Memory => {
                if direction == MoveTabDirection::Up {
                    self.selected_vert_tab = VerticalTab::Cpu;
                } else {
                    self.selected_vert_tab = VerticalTab::Network;
                }
            },
            VerticalTab::Network => {
                if direction == MoveTabDirection::Up {
                    self.selected_vert_tab = VerticalTab::Memory;
                } else {
                    self.selected_vert_tab = VerticalTab::Cpu;
                }
            },
        }
    }

    /// The up key moves to the tab above and the down key to the one below.
    pub fn event(&mut self, key: Key) -> (r: EventState)
        ensures
            final(self).key_config == old(self).key_config,
            key == old(self).key_config.move_up ==> r == EventState::Consumed
                && final(self).selected_vert_tab == next_vertical_tab(
                old(self).selected_vert_tab,
                MoveTabDirection::Up,
            ),
            key != old(self).key_config.move_up && key == old(self).key_config.move_down ==> r
                == EventState::Consumed && final(self).selected_vert_tab == next_vertical_tab(
                old(self).selected_vert_tab,
                MoveTabDirection::Down,
            ),
            key != old(self).key_config.move_up && key != old(self).key_config.move_down ==> r
                == EventState::NotConsumed && final(self).selected_vert_tab == old(
                self,
            ).selected_vert_tab,
    {
        if key == self.key_config.move_up {
            self.update_selected_tab(MoveTabDirection::Up);
            return EventState::Consumed;
        } else if key == self.key_config.move_down {
            self.update_selected_tab(MoveTabDirection::Down);
            return EventState::Consumed;
        }
        EventState::NotConsumed
    }
}

} // verus!
