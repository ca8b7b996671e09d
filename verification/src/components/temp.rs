use vstd::prelude::*;
use crate::components::EventState;
use crate::components::utils::vertical_scroll::{VerticalScroll, scroll_top};
use crate::config::Config;
use crate::input::Key;

verus! {

/// The selected line after `key` in a list of `len` sensors: down moves one line down
/// unless the last line is selected, up one line up unless the first is.
pub open spec fn temp_selection_after_key(selection: usize, key: Key, len: nat, config: Config) -> usize {
    let max_idx = if len == 0 { 0 } else { len - 1 };
    if key == config.key_config.move_down {
        if selection < max_idx { (selection + 1) as usize } else { selection }
    } else if key == config.key_config.move_up {
        if selection > 0 { (selection - 1) as usize } else { 0 }
    } else {
        selection
    }
}

/// The temperature view: a scrollable table of sensors.
pub struct TempComponent<T> {
    config: Config,
    temps: Vec<T>,
    ui_selection: usize,
    vertical_scroll: VerticalScroll,
}

impl<T> TempComponent<T> {
    /// The sensors, in the order the system lists them.
    pub closed spec fn sensors(&self) -> Seq<T> {
        self.temps@
    }

    /// The selected line.
    pub closed spec fn selection(&self) -> usize {
        self.ui_selection
    }

    /// The first visible line.
    pub closed spec fn top(&self) -> int {
        self.vertical_scroll@.top
    }

    pub closed spec fn spec_config(&self) -> Config {
        self.config
    }

    /// A table of the sensors `temps` with the first line selected.
    pub fn new(config: Config, temps: Vec<T>) -> (r: Self)
        ensures
            r.sensors() == temps@,
            r.selection() == 0,
            r.top() == 0,
            r.spec_config() == config,
    {
        Self { config, temps, ui_selection: 0, vertical_scroll: VerticalScroll::new() }
    }

    /// Replaces the sensors with the new readings `temps`; the selection is kept.
    pub fn update(&mut self, temps: Vec<T>)
        ensures
            final(self).sensors() == temps@,
            final(self).selection() == old(self).selection(),
            final(self).top() == old(self).top(),
            final(self).spec_config() == old(self).spec_config(),
    {
        self.temps = temps;
    }

    /// Down and up move the selection (see `temp_selection_after_key`); other keys are not
    /// used.
    pub fn event(&mut self, key: Key) -> (r: EventState)
        ensures
            final(self).selection() == temp_selection_after_key(
                old(self).selection(),
                key,
                old(self).sensors().len(),
                old(self).spec_config(),
            ),
            final(self).sensors() == old(self).sensors(),
            final(self).top() == old(self).top(),
            final(self).spec_config() == old(self).spec_config(),
            r == (if key == old(self).spec_config().key_config.move_down || key == old(
                self,
            ).spec_config().key_config.move_up {
                EventState::Consumed
            } else {
                EventState::NotConsumed
            }),
    {
        let temps_max_idx = self.temps.len().saturating_sub(1);
        if key == self.config.key_config.move_down {
            if self.ui_selection < temps_max_idx {
                self.ui_selection = self.ui_selection.saturating_add(1);
            }
            return EventState::Consumed;
        }
        if key == self.config.key_config.move_up {
            self.ui_selection = self.ui_selection.saturating_sub(1);
            return EventState::Consumed;
        }
        EventState::NotConsumed
    }

    /// Scrolls the table so the selection shows among `visible_height` lines, and returns
    /// the first visible line.
    pub fn scroll(&mut self, visible_height: usize) -> (r: usize)
        ensures
            r == final(self).top(),
            old(self).top() + visible_height <= usize::MAX ==> r == scroll_top(
                old(self).top(),
                visible_height as int,
                old(self).selection() as int,
            ),
            old(self).top() + visible_height > usize::MAX ==> r == scroll_top(
                0,
                visible_height as int,
                old(self).selection() as int,
            ),
            final(self).sensors() == old(self).sensors(),
            final(self).selection() == old(self).selection(),
            final(self).spec_config() == old(self).spec_config(),
    {
        if self.vertical_scroll.get_top() > usize::MAX - visible_height {
            self.vertical_scroll.reset();
        }
        let len = self.temps.len();
        self.vertical_scroll.update(self.ui_selection, len, visible_height)
    }

    /// The selected line.
    pub fn ui_selection(&self) -> (r: usize)
        ensures
            r == self.selection(),
    {
        self.ui_selection
    }

    /// The sensors, in the order the system lists them.
    pub fn temps(&self) -> (r: &[T])
        ensures
            r@ == self.sensors(),
    {
        self.temps.as_slice()
    }
}

} // verus!
