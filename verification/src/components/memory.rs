use vstd::prelude::*;
use crate::components::EventState;
use crate::config::Config;
use crate::input::{Key, Mouse, MouseKind};
use crate::models::bounded_queue_model::{BoundedQueueModel, bounded_push};
use crate::models::items::memory_item::MemoryItem;

verus! {

/// `a + b`, or `u64::MAX` where that overflows.
pub open spec fn sat_add_u64(a: u64, b: u64) -> u64 {
    if a + b > u64::MAX {
        u64::MAX
    } else {
        (a + b) as u64
    }
}

/// `a - b`, or zero where that would be negative.
pub open spec fn sat_sub_u64(a: u64, b: u64) -> u64 {
    if a < b {
        0
    } else {
        (a - b) as u64
    }
}

/// The time span after widening the chart: one step more, at most the longest span.
pub open spec fn widened_scale(scale: u64, config: Config) -> u64 {
    let wider = sat_add_u64(scale, config.time_inc);
    if wider <= config.max_time_scale {
        wider
    } else {
        config.max_time_scale
    }
}

/// The time span after narrowing the chart: one step less, but never below the longest
/// span, which is the largest of the two.
pub open spec fn narrowed_scale(scale: u64, config: Config) -> u64 {
    let narrower = sat_sub_u64(scale, config.time_inc);
    if narrower >= config.max_time_scale {
        narrower
    } else {
        config.max_time_scale
    }
}

/// Widening never shortens the span and goes by one step up to the longest span;
/// narrowing never lengthens a span beyond the longest one and never goes below it.
pub proof fn lemma_widen_and_narrow_move_the_span(scale: u64, config: Config)
    ensures
        scale <= config.max_time_scale ==> scale <= widened_scale(scale, config) <= config.max_time_scale,
        scale + config.time_inc <= config.max_time_scale ==> widened_scale(scale, config) == scale + config.time_inc,
        narrowed_scale(scale, config) >= config.max_time_scale,
        scale >= config.max_time_scale ==> narrowed_scale(scale, config) <= scale,
        scale >= config.max_time_scale + config.time_inc ==> narrowed_scale(scale, config) == scale - config.time_inc,
{
}

/// The memory view: a chart of memory and swap usage over a time span that the user
/// widens and narrows.
pub struct MemoryComponent {
    config: Config,
    queue_state: BoundedQueueModel<MemoryItem>,
    data_window_time_scale: u64,
}

impl MemoryComponent {
    /// The samples, oldest first.
    pub closed spec fn samples(&self) -> Seq<MemoryItem> {
        self.queue_state@
    }

    /// The time span the chart shows, in milliseconds.
    pub closed spec fn time_scale(&self) -> u64 {
        self.data_window_time_scale
    }

    pub closed spec fn spec_config(&self) -> Config {
        self.config
    }

    /// The settings hold valid timing and the buffer keeps between one sample and its
    /// capacity.
    pub closed spec fn wf(&self) -> bool {
        &&& self.config.valid_timing()
        &&& self.config.spec_buffer_capacity() > 0
        &&& self.queue_state.spec_capacity() == self.config.spec_buffer_capacity()
        &&& 0 < self.queue_state@.len() <= self.config.spec_buffer_capacity()
    }

    /// What a key does (see `key_event`).
    pub open spec fn key_step(self, next: Self, key: Key, r: EventState) -> bool {
        &&& next.samples() == self.samples()
        &&& next.spec_config() == self.spec_config()
        &&& next.time_scale() == (if key == self.spec_config().key_config.move_down {
            widened_scale(self.time_scale(), self.spec_config())
        } else if key == self.spec_config().key_config.move_up {
            narrowed_scale(self.time_scale(), self.spec_config())
        } else {
            self.time_scale()
        })
        &&& r == (if key == self.spec_config().key_config.move_down || key
            == self.spec_config().key_config.move_up {
            EventState::Consumed
        } else {
            EventState::NotConsumed
        })
    }

    /// What a mouse event does (see `mouse_event`).
    pub open spec fn mouse_step(self, next: Self, mouse: Mouse, r: EventState) -> bool {
        &&& next.samples() == self.samples()
        &&& next.spec_config() == self.spec_config()
        &&& next.time_scale() == (match mouse.kind {
            MouseKind::ScrollDown => widened_scale(self.time_scale(), self.spec_config()),
            MouseKind::ScrollUp => narrowed_scale(self.time_scale(), self.spec_config()),
            _ => self.time_scale(),
        })
        &&& r == (match mouse.kind {
            MouseKind::ScrollDown | MouseKind::ScrollUp => EventState::Consumed,
            _ => EventState::NotConsumed,
        })
    }

    /// A memory view whose first sample is `memory`, showing the default time span.
    pub fn new(config: Config, memory: MemoryItem) -> (r: Self)
        requires
            config.valid_timing(),
        ensures
            r.wf(),
            r.samples() == seq![memory],
            r.time_scale() == config.min_time_scale,
            r.spec_config() == config,
    {
        let capacity = config.buffer_capacity();
        let data_window_time_scale = config.min_time_scale();
        let mut queue_state = BoundedQueueModel::new(capacity);
        queue_state.add_item(memory);
        Self { config, queue_state, data_window_time_scale }
    }

    /// Adds the sample `memory_item`; the oldest leaves a full buffer.
    pub fn refresh(&mut self, memory_item: MemoryItem)
        requires
            old(self).wf(),
        ensures
            final(self).wf(),
            final(self).samples() == bounded_push(
                old(self).samples(),
                old(self).spec_config().spec_buffer_capacity() as nat,
                memory_item,
            ),
            final(self).time_scale() == old(self).time_scale(),
            final(self).spec_config() == old(self).spec_config(),
    {
        self.queue_state.add_item(memory_item);
    }

    fn widen(&mut self)
        ensures
            final(self).data_window_time_scale == widened_scale(
                old(self).data_window_time_scale,
                old(self).config,
            ),
            final(self).config == old(self).config,
            final(self).queue_state == old(self).queue_state,
    {
        let wider = self.data_window_time_scale.saturating_add(self.config.time_inc());
        let longest = self.config.max_time_scale();
        self.data_window_time_scale = if wider <= longest {
            wider
        } else {
            longest
        };
    }

    fn narrow(&mut self)
        ensures
            final(self).data_window_time_scale == narrowed_scale(
                old(self).data_window_time_scale,
                old(self).config,
            ),
            final(self).config == old(self).config,
            final(self).queue_state == old(self).queue_state,
    {
        let narrower = self.data_window_time_scale.saturating_sub(self.config.time_inc());
        let longest = self.config.max_time_scale();
        self.data_window_time_scale = if narrower >= longest {
            narrower
        } else {
            longest
        };
    }

    /// Down widens the time span and up narrows it; other keys are not used.
    pub fn key_event(&mut self, key: Key) -> (r: EventState)
        requires
            old(self).wf(),
        ensures
            final(self).wf(),
            old(self).key_step(*final(self), key, r),
    {
        if key == self.config.key_config.move_down {
            self.widen();
            return EventState::Consumed;
        }
        if key == self.config.key_config.move_up {
            self.narrow();
            return EventState::Consumed;
        }
        EventState::NotConsumed
    }

    /// Scrolling down widens the time span and scrolling up narrows it.
    pub fn mouse_event(&mut self, mouse: Mouse) -> (r: EventState)
        requires
            old(self).wf(),
        ensures
            final(self).wf(),
            old(self).mouse_step(*final(self), mouse, r),
    {
        match mouse.kind {
            MouseKind::ScrollDown => {
                self.widen();
                EventState::Consumed
            },
            MouseKind::ScrollUp => {
                self.narrow();
                EventState::Consumed
            },
            _ => EventState::NotConsumed,
        }
    }

    /// The number of samples the chart shows: the time span over the refresh period.
    pub fn window_length(&self) -> (r: usize)
        requires
            self.wf(),
        ensures
            r == (self.time_scale() / self.spec_config().refresh_rate) as usize,
    {
        (self.data_window_time_scale / self.config.refresh_rate()) as usize
    }

    /// The time span the chart shows, in milliseconds.
    pub fn time_span(&self) -> (r: u64)
        ensures
            r == self.time_scale(),
    {
        self.data_window_time_scale
    }

    /// The samples, oldest first.
    pub fn queue(&self) -> (r: &BoundedQueueModel<MemoryItem>)
        ensures
            r@ == self.samples(),
    {
        &self.queue_state
    }
}

} // verus!
