use vstd::prelude::*;
use crate::components::EventState;
use crate::components::utils::data_window::{DataWindow, DataWindowView};
use crate::config::Config;
use crate::input::{Key, Mouse, MouseKind};
use crate::models::bounded_queue_model::{BoundedQueueModel, bounded_push};
use crate::models::items::network_item::NetworkItem;
use crate::models::items::{byte_to_kb, ByteToMB};
use crate::components::utils::data_window::{max_int, min_int, sat_sub};

verus! {

/// The chart window after `key`, and whether the key was used: down and up zoom out and
/// in, left and right pan to older and newer samples, by `step` samples.
pub open spec fn window_after_key(w: DataWindowView, key: Key, config: Config, step: int) -> (
    DataWindowView,
    EventState,
) {
    let kc = config.key_config;
    if key == kc.move_down {
        (w.zoom_out(step), EventState::Consumed)
    } else if key == kc.move_up {
        (w.zoom_in(step), EventState::Consumed)
    } else if key == kc.move_left {
        (w.pan_positive(step), EventState::Consumed)
    } else if key == kc.move_right {
        (w.pan_negative(step), EventState::Consumed)
    } else {
        (w, EventState::NotConsumed)
    }
}

/// The chart window after `mouse`, and whether it was used: the wheel zooms.
pub open spec fn window_after_mouse(w: DataWindowView, mouse: Mouse, step: int) -> (
    DataWindowView,
    EventState,
) {
    match mouse.kind {
        MouseKind::ScrollDown => (w.zoom_out(step), EventState::Consumed),
        MouseKind::ScrollUp => (w.zoom_in(step), EventState::Consumed),
        _ => (w, EventState::NotConsumed),
    }
}

/// The largest traffic, in kibibytes, sent or received in one sample among the samples at
/// indices `lo` up to `hi` (zero for none).
pub open spec fn peak_kb(samples: Seq<NetworkItem>, lo: int, hi: int) -> int
    decreases hi - lo,
{
    if hi <= lo {
        0
    } else {
        max_int(
            peak_kb(samples, lo, hi - 1),
            max_int(samples[hi - 1]@.tx as int / 1024, samples[hi - 1]@.rx as int / 1024),
        )
    }
}

/// The peak over the samples at `lo` up to `hi` is the largest of their sent and received
/// kibibytes: no sample sent or received more, and some sample sent or received exactly
/// that much (zero where there is no sample).
pub proof fn lemma_peak_is_largest_traffic(samples: Seq<NetworkItem>, lo: int, hi: int)
    requires
        0 <= lo,
        hi <= samples.len(),
    ensures
        forall|i: int|
            lo <= i < hi ==> samples[i]@.tx as int / 1024 <= peak_kb(samples, lo, hi)
                && samples[i]@.rx as int / 1024 <= peak_kb(samples, lo, hi),
        hi <= lo ==> peak_kb(samples, lo, hi) == 0,
        lo < hi ==> exists|i: int|
            lo <= i < hi && (peak_kb(samples, lo, hi) == samples[i]@.tx as int / 1024 || peak_kb(samples, lo, hi)
                == samples[i]@.rx as int / 1024),
    decreases hi - lo,
{
    if lo < hi {
        lemma_peak_is_largest_traffic(samples, lo, hi - 1);
        if lo < hi - 1 {
            let k = choose|i: int|
                lo <= i < hi - 1 && (peak_kb(samples, lo, hi - 1) == samples[i]@.tx as int / 1024 || peak_kb(
                    samples,
                    lo,
                    hi - 1,
                ) == samples[i]@.rx as int / 1024);
            if peak_kb(samples, lo, hi) == peak_kb(samples, lo, hi - 1) {
                assert(lo <= k < hi);
            } else {
                assert(lo <= hi - 1 < hi);
            }
        } else {
            assert(lo <= hi - 1 < hi);
        }
    }
}

/// The figures of the chart's legend for a sample: the kibibytes sent and received per
/// second over a refresh period of `seconds`, and the mebibytes sent and received in all.
pub open spec fn legend_of(item: NetworkItem, seconds: int) -> (u64, u64, u64, u64) {
    (
        ((item@.tx / seconds as u64) / 1024) as u64,
        ((item@.rx / seconds as u64) / 1024) as u64,
        (item@.total_tx / 1048576) as u64,
        (item@.total_rx / 1048576) as u64,
    )
}

/// The network view: a chart of bytes sent and received, over a window that the user
/// pans and zooms.
pub struct NetworkComponent {
    config: Config,
    queue_state: BoundedQueueModel<NetworkItem>,
    data_window: DataWindow,
}

impl NetworkComponent {
    /// The samples, oldest first.
    pub closed spec fn samples(&self) -> Seq<NetworkItem> {
        self.queue_state@
    }

    pub closed spec fn window(&self) -> DataWindowView {
        self.data_window@
    }

    pub closed spec fn spec_config(&self) -> Config {
        self.config
    }

    /// The settings hold valid timing, the window lies inside the buffer, and the buffer
    /// keeps between one sample and its capacity.
    pub closed spec fn wf(&self) -> bool {
        &&& self.config.valid_timing()
        &&& self.config.spec_buffer_capacity() > 0
        &&& self.queue_state.spec_capacity() == self.config.spec_buffer_capacity()
        &&& 0 < self.queue_state@.len() <= self.config.spec_buffer_capacity()
        &&& self.data_window@.wf()
        &&& self.data_window@.capacity == self.config.spec_buffer_capacity()
    }

    /// What a key does (see `key_event`).
    pub open spec fn key_step(self, next: Self, key: Key, r: EventState) -> bool {
        &&& next.samples() == self.samples()
        &&& next.spec_config() == self.spec_config()
        &&& (next.window(), r) == window_after_key(
            self.window(),
            key,
            self.spec_config(),
            self.spec_config().spec_index_step(),
        )
    }

    /// What a mouse event does (see `mouse_event`).
    pub open spec fn mouse_step(self, next: Self, mouse: Mouse, r: EventState) -> bool {
        &&& next.samples() == self.samples()
        &&& next.spec_config() == self.spec_config()
        &&& (next.window(), r) == window_after_mouse(
            self.window(),
            mouse,
            self.spec_config().spec_index_step(),
        )
    }

    /// A network view whose first sample is `network`, showing the default time span
    /// from the newest sample.
    pub fn new(config: Config, network: NetworkItem) -> (r: Self)
        requires
            config.valid_timing(),
            2 <= config.spec_default_window() <= config.spec_buffer_capacity(),
        ensures
            r.wf(),
            r.samples() == seq![network],
            r.window() == (DataWindowView {
                offset: 0,
                length: config.spec_default_window(),
                capacity: config.spec_buffer_capacity(),
            }),
            r.spec_config() == config,
    {
        let capacity = config.buffer_capacity();
        let length = config.default_window();
        let data_window = DataWindow::new(0, length, capacity).unwrap();
        let mut queue_state = BoundedQueueModel::new(capacity);
        queue_state.add_item(network);
        Self { config, queue_state, data_window }
    }

    /// Adds the sample `network_item`; the oldest leaves a full buffer.
    pub fn refresh(&mut self, network_item: NetworkItem)
        requires
            old(self).wf(),
        ensures
            final(self).wf(),
            final(self).samples() == bounded_push(
                old(self).samples(),
                old(self).spec_config().spec_buffer_capacity() as nat,
                network_item,
            ),
            final(self).window() == old(self).window(),
            final(self).spec_config() == old(self).spec_config(),
    {
        self.queue_state.add_item(network_item);
    }

    /// Pans and zooms the chart (see `window_after_key`).
    pub fn key_event(&mut self, key: Key) -> (r: EventState)
        requires
            old(self).wf(),
        ensures
            final(self).wf(),
            old(self).key_step(*final(self), key, r),
    {
        let key_config = self.config.key_config;
        let idx_step = self.config.index_step();
        if key == key_config.move_down {
            self.data_window.zoom_out(idx_step);
            return EventState::Consumed;
        }
        if key == key_config.move_up {
            self.data_window.zoom_in(idx_step);
            return EventState::Consumed;
        }
        if key == key_config.move_left {
            self.data_window.pan_positive(idx_step);
            return EventState::Consumed;
        }
        if key == key_config.move_right {
            self.data_window.pan_negative(idx_step);
            return EventState::Consumed;
        }
        EventState::NotConsumed
    }

    /// Zooms the chart with the wheel (see `window_after_mouse`).
    pub fn mouse_event(&mut self, mouse: Mouse) -> (r: EventState)
        requires
            old(self).wf(),
        ensures
            final(self).wf(),
            old(self).mouse_step(*final(self), mouse, r),
    {
        let idx_step = self.config.index_step();
        match mouse.kind {
            MouseKind::ScrollDown => {
                self.data_window.zoom_out(idx_step);
                EventState::Consumed
            },
            MouseKind::ScrollUp => {
                self.data_window.zoom_in(idx_step);
                EventState::Consumed
            },
            _ => EventState::NotConsumed,
        }
    }

    /// The samples, oldest first.
    pub fn queue(&self) -> (r: &BoundedQueueModel<NetworkItem>)
        ensures
            r@ == self.samples(),
    {
        &self.queue_state
    }

    /// The largest traffic in one visible sample, in kibibytes, from which the chart's
    /// height is set.
    pub fn visible_peak_kb(&self) -> (r: u64)
        requires
            self.wf(),
        ensures
            r == peak_kb(
                self.samples(),
                sat_sub(self.samples().len() as int, self.window().offset) - min_int(
                    self.window().length,
                    sat_sub(self.samples().len() as int, self.window().offset),
                ),
                sat_sub(self.samples().len() as int, self.window().offset),
            ),
            forall|i: int|
                sat_sub(self.samples().len() as int, self.window().offset) - min_int(
                    self.window().length,
                    sat_sub(self.samples().len() as int, self.window().offset),
                ) <= i < sat_sub(self.samples().len() as int, self.window().offset) ==> self.samples()[i]@.tx
                    / 1024 <= r && self.samples()[i]@.rx / 1024 <= r,
    {
        let len = self.queue_state.items().len();
        let offset = self.data_window.window_offset();
        let length = self.data_window.window_length();
        let hi = len.saturating_sub(offset);
        let lo = hi - if length < hi { length } else { hi };
        let items = self.queue_state.items();
        let mut peak: u64 = 0;
        let mut i = lo;
        while i < hi
            invariant
                lo <= i <= hi,
                hi <= items@.len(),
                items@ == self.samples(),
                peak == peak_kb(self.samples(), lo as int, i as int),
            decreases hi - i,
        {
            let tx = byte_to_kb(items[i].tx());
            let rx = byte_to_kb(items[i].rx());
            let sample_peak = if tx >= rx { tx } else { rx };
            if sample_peak > peak {
                peak = sample_peak;
            }
            i = i + 1;
        }
        proof {
            lemma_peak_is_largest_traffic(self.samples(), lo as int, hi as int);
        }
        peak
    }

    /// The legend's figures for the newest sample (see `legend_of`); none before the
    /// first sample.
    pub fn legend(&self) -> (r: Option<(u64, u64, u64, u64)>)
        requires
            self.wf(),
            self.spec_config().refresh_rate >= 1000,
        ensures
            match r {
                Some(v) => self.samples().len() > 0 && v == legend_of(
                    self.samples().last(),
                    self.spec_config().refresh_rate as int / 1000,
                ),
                None => self.samples().len() == 0,
            },
    {
        let seconds = crate::config::ms_to_s(self.config.refresh_rate());
        match self.queue_state.back() {
            Some(item) => Some((
                byte_to_kb(item.tx() / seconds),
                byte_to_kb(item.rx() / seconds),
                item.total_tx().byte_to_mb(),
                item.total_rx().byte_to_mb(),
            )),
            None => None,
        }
    }

    pub fn data_window(&self) -> (r: &DataWindow)
        ensures
            r@ == self.window(),
    {
        &self.data_window
    }
}

} // verus!
