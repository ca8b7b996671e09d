use vstd::prelude::*;
use crate::components::vertical_tabs::{VerticalTab, VerticalTabComponent};
use crate::config::KeyConfig;
use crate::models::bounded_queue_model::bounded_push;
use crate::performance_queue::bounded_queue::PerformanceQueue;
use crate::performance_queue::memory_item::MemoryItem;

verus! {

/// The performance view: histories of processor and memory samples, and a vertical tab
/// bar to choose which one is shown.
pub struct PerformanceComponent<C> {
    cpu_info: PerformanceQueue<C>,
    memory_info: PerformanceQueue<MemoryItem>,
    vertical_tabs: VerticalTabComponent,
    key_config: KeyConfig,
}

impl<C: Clone> PerformanceComponent<C> {
    /// The processor samples, oldest first.
    pub closed spec fn cpu_samples(&self) -> Seq<C> {
        self.cpu_info@
    }

    /// The memory samples, oldest first.
    pub closed spec fn memory_samples(&self) -> Seq<MemoryItem> {
        self.memory_info@
    }

    /// The number of samples each history keeps.
    pub closed spec fn max_size(&self) -> nat {
        self.cpu_info.spec_capacity()
    }

    /// The tab shown.
    pub closed spec fn spec_tab(&self) -> VerticalTab {
        self.vertical_tabs.selected_vert_tab
    }

    /// Both histories keep the same number of samples and hold as many.
    pub closed spec fn wf(&self) -> bool {
        &&& self.memory_info.spec_capacity() == self.cpu_info.spec_capacity()
        &&& self.memory_info@.len() == self.cpu_info@.len()
    }

    /// Empty histories of `max_size` samples each, on the processor tab.
    pub fn new(key_config: KeyConfig, max_size: usize) -> (r: Self)
        ensures
            r.wf(),
            r.cpu_samples() == Seq::<C>::empty(),
            r.memory_samples() == Seq::<MemoryItem>::empty(),
            r.max_size() == max_size,
            r.spec_tab() == VerticalTab::Cpu,
    {
        Self {
            cpu_info: PerformanceQueue::new(max_size),
            memory_info: PerformanceQueue::new(max_size),
            vertical_tabs: VerticalTabComponent::default(),
            key_config,
        }
    }

    /// Adds a copy of each new sample; the oldest leave full histories. Histories that
    /// keep no samples take only a first one.
    pub fn update(&mut self, cpu_item: &C, memory_item: &MemoryItem)
        requires
            old(self).wf(),
            old(self).max_size() > 0 || old(self).cpu_samples().len() == 0,
        ensures
            final(self).wf(),
            final(self).max_size() == old(self).max_size(),
            cloned(*cpu_item, final(self).cpu_samples().last()),
            final(self).cpu_samples() == bounded_push(
                old(self).cpu_samples(),
                old(self).max_size(),
                final(self).cpu_samples().last(),
            ),
            cloned(*memory_item, final(self).memory_samples().last()),
            final(self).memory_samples() == bounded_push(
                old(self).memory_samples(),
                old(self).max_size(),
                final(self).memory_samples().last(),
            ),
    {
        self.cpu_info.add_item(cpu_item);
        self.memory_info.add_item(memory_item);
    }

    /// The tab shown.
    pub fn selected_tab(&self) -> (r: VerticalTab)
        ensures
            r == self.spec_tab(),
    {
        self.vertical_tabs.selected_vert_tab
    }

    pub fn cpu_info(&self) -> (r: &PerformanceQueue<C>)
        ensures
            r@ == self.cpu_samples(),
    {
        &self.cpu_info
    }

    pub fn memory_info(&self) -> (r: &PerformanceQueue<MemoryItem>)
        ensures
            r@ == self.memory_samples(),
    {
        &self.memory_info
    }
}

} // verus!
