use vstd::prelude::*;

verus! {

/// Memory and swap sizes in bytes, by value.
pub struct MemoryItemView {
    pub total_memory: u64,
    pub used_memory: u64,
    pub total_swap: u64,
    pub used_swap: u64,
}

/// A sample of memory and swap use, in bytes.
#[derive(Clone, Copy, Debug)]
pub struct MemoryItem {
    total_memory: u64,
    used_memory: u64,
    total_swap: u64,
    used_swap: u64,
}

impl View for MemoryItem {
    type V = MemoryItemView;

    closed spec fn view(&self) -> MemoryItemView {
        MemoryItemView {
            total_memory: self.total_memory,
            used_memory: self.used_memory,
            total_swap: self.total_swap,
            used_swap: self.used_swap,
        }
    }
}

impl Default for MemoryItem {
    /// A sample with every size zero.
    fn default() -> (r: Self)
        ensures
            r@ == (MemoryItemView { total_memory: 0, used_memory: 0, total_swap: 0, used_swap: 0 }),
    {
        Self { total_memory: 0, used_memory: 0, total_swap: 0, used_swap: 0 }
    }
}

impl MemoryItem {
    pub fn new(total_memory: u64, used_memory: u64, total_swap: u64, used_swap: u64) -> (r: Self)
        ensures
            r@ == (MemoryItemView { total_memory, used_memory, total_swap, used_swap }),
    {
        Self { total_memory, used_memory, total_swap, used_swap }
    }

    pub fn update(&mut self, total_memory: u64, used_memory: u64, total_swap: u64, used_swap: u64)
        ensures
            final(self)@ == (MemoryItemView { total_memory, used_memory, total_swap, used_swap }),
    {
        self.total_memory = total_memory;
        self.used_memory = used_memory;
        self.total_swap = total_swap;
        self.used_swap = used_swap;
    }

    pub fn total_memory(&self) -> (r: u64)
        ensures
            r == self@.total_memory,
    {
        self.total_memory
    }

    pub fn used_memory(&self) -> (r: u64)
        ensures
            r == self@.used_memory,
    {
        self.used_memory
    }

    pub fn total_swap(&self) -> (r: u64)
        ensures
            r == self@.total_swap,
    {
        self.total_swap
    }

    pub fn used_swap(&self) -> (r: u64)
        ensures
            r == self@.used_swap,
    {
        self.used_swap
    }
}

} // verus!
