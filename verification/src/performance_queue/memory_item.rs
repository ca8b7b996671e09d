use vstd::prelude::*;

verus! {

/// Memory sizes in bytes, by value.
pub struct MemoryItemView {
    pub total_memory: u64,
    pub used_memory: u64,
    pub free_memory: u64,
    pub available_memory: u64,
}

/// A sample of memory use, in bytes.
#[derive(Clone, Copy, Debug)]
pub struct MemoryItem {
    total_memory: u64,
    used_memory: u64,
    free_memory: u64,
    available_memory: u64,
}

impl View for MemoryItem {
    type V = MemoryItemView;

    closed spec fn view(&self) -> MemoryItemView {
        MemoryItemView {
            total_memory: self.total_memory,
            used_memory: self.used_memory,
            free_memory: self.free_memory,
            available_memory: self.available_memory,
        }
    }
}

impl Default for MemoryItem {
    /// A sample with every size zero.
    fn default() -> (r: Self)
        ensures
            r@ == (MemoryItemView { total_memory: 0, used_memory: 0, free_memory: 0, available_memory: 0 }),
    {
        Self { total_memory: 0, used_memory: 0, free_memory: 0, available_memory: 0 }
    }
}

impl MemoryItem {
    pub fn new(total_memory: u64, used_memory: u64, free_memory: u64, available_memory: u64) -> (r: Self)
        ensures
            r@ == (MemoryItemView { total_memory, used_memory, free_memory, available_memory }),
    {
        Self { total_memory, used_memory, free_memory, available_memory }
    }

    pub fn total_memory(&self) -> (r: u64)
        ensures
            r == self@.total_memory,
    {
        return self.total_memory;
    }

    pub fn used_memory(&self) -> (r: u64)
        ensures
            r == self@.used_memory,
    {
        return self.used_memory;
    }

    pub fn free_memory(&self) -> (r: u64)
        ensures
            r == self@.free_memory,
    {
        return self.free_memory;
    }

    pub fn available_memory(&self) -> (r: u64)
        ensures
            r == self@.available_memory,
    {
        return self.available_memory;
    }
}

} // verus!
