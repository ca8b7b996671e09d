use vstd::prelude::*;

verus! {

/// What the process list shows of a process's memory use.
#[derive(Clone)]
pub struct MemoryInfo {
    pub pid: u32,
    pub name: String,
    pub memory_usage: u64,
}

} // verus!
