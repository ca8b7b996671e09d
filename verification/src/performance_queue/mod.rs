pub mod bounded_queue;
pub mod memory_item;
