pub mod memory_item;
pub mod network_item;
pub mod process_filter;
pub mod process_item;

use vstd::prelude::*;

verus! {

/// Bytes to kibibytes, rounding down.
pub fn byte_to_kb(data: u64) -> (r: u64)
    ensures
        r == data / 1024,
{
    data / 1024
}

/// Bytes to mebibytes, rounding down.
pub trait ByteToMB: Sized {
    /// The number of whole mebibytes in `self` bytes.
    spec fn spec_byte_to_mb(self) -> Self;

    fn byte_to_mb(self) -> (r: Self)
        ensures
            r == self.spec_byte_to_mb(),
    ;
}

impl ByteToMB for u32 {
    open spec fn spec_byte_to_mb(self) -> u32 {
        self / 1048576
    }

    fn byte_to_mb(self) -> (r: u32) {
        self / 1048576
    }
}

impl ByteToMB for u64 {
    open spec fn spec_byte_to_mb(self) -> u64 {
        self / 1048576
    }

    fn byte_to_mb(self) -> (r: u64) {
        self / 1048576
    }
}

impl ByteToMB for usize {
    open spec fn spec_byte_to_mb(self) -> usize {
        self / 1048576
    }

    fn byte_to_mb(self) -> (r: usize) {
        self / 1048576
    }
}

} // verus!
