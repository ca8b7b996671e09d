use vstd::prelude::*;
use crate::input::{Key, Mouse};

verus! {

/// What the event loop hands the application: an input, a tick of the input poll, or
/// the signal to refresh the system data.
#[derive(Clone, Copy, PartialEq, Eq, Structural, Debug)]
pub enum Event {
    KeyInput(Key),
    MouseInput(Mouse),
    Tick,
    Refresh,
}

} // verus!
