use vstd::prelude::*;

verus! {

/// Network traffic in bytes by value: sent and received since the last sample, and in total.
pub struct NetworkItemView {
    pub tx: u64,
    pub rx: u64,
    pub total_tx: u64,
    pub total_rx: u64,
}

/// A sample of network traffic, in bytes.
#[derive(Default)]
pub struct NetworkItem {
    tx: u64,
    rx: u64,
    total_tx: u64,
    total_rx: u64,
}

impl View for NetworkItem {
    type V = NetworkItemView;

    closed spec fn view(&self) -> NetworkItemView {
        NetworkItemView { tx: self.tx, rx: self.rx, total_tx: self.total_tx, total_rx: self.total_rx }
    }
}

impl NetworkItem {
    pub fn new(tx: u64, rx: u64, total_tx: u64, total_rx: u64) -> (r: Self)
        ensures
            r@ == (NetworkItemView { tx, rx, total_tx, total_rx }),
    {
        Self { tx, rx, total_tx, total_rx }
    }

    pub fn tx(&self) -> (r: u64)
        ensures
            r == self@.tx,
    {
        self.tx
    }

    pub fn rx(&self) -> (r: u64)
        ensures
            r == self@.rx,
    {
        self.rx
    }

    pub fn total_tx(&self) -> (r: u64)
        ensures
            r == self@.total_tx,
    {
        self.total_tx
    }

    pub fn total_rx(&self) -> (r: u64)
        ensures
            r == self@.total_rx,
    {
        self.total_rx
    }
}

} // verus!
