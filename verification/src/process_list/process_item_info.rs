use vstd::prelude::*;
use crate::decimal::{decimal, decimal_string};

verus! {

/// Details of a process by value.
pub struct ProcessItemInfoView {
    pub start_time: u64,
    pub run_time: u64,
    pub accumulated_cpu_time: u64,
    pub status: Seq<char>,
}

/// Details of a process: when it started, how long it has run, the processor time it
/// has used, and its status.
#[derive(Clone)]
pub struct ProcessItemInfo {
    start_time: u64,
    run_time: u64,
    accumulated_cpu_time: u64,
    status: String,
}

impl View for ProcessItemInfo {
    type V = ProcessItemInfoView;

    closed spec fn view(&self) -> ProcessItemInfoView {
        ProcessItemInfoView {
            start_time: self.start_time,
            run_time: self.run_time,
            accumulated_cpu_time: self.accumulated_cpu_time,
            status: self.status@,
        }
    }
}

impl ProcessItemInfo {
    pub fn new(start_time: u64, run_time: u64, accumulated_cpu_time: u64, status: String) -> (r: Self)
        ensures
            r@ == (ProcessItemInfoView { start_time, run_time, accumulated_cpu_time, status: status@ }),
    {
        Self { start_time, run_time, accumulated_cpu_time, status }
    }

    pub fn update(
        &mut self,
        start_time: u64,
        run_time: u64,
        accumulated_cpu_time: u64,
        status: String,
    )
        ensures
            final(self)@ == (ProcessItemInfoView {
                start_time,
                run_time,
                accumulated_cpu_time,
                status: status@,
            }),
    {
        self.start_time = start_time;
        self.run_time = run_time;
        self.accumulated_cpu_time = accumulated_cpu_time;
        self.status = status;
    }

    /// The details as text: start time, run time and processor time in decimal, then the
    /// status.
    pub fn get_info(&self) -> (r: Vec<String>)
        ensures
            r@.len() == 4,
            r@[0]@ == decimal(self@.start_time as nat),
            r@[1]@ == decimal(self@.run_time as nat),
            r@[2]@ == decimal(self@.accumulated_cpu_time as nat),
            r@[3]@ == self@.status,
    {
        let info: Vec<String> = vec![
            decimal_string(self.start_time),
            decimal_string(self.run_time),
            decimal_string(self.accumulated_cpu_time),
            self.status.clone(),
        ];
        info
    }
}

} // verus!
