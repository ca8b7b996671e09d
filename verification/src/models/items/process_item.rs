use vstd::prelude::*;
use crate::decimal::{decimal, decimal_string};

verus! {

/// The orders in which processes can be sorted.
#[derive(PartialEq, Eq, Structural, Clone, Copy, Debug)]
pub enum ProcessItemSortOrder {
    PidInc,
    PidDec,
    NameInc,
    NameDec,
    CpuUsageInc,
    CpuUsageDec,
    MemoryUsageInc,
    MemoryUsageDec,
    StatusInc,
    StatusDec,
    RuntimeInc,
    RuntimeDec,
}

/// `n` written with at least two digits, padded with a leading zero (`{:0>2}`).
pub open spec fn padded_two(n: nat) -> Seq<char> {
    if n < 10 {
        seq!['0'] + decimal(n)
    } else {
        decimal(n)
    }
}

/// A run time in seconds as days, hours, minutes and seconds. The day count is the hour
/// of the day divided by 86400, as the process list has always computed it.
pub open spec fn run_time_text(time_in_s: nat) -> Seq<char> {
    let ss = time_in_s % 60;
    let mm = (time_in_s / 60) % 60;
    let hh = (time_in_s / 3600) % 24;
    let dd = hh / 86400;
    padded_two(dd) + "D "@ + padded_two(hh) + "H "@ + padded_two(mm) + "M "@ + padded_two(ss)
        + "S"@
}

fn padded_two_string(n: u64) -> (s: String)
    ensures
        s@ == padded_two(n as nat),
{
    if n < 10 {
        let mut s = String::from_str("0");
        let digits = decimal_string(n);
        s.append(digits.as_str());
        proof {
            reveal_strlit("0");
        }
        s
    } else {
        decimal_string(n)
    }
}

/// Writes a run time in seconds as `"DDD HHH MMM SSS"`-style text (`{:0>2}D {:0>2}H
/// {:0>2}M {:0>2}S`).
pub fn run_time_dd_hh_mm_ss(run_time: u64) -> (s: String)
    ensures
        s@ == run_time_text(run_time as nat),
{
    let time_in_s = run_time;
    let ss = time_in_s % 60;
    let mm = (time_in_s / 60) % 60;
    let hh = (time_in_s / 3600) % 24;
    let dd = hh / 86400;
    let mut s = padded_two_string(dd);
    s.append("D ");
    let h = padded_two_string(hh);
    s.append(h.as_str());
    s.append("H ");
    let m = padded_two_string(mm);
    s.append(m.as_str());
    s.append("M ");
    let sec = padded_two_string(ss);
    s.append(sec.as_str());
    s.append("S");
    s
}

} // verus!
