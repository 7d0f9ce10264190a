//! Time keeping on top of the fixed time base.

use vstd::prelude::*;

pub mod timerus;

verus! {

/// The microseconds that lie between two words of the counter register, of which
/// `start` was read first. The counter wraps around after 2^32 microseconds.
pub open spec fn micros_between(start: u32, now: u32) -> u32 {
    if now >= start {
        (now - start) as u32
    } else {
        (now - start + 0x1_0000_0000) as u32
    }
}

/// The microseconds that lie between two words of the counter register, of which
/// `start` was read first. The counter wraps around after 2^32 microseconds.
pub fn elapsed_micros(start: u32, now: u32) -> (micros: u32)
    ensures
        micros == micros_between(start, now),
{
    now.wrapping_sub(start)
}

} // verus!
