//! The time that the host stamps on a callback.

use vstd::prelude::*;

verus! {

/// The moment at which the host makes a callback. The two times that the host
/// holds as IEEE 754 doubles are kept as their bit patterns.
#[derive(Copy, Clone, Debug, PartialEq, Eq, Structural)]
pub struct TimeStamp {
    /// The sample time, as the bit pattern of a double.
    pub sample_time: u64,
    /// The host's clock.
    pub host_time: u64,
    /// The ratio of actual to nominal host ticks, as the bit pattern of a double.
    pub rate_scalar: u64,
    /// The word clock time.
    pub word_clock_time: u64,
    /// Which of the fields hold a value.
    pub flags: u32,
}

impl TimeStamp {
    /// The stamp with every field zero: no field holds a value.
    pub fn zero() -> (r: Self)
        ensures
            r == (TimeStamp {
                sample_time: 0,
                host_time: 0,
                rate_scalar: 0,
                word_clock_time: 0,
                flags: 0,
            }),
    {
        TimeStamp { sample_time: 0, host_time: 0, rate_scalar: 0, word_clock_time: 0, flags: 0 }
    }
}

} // verus!
