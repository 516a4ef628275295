use vstd::prelude::*;

verus! {

/// Milliseconds in a duration of `secs` seconds and `subsec_nanos`
/// nanoseconds, capped at the largest `usize`.
pub open spec fn millis_of(secs: u64, subsec_nanos: u32) -> int {
    secs * 1000 + subsec_nanos / 1_000_000
}

/// A duration in whole milliseconds, capped at `usize::MAX`.
pub fn dur_to_ms(secs: u64, subsec_nanos: u32) -> (r: usize)
    requires
        millis_of(secs, subsec_nanos) <= u64::MAX,
    ensures
        r == if millis_of(secs, subsec_nanos) < usize::MAX {
            millis_of(secs, subsec_nanos)
        } else {
            usize::MAX as int
        },
{
    let millis: u64 = secs * 1000 + subsec_nanos as u64 / 1_000_000;
    if millis < usize::MAX as u64 {
        millis as usize
    } else {
        usize::MAX
    }
}

} // verus!
