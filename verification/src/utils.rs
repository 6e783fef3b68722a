use vstd::prelude::*;

verus! {

/// What capping a value to `[min, max]` yields: `min` below the range, `max`
/// above it, the value itself inside it.
pub open spec fn clamped(value: int, min: int, max: int) -> int {
    if value < min {
        min
    } else if value > max {
        max
    } else {
        value
    }
}

/// Caps a stat value between min and max bounds, so that pet stats stay
/// within their valid range.
pub fn cap_stat(value: i32, min: u8, max: u8) -> (r: u8)
    ensures
        r as int == clamped(value as int, min as int, max as int),
{
    if value < min as i32 {
        min
    } else if value > max as i32 {
        max
    } else {
        value as u8
    }
}

} // verus!
