//! How long a philosopher thinks or eats.

use rand::Rng;
use vstd::prelude::*;

verus! {

/// Whether `time` can come out of `range`. A range runs from its first
/// number up to, but not including, its second; a range whose two numbers
/// are equal holds that one time.
pub open spec fn within(range: (u32, u32), time: u32) -> bool {
    if range.0 == range.1 {
        time == range.0
    } else {
        range.0 <= time < range.1
    }
}

/// `gen_range` of `rand::Rng`, called on the generator that
/// `rand::thread_rng()` hands out, with the range `low..high`. The crate
/// draws from the half-open range, so the number is at least `low` and
/// below `high`; which number comes is left open. It panics on an empty
/// range, which `requires` rules out.
#[verifier::external_body]
fn draw(low: u32, high: u32) -> (drawn: u32)
    requires
        low < high,
    ensures
        low <= drawn < high,
{
    rand::thread_rng().gen_range(low..high)
}

/// Picks the length of the next thinking or eating: a number drawn from
/// the range, or, where the range holds a single time, that time.
pub fn sample_duration(range: (u32, u32)) -> (time: u32)
    requires
        range.0 <= range.1,
    ensures
        within(range, time),
{
    if range.0 == range.1 {
        range.0
    } else {
        draw(range.0, range.1)
    }
}

} // verus!
