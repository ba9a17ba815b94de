//! Timing a piece of work and reporting how long it took.
//!
//! The clock is `std::time::Instant` behind trusted wrappers; the work
//! itself is an arbitrary closure, and whatever its contract promises is
//! promised of the benchmarked call too.

use vstd::prelude::*;
use vstd::string::*;

use crate::logger::print_line;

verus! {

#[verifier::external_type_specification]
#[verifier::external_body]
pub struct ExInstant(std::time::Instant);

/// Relies on `std::time::Instant::now`: a point on the monotonic clock,
/// of which nothing is promised.
#[verifier::external_body]
fn instant_now() -> std::time::Instant {
    std::time::Instant::now()
}

/// Relies on `Instant::elapsed`: the whole milliseconds since `start`,
/// of which nothing is promised.
#[verifier::external_body]
fn elapsed_millis(start: &std::time::Instant) -> u64 {
    start.elapsed().as_millis() as u64
}

/// Runs `work`, reports how many milliseconds it took under the given
/// label, and hands its result through unchanged: whatever the
/// closure's contract promises holds of the result.
pub fn benchmark<R, F: FnOnce() -> R>(label: &str, work: F) -> (r: R)
    requires
        call_requires(work, ()),
    ensures
        call_ensures(work, (), r),
{
    let start = instant_now();
    let result = work();
    let ms = elapsed_millis(&start);
    let mut line = String::new();
    line.append("[Benchmark] ");
    line.append(label);
    line.append(" took ");
    let num = crate::digits::u64_string(ms);
    line.append(num.as_str());
    line.append("ms");
    print_line(line.as_str());
    result
}

} // verus!
