//! Counters for the time that requests take.

use vstd::prelude::*;

verus! {

/// An instant of the monotonic clock.
#[verifier::external_type_specification]
#[verifier::external_body]
pub struct ExInstant(std::time::Instant);

/// Reads the monotonic clock with `std::time::Instant::now`.
#[verifier::external_body]
fn clock_now() -> (now: std::time::Instant)
{
    std::time::Instant::now()
}

/// The nanoseconds that have passed since `start`, by
/// `std::time::Instant::elapsed`. Nothing is claimed of the number: it
/// depends on the clock.
#[verifier::external_body]
fn clock_elapsed(start: &std::time::Instant) -> (nanoseconds: u128)
{
    start.elapsed().as_nanos()
}

/// How many requests were served and how long they took in all, in
/// nanoseconds.
#[derive(Debug, Clone, PartialEq, Eq)]
pub struct PerformanceMetrics {
    pub request_count: u64,
    pub total_time: u128,
}

impl PerformanceMetrics {
    /// Metrics of a server that has served nothing yet.
    pub fn new() -> (metrics: Self)
        ensures
            metrics.request_count == 0,
            metrics.total_time == 0,
    {
        PerformanceMetrics { request_count: 0, total_time: 0 }
    }

    /// Counts one more request that took `duration` nanoseconds.
    pub fn record_request(&mut self, duration: u128)
        requires
            old(self).request_count < u64::MAX,
            old(self).total_time + duration <= u128::MAX,
        ensures
            final(self).request_count == old(self).request_count + 1,
            final(self).total_time == old(self).total_time + duration,
    {
        self.request_count += 1;
        self.total_time += duration;
    }

    /// The mean time of a request in nanoseconds, rounded down; `None`
    /// where no request was counted.
    pub fn average_time(&self) -> (average: Option<u128>)
        ensures
            average == if self.request_count == 0 {
                None
            } else {
                Some((self.total_time / (self.request_count as u128)) as u128)
            },
    {
        if self.request_count == 0 {
            None
        } else {
            Some(self.total_time / (self.request_count as u128))
        }
    }
}

/// Runs `f` once and gives the nanoseconds that it took. Nothing is claimed
/// of the number, which the clock decides; what `f` ensures holds when the
/// measurement is back.
pub fn measure_request<F: FnOnce() -> ()>(f: F) -> (nanoseconds: u128)
    requires
        f.requires(()),
    ensures
        f.ensures((), ()),
{
    let start = clock_now();
    f();
    clock_elapsed(&start)
}

} // verus!
