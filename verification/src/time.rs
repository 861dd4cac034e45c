//! Frame timing state: the instant a system last ran, and a fixed-capacity
//! ring of recent samples.

use vstd::prelude::*;

use std::collections::VecDeque;

verus! {

/// An opaque timestamp captured from the system's monotonic clock.
#[verifier::external_type_specification]
#[verifier::external_body]
pub struct ExInstant(std::time::Instant);

/// Relies on std::time::Instant::now: an opaque timestamp of the present
/// moment. The value depends on the clock, so nothing is promised of it.
#[verifier::external_body]
fn instant_now() -> std::time::Instant {
    std::time::Instant::now()
}

/// Tracks the delay between calls of a system: it holds the instant it was
/// last flushed. Durations are computed by the caller from the raw instant;
/// the clock's readings are opaque here.
pub struct DeltaTime {
    last: std::time::Instant,
}

impl DeltaTime {
    /// A tracker starting at the present moment.
    pub fn new() -> Self {
        DeltaTime { last: instant_now() }
    }

    /// Recaptures the instant to be used again. Must be called at the last
    /// line of the system.
    pub fn flush(&mut self) {
        self.last = instant_now();
    }

    /// The instant of the last flush, for callers that turn it into a
    /// duration with their own clock arithmetic.
    pub fn instant(&self) -> std::time::Instant {
        self.last
    }
}

/// A ring holding at most `cap` values: once full, pushing a new value pops
/// and returns the oldest one.
pub struct CircularBuffer<T> {
    queue: VecDeque<T>,
    cap: usize,
}

impl<T> View for CircularBuffer<T> {
    type V = Seq<T>;

    closed spec fn view(&self) -> Seq<T> {
        self.queue@
    }
}

impl<A> CircularBuffer<A> {
    /// The fixed capacity the buffer was created with.
    pub closed spec fn spec_cap(self) -> usize {
        self.cap
    }

    /// Creates a new empty buffer with fixed capacity `size`.
    pub fn new(size: usize) -> (r: Self)
        ensures
            r@.len() == 0,
            r.spec_cap() == size,
    {
        CircularBuffer { queue: VecDeque::with_capacity(size), cap: size }
    }

    /// The number of values currently held.
    pub fn len(&self) -> (r: usize)
        ensures
            r == self@.len(),
    {
        self.queue.len()
    }

    /// Adds a value at the newest end. Returns the oldest value exactly when
    /// the buffer was already filled to capacity, keeping the length at the
    /// capacity from then on.
    pub fn push(&mut self, elem: A) -> (out: Option<A>)
        ensures
            final(self).spec_cap() == old(self).spec_cap(),
            old(self)@.len() == old(self).spec_cap() && old(self)@.len() > 0 ==> out == Some(
                old(self)@[0],
            ) && final(self)@ == old(self)@.drop_first().push(elem),
            old(self)@.len() != old(self).spec_cap() || old(self)@.len() == 0 ==> out is None
                && final(self)@ == old(self)@.push(elem),
    {
        let out = if self.queue.len() == self.cap {
            // front to back is oldest to newest
            self.queue.pop_front()
        } else {
            None
        };

        self.queue.push_back(elem);
        out
    }
}

} // verus!
