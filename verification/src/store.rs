//! The single shared cell of metrics between the producer (the capture
//! callback) and the consumer (the display loop).
//!
//! The cell holds exactly one complete snapshot at all times: a publish
//! replaces the whole value, a snapshot copies the whole value, so a
//! reader can only ever observe some value that was actually published
//! (or the all-zero startup value) — never a mixture of two. The
//! surrounding program provides the mutual exclusion that serializes
//! the two roles; the value-level guarantees live here.

use vstd::prelude::*;

use crate::metrics::SignalMetrics;

verus! {

/// One mutable cell holding the most recently published snapshot.
pub struct SharedMetricsStore {
    current: SignalMetrics,
}

impl View for SharedMetricsStore {
    type V = SignalMetrics;

    /// The snapshot currently held.
    closed spec fn view(&self) -> SignalMetrics {
        self.current
    }
}

impl SharedMetricsStore {
    /// The store only ever holds a well-formed snapshot.
    pub open spec fn wf(&self) -> bool {
        self@.wf()
    }

    /// A store holding the all-zero startup snapshot.
    pub fn new() -> (s: Self)
        ensures
            s.wf(),
            s@ == (SignalMetrics { amplitude: 0, frequency: 0, wavelength: 0 }),
    {
        SharedMetricsStore { current: SignalMetrics::new() }
    }

    /// Atomically replaces the held snapshot with `m`, wholly: after a
    /// publish the store holds exactly the published value.
    pub fn publish(&mut self, m: SignalMetrics)
        requires
            m.wf(),
        ensures
            final(self).wf(),
            final(self)@ == m,
    {
        self.current = m;
    }

    /// Reads a consistent copy of the held snapshot: exactly the value
    /// most recently published (or the startup value), never a torn
    /// mixture of two published values.
    pub fn snapshot(&self) -> (m: SignalMetrics)
        requires
            self.wf(),
        ensures
            m == self@,
            m.wf(),
    {
        self.current
    }
}

} // verus!
