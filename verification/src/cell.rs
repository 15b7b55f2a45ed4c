//! The shared last-value cell: holds at most one telemetry sample, written
//! only by the producer (overwrite-on-write) and read only by the heartbeat
//! client. Samples produced between two reads are silently superseded: the
//! cell is a "latest value wins" hand-off, not a delivery queue. Mutual
//! exclusion per operation is the caller's concern (the producer and the
//! client guard the cell with a lock); the logic here says what each
//! operation does to the held value.

use vstd::prelude::*;

use crate::sample::GpuStats;

verus! {

/// A single-slot cell holding the most recently published sample, or nothing
/// before the first sample exists.
pub struct LastValueCell {
    latest: Option<GpuStats>,
}

impl View for LastValueCell {
    type V = Option<GpuStats>;

    closed spec fn view(&self) -> Option<GpuStats> {
        self.latest
    }
}

impl LastValueCell {
    /// The cell starts empty: no sample has been published yet.
    pub fn empty() -> (c: Self)
        ensures
            c@ is None,
    {
        LastValueCell { latest: None }
    }

    /// Publish a sample, fully replacing whatever the cell held before.
    pub fn publish(&mut self, s: GpuStats)
        ensures
            final(self)@ == Some(s),
    {
        self.latest = Some(s);
    }

    /// Read the current value: exactly the last published sample, or nothing
    /// if none was ever published. The cell itself is left unchanged.
    pub fn snapshot(&self) -> (r: Option<GpuStats>)
        ensures
            r == self@,
    {
        match &self.latest {
            Some(s) => Some(s.clone()),
            None => None,
        }
    }
}

} // verus!
