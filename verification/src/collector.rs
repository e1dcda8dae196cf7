//! The collector: the single consumer of finished records.
//!
//! Workers forward every successful record to one output channel; the
//! collector drains that channel and hands each record to the sink, so the
//! sink never sees two writers. The channel itself is outside the library;
//! what is verified here is the collector's bookkeeping: records are kept
//! in arrival order, none is dropped and none is invented.

use vstd::prelude::*;
use crate::record::PricePoint;

verus! {

/// The single consumer at the end of the pipeline. Everything it has
/// accepted so far, in arrival order, is what the sink has been handed.
pub struct Collector {
    /// The records accepted so far, oldest first.
    pub records: Vec<PricePoint>,
}

impl Collector {
    /// A collector that has accepted nothing yet.
    pub fn new() -> (c: Collector)
        ensures
            c.records@.len() == 0,
    {
        Collector { records: Vec::new() }
    }

    /// Accept one record: it is appended after everything accepted before,
    /// and nothing else changes.
    pub fn accept(&mut self, point: PricePoint)
        ensures
            final(self).records@ == old(self).records@.push(point),
    {
        self.records.push(point);
    }

    /// How many records have been accepted.
    pub fn count(&self) -> (n: usize)
        ensures
            n == self.records@.len(),
    {
        self.records.len()
    }
}

} // verus!
