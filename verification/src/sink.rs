//! The destination that agents report to. The core never hard-wires a
//! stream or a file: it appends plain records to a buffer that the caller
//! injects, and the caller decides where those records go afterwards.

use vstd::prelude::*;

verus! {

/// An ordered buffer of observation records. Each record is the observable
/// state of one agent at the moment it was collected, as a plain value;
/// turning records into text or bytes is the caller's business.
pub struct Sink {
    records: Vec<u64>,
}

impl View for Sink {
    type V = Seq<u64>;

    closed spec fn view(&self) -> Seq<u64> {
        self.records@
    }
}

impl Sink {
    /// An empty sink: no agent has reported yet.
    pub fn new() -> (s: Sink)
        ensures
            s@ == Seq::<u64>::empty(),
    {
        Sink { records: Vec::new() }
    }

    /// Append one record. A buffer append cannot fail, so emission
    /// unconditionally extends the sink by exactly that record.
    pub fn emit(&mut self, record: u64)
        ensures
            final(self)@ == old(self)@.push(record),
    {
        self.records.push(record);
    }

    /// The records emitted so far, oldest first.
    pub fn records(&self) -> (r: &Vec<u64>)
        ensures
            r@ == self@,
    {
        &self.records
    }

    /// How many records have been emitted.
    pub fn len(&self) -> (n: usize)
        ensures
            n == self@.len(),
    {
        self.records.len()
    }
}

} // verus!
