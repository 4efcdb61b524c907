use vstd::prelude::*;

use crate::state::Address;

verus! {

/// The completion event: an immutable record of one successful transfer,
/// appended to the invocation's output log exactly once per success and
/// never without a preceding successful transfer.
#[derive(Clone, Copy, PartialEq, Eq, Structural, Debug)]
pub struct FeeCollected {
    pub from: Address,
    pub to: Address,
    pub amount: u64,
}

/// The invocation's append-only event log. Entries are only ever added at
/// the end; nothing in this library mutates or removes a recorded event.
pub struct EventLog {
    entries: Vec<FeeCollected>,
}

impl View for EventLog {
    type V = Seq<FeeCollected>;

    closed spec fn view(&self) -> Seq<FeeCollected> {
        self.entries@
    }
}

impl EventLog {
    /// An empty log, as each invocation starts with.
    pub fn new() -> (log: EventLog)
        ensures
            log@ == Seq::<FeeCollected>::empty(),
    {
        EventLog { entries: Vec::new() }
    }

    /// Appends one event at the end of the log and touches nothing else.
    pub fn emit(&mut self, event: FeeCollected)
        ensures
            final(self)@ == old(self)@.push(event),
    {
        self.entries.push(event);
    }

    pub fn len(&self) -> (n: usize)
        ensures
            n == self@.len(),
    {
        self.entries.len()
    }

    pub fn entry(&self, i: usize) -> (event: &FeeCollected)
        requires
            i < self@.len(),
        ensures
            *event == self@[i as int],
    {
        &self.entries[i]
    }
}

} // verus!
