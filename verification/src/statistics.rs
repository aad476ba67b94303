//! The per-test statistics sink.  The core records (stage, value) pairs as
//! plain data; delivery to a telemetry backend is fire-and-forget and is the
//! embedding application's business.

use vstd::prelude::*;

use crate::TestID;

verus! {

/// Which lifecycle stages of a test succeeded.
#[derive(Debug, Clone, Copy, PartialEq, Eq, Structural)]
pub struct TestStageSucessEntry {
    pub validation: bool,
    pub dependency_building: bool,
    pub resource_aquisition: bool,
    pub execution: bool,
}

/// What a statistics record is keyed by.
#[derive(Debug, Clone, Copy, PartialEq, Eq, Structural)]
pub enum WrapperType {
    Test,
    Dependency,
}

/// An append-only record of (stage name, value) pairs for one test.
#[derive(Debug)]
pub struct StatsSink {
    pub test_id: TestID,
    pub entries: Vec<(String, String)>,
}

impl View for StatsSink {
    type V = Seq<(String, String)>;

    open spec fn view(&self) -> Seq<(String, String)> {
        self.entries@
    }
}

impl StatsSink {
    /// An empty sink for the given test.
    pub fn new(test_id: TestID) -> (r: Self)
        ensures
            r.test_id == test_id,
            r@.len() == 0,
    {
        StatsSink { test_id, entries: Vec::new() }
    }

    /// Record one (stage, value) pair.
    pub fn write(&mut self, stage: &str, value: &str)
        ensures
            final(self).test_id == old(self).test_id,
            final(self)@.len() == old(self)@.len() + 1,
            final(self)@.drop_last() == old(self)@,
            final(self)@.last().0@ == stage@,
            final(self)@.last().1@ == value@,
    {
        let ghost pre = self.entries@;
        self.entries.push((stage.to_owned(), value.to_owned()));
        proof {
            assert(self.entries@.drop_last() =~= pre);
        }
    }
}

} // verus!
