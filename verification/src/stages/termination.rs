//! The terminal stage: the sole destructor of a test record.  The sink
//! removes the test's entry from the running-test registry; under the
//! uniqueness the registry maintains, exactly one entry goes away and no
//! entry for the test id remains.

use vstd::prelude::*;

use crate::htp_test::HtpTest;
use crate::htp_test::Terminated;
use crate::running_test_map::ids_unique;
use crate::running_test_map::spec_contains_id;
use crate::running_test_map::spec_drop_id;
use crate::running_test_map::RunningTestMap;

verus! {

impl HtpTest<Terminated> {
    /// Consume the terminated record and remove its registry entry.
    pub fn unregister(self, map: &mut RunningTestMap)
        ensures
            final(map).map@ == spec_drop_id(
                old(map).map@,
                self.test_spec_id.0@,
                self.test_spec_id.1@,
            ),
            ids_unique(old(map).map@) && spec_contains_id(
                old(map).map@,
                self.test_spec_id.0@,
                self.test_spec_id.1@,
            ) ==> final(map).map@.len() == old(map).map@.len() - 1,
            ids_unique(old(map).map@) ==> !spec_contains_id(
                final(map).map@,
                self.test_spec_id.0@,
                self.test_spec_id.1@,
            ),
    {
        map.remove_test(&self.test_spec_id);
    }
}

} // verus!
