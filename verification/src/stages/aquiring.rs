//! The transition into Runnable: claim the device and apparatus the test
//! requires in the shared ledgers.  A test that cannot claim both yet is
//! handed back for the worker's next poll; contention is not fatal to the
//! test.

use vstd::prelude::*;

use crate::htp_test::registry_moved;
use crate::htp_test::spec_of;
use crate::htp_test::HtpTest;
use crate::htp_test::PostValidation;
use crate::htp_test::Runnable;
use crate::htp_test::TestStage;
use crate::htp_test::Validated;
use crate::resource_ledger::acquire_ok;
use crate::resource_ledger::ledger_wf;
use crate::resource_ledger::ResourceLedger;
use crate::running_test_map::spec_contains_id;
use crate::running_test_map::RunningTestMap;
use crate::test_queue::device_candidate;

verus! {

/// An acquisition attempt that found the resources unavailable; the test
/// record is handed back, keeping any partial claims, for a later retry.
#[derive(Debug)]
pub struct AquisitionError<Stage = Validated> {
    pub msg: String,
    pub blocked: HtpTest<Stage>,
}

/// Whether one acquisition attempt by test `t` succeeds: the required
/// apparatus is already held or acquirable exclusively in the apparatus
/// ledger, and a device connected to that apparatus is already held or
/// acquirable exclusively in the device ledger.
pub open spec fn acquisition_ok<S>(
    t: HtpTest<S>,
    device_ledger: crate::resource_ledger::LedgerSnapshot,
    apparatus_ledger: crate::resource_ledger::LedgerSnapshot,
) -> bool {
    &&& (t.acquired_apparatus_ids@.len() > 0 || acquire_ok(
        apparatus_ledger,
        t.id,
        spec_of(t).apparatus@,
        true,
    ))
    &&& (t.acquired_device_ids@.len() > 0 || exists|k: int|
        0 <= k < t.config->Some_0.devices@.len() && device_candidate(
            t.config->Some_0.devices@,
            spec_of(t).apparatus@,
            k,
        ) && acquire_ok(device_ledger, t.id, t.config->Some_0.devices@[k].0@, true))
}

impl<Stage> HtpTest<Stage> where Stage: TestStage + PostValidation {
    /// One acquisition attempt: claim the required apparatus and a suitable
    /// device, exclusively, in the ledgers, and start the test exactly when
    /// both are held.  On contention the record keeps its partial claims and
    /// is returned for the next poll.
    pub fn aquire(
        self,
        device_ledger: &mut ResourceLedger,
        apparatus_ledger: &mut ResourceLedger,
        map: &mut RunningTestMap,
        now: u64,
    ) -> (r: Result<HtpTest<Runnable>, AquisitionError<Stage>>)
        requires
            self.validated_wf(),
            spec_contains_id(old(map).map@, self.test_spec_id.0@, self.test_spec_id.1@),
        ensures
            r is Ok <==> acquisition_ok(self, old(device_ledger)@, old(apparatus_ledger)@),
            ledger_wf(old(device_ledger)@) ==> ledger_wf(final(device_ledger)@),
            ledger_wf(old(apparatus_ledger)@) ==> ledger_wf(final(apparatus_ledger)@),
            final(apparatus_ledger)@ == old(apparatus_ledger)@ || (final(apparatus_ledger)@.len()
                == old(apparatus_ledger)@.len() + 1 && final(apparatus_ledger)@.drop_last() == old(apparatus_ledger)@ && final(apparatus_ledger)@.last().0 == self.id && final(apparatus_ledger)@.last().1@ == spec_of(self).apparatus@ && final(apparatus_ledger)@.last().2),
            final(device_ledger)@ == old(device_ledger)@ || (final(device_ledger)@.len() == old(device_ledger)@.len() + 1 && final(device_ledger)@.drop_last() == old(device_ledger)@ && final(device_ledger)@.last().0 == self.id && final(device_ledger)@.last().2 && (exists|k: int|
                0 <= k < self.config->Some_0.devices@.len() && device_candidate(
                    self.config->Some_0.devices@,
                    spec_of(self).apparatus@,
                    k,
                ) && self.config->Some_0.devices@[k].0@ == final(device_ledger)@.last().1@)),
            r is Ok && self.acquired_apparatus_ids@.len() == 0 ==> final(apparatus_ledger)@.len()
                == old(apparatus_ledger)@.len() + 1,
            r is Ok && self.acquired_device_ids@.len() == 0 ==> final(device_ledger)@.len() == old(device_ledger)@.len() + 1,
            r is Ok ==> {
                let v = r->Ok_0;
                &&& v.id == self.id
                &&& v.orchestrator_config == self.orchestrator_config
                &&& v.config_folder == self.config_folder
                &&& v.persist_folder == self.persist_folder
                &&& v.config == self.config
                &&& v.dependencies == self.dependencies
                &&& v.test_spec_id == self.test_spec_id
                &&& v.priority == self.priority
                &&& v.stats_sink == self.stats_sink
                &&& v.error == self.error
                &&& v.acquired_device_ids@.len() > 0
                &&& v.acquired_apparatus_ids@.len() > 0
                &&& v.execution_start_time == Some(now)
                &&& v.execution_end_time == self.execution_end_time
                &&& v.was_terminated_before_finished == self.was_terminated_before_finished
                &&& registry_moved(
                    old(map).map@,
                    final(map).map@,
                    self.test_spec_id,
                    Runnable::spec_name(),
                    now,
                )
            },
            r is Err ==> {
                let b = r->Err_0.blocked;
                &&& b.id == self.id
                &&& b.orchestrator_config == self.orchestrator_config
                &&& b.config_folder == self.config_folder
                &&& b.persist_folder == self.persist_folder
                &&& b.config == self.config
                &&& b.dependencies == self.dependencies
                &&& b.test_spec_id == self.test_spec_id
                &&& b.priority == self.priority
                &&& b.stats_sink == self.stats_sink
                &&& b.error == self.error
                &&& b.execution_start_time == self.execution_start_time
                &&& b.execution_end_time == self.execution_end_time
                &&& b.was_terminated_before_finished == self.was_terminated_before_finished
                &&& b.validated_wf()
                &&& !(b.acquired_device_ids@.len() > 0 && b.acquired_apparatus_ids@.len() > 0)
                &&& final(map).map@ == old(map).map@
                &&& r->Err_0.msg@ == "Resources are not yet available"@
            },
    {
        let mut record = self;
        if !record.apparatus_dependencies_satisfied() {
            record.try_acquire_apparatuses(apparatus_ledger);
        }
        if !record.device_dependencies_satisfied() {
            record.try_acquire_devices(device_ledger);
        }
        if record.can_start() {
            Ok(record.try_start(map, now))
        } else {
            Err(
                AquisitionError {
                    msg: "Resources are not yet available".to_owned(),
                    blocked: record,
                },
            )
        }
    }
}

} // verus!
