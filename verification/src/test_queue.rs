//! Greedy resource acquisition for a test that has passed validation:
//! claim a suitable device and the required apparatus in the ledgers, start
//! when both are held, and otherwise wait for the next poll.

use vstd::prelude::*;

use crate::config::devices::Device;
use crate::htp_test::registry_moved;
use crate::htp_test::spec_of;
use crate::htp_test::HtpTest;
use crate::htp_test::Runnable;
use crate::htp_test::Terminated;
use crate::htp_test::PostValidation;
use crate::htp_test::TestStage;
use crate::resource_ledger::acquire_ok;
use crate::resource_ledger::ledger_wf;
use crate::resource_ledger::ResourceLedger;
use crate::running_test_map::spec_contains_id;
use crate::running_test_map::RunningTestMap;
use crate::text::seq_has_str;
use crate::text::vec_has_str;

verus! {

/// Whether the device at catalog position `j` is connected to the apparatus
/// the test requires.
pub open spec fn device_candidate(
    devs: Seq<(String, Device)>,
    apparatus: Seq<char>,
    j: int,
) -> bool {
    seq_has_str(devs[j].1.connected_apparatuses@, apparatus)
}

/// Everything of the record except the acquired-device list is unchanged.
pub open spec fn same_but_devices<S>(a: HtpTest<S>, b: HtpTest<S>) -> bool {
    &&& b.id == a.id
    &&& b.orchestrator_config == a.orchestrator_config
    &&& b.config_folder == a.config_folder
    &&& b.persist_folder == a.persist_folder
    &&& b.config == a.config
    &&& b.dependencies == a.dependencies
    &&& b.test_spec_id == a.test_spec_id
    &&& b.priority == a.priority
    &&& b.stats_sink == a.stats_sink
    &&& b.error == a.error
    &&& b.acquired_apparatus_ids == a.acquired_apparatus_ids
    &&& b.execution_start_time == a.execution_start_time
    &&& b.execution_end_time == a.execution_end_time
    &&& b.was_terminated_before_finished == a.was_terminated_before_finished
}

/// Everything of the record except the acquired-apparatus list is unchanged.
pub open spec fn same_but_apparatuses<S>(a: HtpTest<S>, b: HtpTest<S>) -> bool {
    &&& b.id == a.id
    &&& b.orchestrator_config == a.orchestrator_config
    &&& b.config_folder == a.config_folder
    &&& b.persist_folder == a.persist_folder
    &&& b.config == a.config
    &&& b.dependencies == a.dependencies
    &&& b.test_spec_id == a.test_spec_id
    &&& b.priority == a.priority
    &&& b.stats_sink == a.stats_sink
    &&& b.error == a.error
    &&& b.acquired_device_ids == a.acquired_device_ids
    &&& b.execution_start_time == a.execution_start_time
    &&& b.execution_end_time == a.execution_end_time
    &&& b.was_terminated_before_finished == a.was_terminated_before_finished
}

impl<Stage> HtpTest<Stage> where Stage: TestStage + PostValidation {
    /// Whether this test already holds a device.
    pub fn device_dependencies_satisfied(&self) -> (r: bool)
        ensures
            r == (self.acquired_device_ids@.len() > 0),
    {
        self.acquired_device_ids.len() > 0
    }

    /// Try to claim, exclusively, one device that is connected to the
    /// apparatus the test specification requires.  At most one device is
    /// acquired per call: the first connected device whose exclusive
    /// acquisition the ledger admits.  A call that finds none leaves the
    /// record and the ledger unchanged; the caller retries on its next poll.
    pub fn try_acquire_devices(&mut self, device_ledger: &mut ResourceLedger)
        requires
            old(self).validated_wf(),
        ensures
            same_but_devices(*old(self), *final(self)),
            ledger_wf(old(device_ledger)@) ==> ledger_wf(final(device_ledger)@),
            old(self).acquired_device_ids@.len() > 0 ==> final(self).acquired_device_ids == old(self).acquired_device_ids && final(device_ledger)@ == old(device_ledger)@,
            old(self).acquired_device_ids@.len() == 0 ==> {
                let devs = old(self).config->Some_0.devices@;
                let apparatus = spec_of(*old(self)).apparatus@;
                ||| (final(self).acquired_device_ids == old(self).acquired_device_ids && final(device_ledger)@ == old(device_ledger)@ && (forall|j: int|
                    0 <= j < devs.len() && device_candidate(devs, apparatus, j) ==> !acquire_ok(
                        old(device_ledger)@,
                        old(self).id,
                        devs[j].0@,
                        true,
                    )))
                ||| (exists|k: int|
                    0 <= k < devs.len() && device_candidate(devs, apparatus, k) && acquire_ok(
                        old(device_ledger)@,
                        old(self).id,
                        devs[k].0@,
                        true,
                    ) && (forall|j: int|
                        0 <= j < k && device_candidate(devs, apparatus, j) ==> !acquire_ok(
                            old(device_ledger)@,
                            old(self).id,
                            devs[j].0@,
                            true,
                        )) && final(self).acquired_device_ids@.len() == 1 && final(self).acquired_device_ids@[0]@ == devs[k].0@ && final(device_ledger)@.len() == old(device_ledger)@.len() + 1 && final(device_ledger)@.drop_last() == old(device_ledger)@
                        && final(device_ledger)@.last().0 == old(self).id && final(device_ledger)@.last().1@ == devs[k].0@ && final(device_ledger)@.last().2)
            },
    {
        if self.device_dependencies_satisfied() {
            return ;
        }
        let apparatus = self.get_test_spec().apparatus.clone();
        let cfg = self.config.as_ref().unwrap();
        let n = cfg.devices.len();
        let mut j: usize = 0;
        while j < n
            invariant
                old(self).validated_wf(),
                *self == *old(self),
                old(self).acquired_device_ids@.len() == 0,
                apparatus@ == spec_of(*old(self)).apparatus@,
                *cfg == old(self).config->Some_0,
                n == cfg.devices@.len(),
                j <= n,
                device_ledger@ == old(device_ledger)@,
                forall|jj: int|
                    0 <= jj < j && device_candidate(cfg.devices@, apparatus@, jj) ==> !acquire_ok(
                        old(device_ledger)@,
                        old(self).id,
                        cfg.devices@[jj].0@,
                        true,
                    ),
            decreases n - j,
        {
            let entry = cfg.devices.entry_at(j);
            if vec_has_str(&entry.1.connected_apparatuses, apparatus.as_str()) {
                let success = device_ledger.acquire_resource(
                    self.id,
                    entry.0.as_str(),
                    true,
                ).is_ok();
                if success {
                    proof {
                        let devs = old(self).config->Some_0.devices@;
                        let app = spec_of(*old(self)).apparatus@;
                        assert(cfg.devices@ == devs);
                        assert(device_candidate(devs, app, j as int)) by {
                            assert(*entry == devs[j as int]);
                        }
                        assert(acquire_ok(old(device_ledger)@, old(self).id, devs[j as int].0@, true));
                        assert forall|jj: int|
                            0 <= jj < j && device_candidate(devs, app, jj) implies !acquire_ok(
                            old(device_ledger)@,
                            old(self).id,
                            devs[jj].0@,
                            true,
                        ) by {
                            assert(device_candidate(cfg.devices@, apparatus@, jj) ==> !acquire_ok(
                                old(device_ledger)@,
                                old(self).id,
                                cfg.devices@[jj].0@,
                                true,
                            ));
                        }
                    }
                    let name = entry.0.clone();
                    self.acquired_device_ids.push(name);
                    return ;
                }
            }
            j = j + 1;
        }
    }

    /// Whether this test already holds its apparatus.
    pub fn apparatus_dependencies_satisfied(&self) -> (r: bool)
        ensures
            r == (self.acquired_apparatus_ids@.len() > 0),
    {
        self.acquired_apparatus_ids.len() > 0
    }

    /// Try to claim, exclusively, the apparatus the test specification
    /// requires.  A refused claim leaves the record and the ledger
    /// unchanged; the caller retries on its next poll.
    pub fn try_acquire_apparatuses(&mut self, apparatus_ledger: &mut ResourceLedger)
        requires
            old(self).validated_wf(),
        ensures
            same_but_apparatuses(*old(self), *final(self)),
            ledger_wf(old(apparatus_ledger)@) ==> ledger_wf(final(apparatus_ledger)@),
            old(self).acquired_apparatus_ids@.len() > 0 ==> final(self).acquired_apparatus_ids
                == old(self).acquired_apparatus_ids && final(apparatus_ledger)@ == old(apparatus_ledger)@,
            old(self).acquired_apparatus_ids@.len() == 0 ==> {
                let apparatus = spec_of(*old(self)).apparatus@;
                ||| (!acquire_ok(old(apparatus_ledger)@, old(self).id, apparatus, true) && final(self).acquired_apparatus_ids == old(self).acquired_apparatus_ids && final(apparatus_ledger)@ == old(apparatus_ledger)@)
                ||| (acquire_ok(old(apparatus_ledger)@, old(self).id, apparatus, true) && final(self).acquired_apparatus_ids@.len() == 1 && final(self).acquired_apparatus_ids@[0]@
                    == apparatus && final(apparatus_ledger)@.len() == old(apparatus_ledger)@.len()
                    + 1 && final(apparatus_ledger)@.drop_last() == old(apparatus_ledger)@ && final(apparatus_ledger)@.last().0 == old(self).id && final(apparatus_ledger)@.last().1@ == apparatus
                    && final(apparatus_ledger)@.last().2)
            },
    {
        if self.apparatus_dependencies_satisfied() {
            return ;
        }
        let apparatus = self.get_test_spec().apparatus.clone();
        let success = apparatus_ledger.acquire_resource(self.id, apparatus.as_str(), true).is_ok();
        if success {
            self.acquired_apparatus_ids.push(apparatus);
        }
    }

    /// Whether the test holds both a device and its apparatus.
    pub fn can_start(&self) -> (r: bool)
        ensures
            r == (self.acquired_apparatus_ids@.len() > 0 && self.acquired_device_ids@.len() > 0),
    {
        self.apparatus_dependencies_satisfied() && self.device_dependencies_satisfied()
    }

    /// Advance a test that holds its resources to Runnable, stamping the
    /// execution start time.
    pub fn try_start(self, map: &mut RunningTestMap, now: u64) -> (r: HtpTest<Runnable>)
        requires
            self.acquired_device_ids@.len() > 0,
            self.acquired_apparatus_ids@.len() > 0,
            spec_contains_id(old(map).map@, self.test_spec_id.0@, self.test_spec_id.1@),
        ensures
            r.id == self.id,
            r.orchestrator_config == self.orchestrator_config,
            r.config_folder == self.config_folder,
            r.persist_folder == self.persist_folder,
            r.config == self.config,
            r.dependencies == self.dependencies,
            r.test_spec_id == self.test_spec_id,
            r.priority == self.priority,
            r.stats_sink == self.stats_sink,
            r.error == self.error,
            r.acquired_device_ids == self.acquired_device_ids,
            r.acquired_apparatus_ids == self.acquired_apparatus_ids,
            r.execution_start_time == Some(now),
            r.execution_end_time == self.execution_end_time,
            r.was_terminated_before_finished == self.was_terminated_before_finished,
            registry_moved(old(map).map@, final(map).map@, self.test_spec_id, Runnable::spec_name(), now),
    {
        let mut record = self;
        record.execution_start_time = Some(now);
        record.clone_into(map, now)
    }
}

impl HtpTest<Runnable> {
    /// Whether execution has been stamped as ended.
    pub fn is_finished(&self) -> (r: bool)
        ensures
            r == (self.execution_end_time is Some),
    {
        self.execution_end_time.is_some()
    }

    /// End the test's run: stamp the execution end time, note whether it was
    /// cut short, and move the record to Terminated.
    pub fn terminate(self, map: &mut RunningTestMap, now: u64) -> (r: HtpTest<Terminated>)
        requires
            spec_contains_id(old(map).map@, self.test_spec_id.0@, self.test_spec_id.1@),
        ensures
            r.id == self.id,
            r.config == self.config,
            r.dependencies == self.dependencies,
            r.test_spec_id == self.test_spec_id,
            r.error == self.error,
            r.acquired_device_ids == self.acquired_device_ids,
            r.acquired_apparatus_ids == self.acquired_apparatus_ids,
            r.execution_start_time == self.execution_start_time,
            r.execution_end_time == Some(now),
            r.was_terminated_before_finished == if self.execution_end_time is None {
                Some(true)
            } else {
                self.was_terminated_before_finished
            },
            registry_moved(
                old(map).map@,
                final(map).map@,
                self.test_spec_id,
                Terminated::spec_name(),
                now,
            ),
    {
        let mut record = self;
        if !record.is_finished() {
            record.was_terminated_before_finished = Some(true);
        }
        record.execution_end_time = Some(now);
        record.clone_into(map, now)
    }
}

} // verus!
