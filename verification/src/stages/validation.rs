//! The Queued -> Validated transition: attach the parsed configuration,
//! resolve the referenced test group and specification, materialize the
//! dependency records, and confirm every dependency's build-target device
//! type exists.  Any missing reference terminates the test with a
//! descriptive error.

use vstd::prelude::*;

use crate::catalog::spec_get;
use crate::config::tests::spec_get_test;
use crate::config::Config;
use crate::htp_test::carries_core;
use crate::htp_test::registry_moved;
use crate::htp_test::Dependency;
use crate::htp_test::HtpTest;
use crate::htp_test::Queued;
use crate::htp_test::Terminated;
use crate::htp_test::TestStage;
use crate::htp_test::Validated;
use crate::running_test_map::spec_contains_id;
use crate::running_test_map::RunningTestMap;

verus! {

/// A validation failure: the message, the underlying cause, and the
/// terminated test record carrying both for diagnostics.
#[derive(Debug)]
pub struct ValidateError {
    pub msg: String,
    pub source: String,
    pub terminated: HtpTest<Terminated>,
}

/// The conditions under which validation of test (gid, tid) against
/// `config` succeeds: the group and the test exist, every declared
/// dependency has a specification, and every such specification's
/// build-target device type exists.
pub open spec fn validation_ok(config: Config, gid: Seq<char>, tid: Seq<char>) -> bool {
    &&& spec_get(config.tests@, gid) is Some
    &&& spec_get_test(spec_get(config.tests@, gid)->Some_0.0@, tid) is Some
    &&& {
        let tspec = spec_get_test(spec_get(config.tests@, gid)->Some_0.0@, tid)->Some_0;
        forall|i: int|
            0 <= i < tspec.dependencies@.len() ==> {
                let dep_name = (#[trigger] tspec.dependencies@[i]).0@;
                &&& spec_get(config.dependencies@, dep_name) is Some
                &&& spec_get(
                    config.device_types@,
                    spec_get(config.dependencies@, dep_name)->Some_0.build_on@,
                ) is Some
            }
    }
}

impl HtpTest<Queued> {
    /// Validate this queued test against its configuration snapshot.  On
    /// success the record advances to Validated with the configuration and
    /// the resolved dependency records attached; on any missing reference
    /// the record is terminated with an error naming the failed lookup.
    pub fn validate(self, config: Config, map: &mut RunningTestMap, now: u64) -> (r: Result<
        HtpTest<Validated>,
        ValidateError,
    >)
        requires
            config.wf(),
            spec_contains_id(old(map).map@, self.test_spec_id.0@, self.test_spec_id.1@),
        ensures
            r is Ok <==> validation_ok(config, self.test_spec_id.0@, self.test_spec_id.1@),
            r is Ok ==> {
                let v = r->Ok_0;
                let tspec = spec_get_test(
                    spec_get(config.tests@, self.test_spec_id.0@)->Some_0.0@,
                    self.test_spec_id.1@,
                )->Some_0;
                &&& v.config == Some(config)
                &&& v.dependencies is Some
                &&& v.dependencies->Some_0@.len() == tspec.dependencies@.len()
                &&& (forall|i: int|
                    0 <= i < tspec.dependencies@.len() ==> {
                        let d = #[trigger] v.dependencies->Some_0@[i];
                        &&& d.name@ == tspec.dependencies@[i].0@
                        &&& d.ver@ == "VER"@
                        &&& Some(d.spec) == spec_get(
                            config.dependencies@,
                            tspec.dependencies@[i].0@,
                        )
                    })
                &&& v.validated_wf()
                &&& v.id == self.id
                &&& v.orchestrator_config == self.orchestrator_config
                &&& v.config_folder == self.config_folder
                &&& v.persist_folder == self.persist_folder
                &&& v.test_spec_id == self.test_spec_id
                &&& v.priority == self.priority
                &&& v.stats_sink == self.stats_sink
                &&& v.error == self.error
                &&& v.acquired_device_ids == self.acquired_device_ids
                &&& v.acquired_apparatus_ids == self.acquired_apparatus_ids
                &&& registry_moved(
                    old(map).map@,
                    final(map).map@,
                    self.test_spec_id,
                    Validated::spec_name(),
                    now,
                )
            },
            r is Err ==> {
                let e = r->Err_0;
                &&& carries_core(self, e.terminated)
                &&& e.terminated.error is Some
                &&& e.terminated.error->Some_0.msg@ == e.msg@
                &&& e.terminated.error->Some_0.cause@ == e.source@
                &&& e.source@ == "Config creation"@
                &&& registry_moved(
                    old(map).map@,
                    final(map).map@,
                    self.test_spec_id,
                    Terminated::spec_name(),
                    now,
                )
                &&& (spec_get(config.tests@, self.test_spec_id.0@) is None ==> e.msg@
                    == "Unable to find test group for test specification"@)
                &&& (spec_get(config.tests@, self.test_spec_id.0@) is Some && spec_get_test(
                    spec_get(config.tests@, self.test_spec_id.0@)->Some_0.0@,
                    self.test_spec_id.1@,
                ) is None ==> e.msg@ == "Unable to find test specification in test group"@)
                &&& {
                    let found = spec_get_test(
                        spec_get(config.tests@, self.test_spec_id.0@)->Some_0.0@,
                        self.test_spec_id.1@,
                    );
                    &&& (spec_get(config.tests@, self.test_spec_id.0@) is Some && found is Some
                        && (exists|i: int|
                        0 <= i < found->Some_0.dependencies@.len() && spec_get(
                            config.dependencies@,
                            (#[trigger] found->Some_0.dependencies@[i]).0@,
                        ) is None) ==> e.msg@ == "Unable to find specified dependency"@)
                    &&& (spec_get(config.tests@, self.test_spec_id.0@) is Some && found is Some
                        && (forall|i: int|
                        0 <= i < found->Some_0.dependencies@.len() ==> spec_get(
                            config.dependencies@,
                            (#[trigger] found->Some_0.dependencies@[i]).0@,
                        ) is Some) ==> e.msg@
                        == "Dependency is trying to run on a device_type that doesn't exist"@)
                }
            },
    {
        let ghost gid = self.test_spec_id.0@;
        let ghost tid = self.test_spec_id.1@;
        let group = match config.tests.get(self.test_spec_id.0.as_str()) {
            Some(group) => group,
            None => {
                let msg = "Unable to find test group for test specification";
                let source = "Config creation";
                return Err(
                    ValidateError {
                        msg: msg.to_owned(),
                        source: source.to_owned(),
                        terminated: self.fail_with(msg, source, map, now),
                    },
                );
            },
        };
        let test_specification = match group.get_test(self.test_spec_id.1.as_str()) {
            Some(test_specification) => test_specification,
            None => {
                let msg = "Unable to find test specification in test group";
                let source = "Config creation";
                return Err(
                    ValidateError {
                        msg: msg.to_owned(),
                        source: source.to_owned(),
                        terminated: self.fail_with(msg, source, map, now),
                    },
                );
            },
        };
        let ghost tspec = spec_get_test(spec_get(config.tests@, gid)->Some_0.0@, tid)->Some_0;
        let mut dependencies: Vec<Dependency> = Vec::new();
        let n = test_specification.dependencies.len();
        let mut i: usize = 0;
        while i < n
            invariant
                self.test_spec_id.0@ == gid,
                self.test_spec_id.1@ == tid,
                map.map@ == old(map).map@,
                spec_contains_id(map.map@, gid, tid),
                config.wf(),
                spec_get(config.tests@, gid) is Some,
                spec_get_test(spec_get(config.tests@, gid)->Some_0.0@, tid) == Some(tspec),
                *test_specification == tspec,
                n == tspec.dependencies@.len(),
                i <= n,
                dependencies@.len() == i,
                forall|j: int|
                    0 <= j < i ==> {
                        let d = #[trigger] dependencies@[j];
                        &&& d.name@ == tspec.dependencies@[j].0@
                        &&& d.ver@ == "VER"@
                        &&& Some(d.spec) == spec_get(
                            config.dependencies@,
                            tspec.dependencies@[j].0@,
                        )
                    },
            decreases n - i,
        {
            let dep_entry = test_specification.dependencies.entry_at(i);
            let dep_spec = match config.dependencies.get(dep_entry.0.as_str()) {
                Some(dep_spec) => dep_spec,
                None => {
                    proof {
                        let test2 = spec_get_test(
                            spec_get(config.tests@, self.test_spec_id.0@)->Some_0.0@,
                            self.test_spec_id.1@,
                        );
                        assert(test2 == Some(tspec));
                        assert(spec_get(
                            config.dependencies@,
                            test2->Some_0.dependencies@[i as int].0@,
                        ) is None);
                        assert(exists|i2: int|
                            0 <= i2 < test2->Some_0.dependencies@.len() && spec_get(
                                config.dependencies@,
                                (#[trigger] test2->Some_0.dependencies@[i2]).0@,
                            ) is None);
                    }
                    let msg = "Unable to find specified dependency";
                    let source = "Config creation";
                    return Err(
                        ValidateError {
                            msg: msg.to_owned(),
                            source: source.to_owned(),
                            terminated: self.fail_with(msg, source, map, now),
                        },
                    );
                },
            };
            let dep = Dependency::new(&self.orchestrator_config, dep_entry.0.as_str(), dep_spec);
            dependencies.push(dep);
            i = i + 1;
        }
        let mut i: usize = 0;
        while i < n
            invariant
                self.test_spec_id.0@ == gid,
                self.test_spec_id.1@ == tid,
                map.map@ == old(map).map@,
                spec_contains_id(map.map@, gid, tid),
                config.wf(),
                spec_get(config.tests@, gid) is Some,
                spec_get_test(spec_get(config.tests@, gid)->Some_0.0@, tid) == Some(tspec),
                n == tspec.dependencies@.len(),
                i <= n,
                dependencies@.len() == n,
                forall|j: int|
                    0 <= j < n ==> {
                        let d = #[trigger] dependencies@[j];
                        &&& d.name@ == tspec.dependencies@[j].0@
                        &&& d.ver@ == "VER"@
                        &&& Some(d.spec) == spec_get(
                            config.dependencies@,
                            tspec.dependencies@[j].0@,
                        )
                    },
                forall|j: int|
                    0 <= j < i ==> spec_get(
                        config.device_types@,
                        (#[trigger] dependencies@[j]).spec.build_on@,
                    ) is Some,
            decreases n - i,
        {
            if !config.device_types.contains_key(dependencies[i].spec.build_on.as_str()) {
                proof {
                    crate::catalog::lemma_spec_get_has_key(
                        config.device_types@,
                        dependencies@[i as int].spec.build_on@,
                    );
                    assert forall|i2: int| 0 <= i2 < tspec.dependencies@.len() implies spec_get(
                        config.dependencies@,
                        (#[trigger] tspec.dependencies@[i2]).0@,
                    ) is Some by {
                        assert(dependencies@[i2].name@ == tspec.dependencies@[i2].0@);
                    }
                }
                let msg = "Dependency is trying to run on a device_type that doesn't exist";
                let source = "Config creation";
                return Err(
                    ValidateError {
                        msg: msg.to_owned(),
                        source: source.to_owned(),
                        terminated: self.fail_with(msg, source, map, now),
                    },
                );
            }
            proof {
                crate::catalog::lemma_spec_get_has_key(
                    config.device_types@,
                    dependencies@[i as int].spec.build_on@,
                );
            }
            i = i + 1;
        }
        proof {
            assert forall|i2: int| 0 <= i2 < tspec.dependencies@.len() implies {
                let dep_name = (#[trigger] tspec.dependencies@[i2]).0@;
                &&& spec_get(config.dependencies@, dep_name) is Some
                &&& spec_get(
                    config.device_types@,
                    spec_get(config.dependencies@, dep_name)->Some_0.build_on@,
                ) is Some
            } by {
                assert(dependencies@[i2].name@ == tspec.dependencies@[i2].0@);
            }
            assert(validation_ok(config, gid, tid));
        }
        let mut record = self;
        record.dependencies = Some(dependencies);
        record.config = Some(config);
        Ok(record.clone_into(map, now))
    }
}

} // verus!
