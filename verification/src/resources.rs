//! The per-test resource collection: a transient, borrowed view over the
//! device and apparatus catalogs through which one acquisition attempt
//! claims resources before promoting them into the ledger.

use vstd::prelude::*;

use crate::catalog::spec_get;
use crate::catalog::spec_has_key;
use crate::config::apparatuses::Apparatus;
use crate::config::apparatuses::ApparatusMap;
use crate::config::devices::Device;
use crate::config::devices::DeviceMap;
use crate::config::Config;
use crate::text::seq_has_str;
use crate::text::seq_strs_unique;
use crate::text::str_eq;
use crate::text::vec_has_str;
use crate::text::vec_remove_str;

verus! {

/// The error cases of recording a provisional claim.
#[derive(Debug, Clone, Copy, PartialEq, Eq, Structural)]
pub enum ResourceError {
    /// The named device is not in the catalog.
    UnknownDevice,
    /// This collection already claims the named device.
    DeviceAlreadyOwned,
    /// The named apparatus is not in the catalog.
    UnknownApparatus,
    /// This collection already claims the named apparatus, which is
    /// exclusively locked.
    ApparatusAlreadyOwned,
}

/// Whether the device at catalog position `i` has the requested type, is
/// connected to the required apparatus, and is claimed by the collection.
pub open spec fn device_suitable(
    devs: Seq<(String, Device)>,
    owned: Seq<String>,
    device_type: Seq<char>,
    required_apparatus: Seq<char>,
    i: int,
) -> bool {
    &&& devs[i].1.device_type@ == device_type
    &&& seq_has_str(devs[i].1.connected_apparatuses@, required_apparatus)
    &&& seq_has_str(owned, devs[i].0@)
}

/// A per-acquisition set of provisional claims over the shared catalogs.
pub struct ResourceCollection<'a> {
    all_devices: &'a DeviceMap,
    all_apparatuses: &'a ApparatusMap,
    owned_devices: Vec<String>,
    owned_apparatuses: Vec<String>,
}

impl<'a> ResourceCollection<'a> {
    /// The device catalog this collection draws from.
    pub closed spec fn devices_view(self) -> Seq<(String, Device)> {
        self.all_devices@
    }

    /// The apparatus catalog this collection draws from.
    pub closed spec fn apparatuses_view(self) -> Seq<(String, Apparatus)> {
        self.all_apparatuses@
    }

    /// The names of the devices currently claimed.
    pub closed spec fn owned_devices_view(self) -> Seq<String> {
        self.owned_devices@
    }

    /// The names of the apparatuses currently claimed.
    pub closed spec fn owned_apparatuses_view(self) -> Seq<String> {
        self.owned_apparatuses@
    }

    /// Claims never list one name twice.
    pub open spec fn wf(self) -> bool {
        seq_strs_unique(self.owned_devices_view()) && seq_strs_unique(
            self.owned_apparatuses_view(),
        )
    }

    /// A fresh collection over the catalogs of `config`, claiming nothing.
    pub fn new(config: &'a Config) -> (r: ResourceCollection<'a>)
        ensures
            r.devices_view() == config.devices@,
            r.apparatuses_view() == config.apparatuses@,
            r.owned_devices_view().len() == 0,
            r.owned_apparatuses_view().len() == 0,
            r.wf(),
    {
        ResourceCollection {
            all_devices: &config.devices,
            all_apparatuses: &config.apparatuses,
            owned_devices: Vec::new(),
            owned_apparatuses: Vec::new(),
        }
    }

    /// Whether this collection currently claims the named device.
    pub fn owns_device(&self, device: &str) -> (r: bool)
        ensures
            r == seq_has_str(self.owned_devices_view(), device@),
    {
        vec_has_str(&self.owned_devices, device)
    }

    /// Whether this collection currently claims the named apparatus.
    pub fn owns_apparatus(&self, apparatus: &str) -> (r: bool)
        ensures
            r == seq_has_str(self.owned_apparatuses_view(), apparatus@),
    {
        vec_has_str(&self.owned_apparatuses, apparatus)
    }

    /// Record a provisional claim on a device.  Fails when the device is not
    /// in the catalog or is already claimed by this collection.
    pub fn insert_device(&mut self, device: &str) -> (r: Result<(), ResourceError>)
        requires
            old(self).wf(),
        ensures
            final(self).wf(),
            final(self).devices_view() == old(self).devices_view(),
            final(self).apparatuses_view() == old(self).apparatuses_view(),
            final(self).owned_apparatuses_view() == old(self).owned_apparatuses_view(),
            r is Ok <==> spec_has_key(old(self).devices_view(), device@) && !seq_has_str(
                old(self).owned_devices_view(),
                device@,
            ),
            r is Ok ==> final(self).owned_devices_view().len() == old(self).owned_devices_view().len() + 1 && final(self).owned_devices_view().drop_last()
                == old(self).owned_devices_view() && final(self).owned_devices_view().last()@
                == device@,
            r is Err ==> final(self).owned_devices_view() == old(self).owned_devices_view(),
            !spec_has_key(old(self).devices_view(), device@) ==> r == Err::<(), ResourceError>(
                ResourceError::UnknownDevice,
            ),
            spec_has_key(old(self).devices_view(), device@) && seq_has_str(
                old(self).owned_devices_view(),
                device@,
            ) ==> r == Err::<(), ResourceError>(ResourceError::DeviceAlreadyOwned),
    {
        if !self.all_devices.contains_key(device) {
            return Err(ResourceError::UnknownDevice);
        }
        if vec_has_str(&self.owned_devices, device) {
            return Err(ResourceError::DeviceAlreadyOwned);
        }
        let ghost pre = self.owned_devices@;
        self.owned_devices.push(device.to_owned());
        proof {
            assert(self.owned_devices@.drop_last() =~= pre);
            assert forall|a: int, b: int|
                0 <= a < b < self.owned_devices@.len() implies self.owned_devices@[a]@
                != self.owned_devices@[b]@ by {
                if b < self.owned_devices@.len() - 1 {
                    assert(pre[a]@ != pre[b]@);
                } else {
                    assert(self.owned_devices@[a] == pre[a]);
                }
            }
        }
        Ok(())
    }

    /// Record a provisional claim on an apparatus.  Fails when the apparatus
    /// is not in the catalog, or is already claimed and its configuration
    /// marks it exclusively locked; claiming a non-exclusive apparatus again
    /// is a no-op.
    pub fn insert_apparatus(&mut self, apparatus: &str) -> (r: Result<(), ResourceError>)
        requires
            old(self).wf(),
        ensures
            final(self).wf(),
            final(self).devices_view() == old(self).devices_view(),
            final(self).apparatuses_view() == old(self).apparatuses_view(),
            final(self).owned_devices_view() == old(self).owned_devices_view(),
            r is Ok <==> spec_has_key(old(self).apparatuses_view(), apparatus@) && !(seq_has_str(
                old(self).owned_apparatuses_view(),
                apparatus@,
            ) && spec_get(old(self).apparatuses_view(), apparatus@)->Some_0.is_exclusively_locked),
            r is Ok ==> forall|n: Seq<char>|
                seq_has_str(final(self).owned_apparatuses_view(), n) == (seq_has_str(
                    old(self).owned_apparatuses_view(),
                    n,
                ) || n == apparatus@),
            r is Err ==> final(self).owned_apparatuses_view() == old(self).owned_apparatuses_view(),
            !spec_has_key(old(self).apparatuses_view(), apparatus@) ==> r == Err::<
                (),
                ResourceError,
            >(ResourceError::UnknownApparatus),
            spec_has_key(old(self).apparatuses_view(), apparatus@) && seq_has_str(
                old(self).owned_apparatuses_view(),
                apparatus@,
            ) && spec_get(old(self).apparatuses_view(), apparatus@)->Some_0.is_exclusively_locked
                ==> r == Err::<(), ResourceError>(ResourceError::ApparatusAlreadyOwned),
    {
        let meta = match self.all_apparatuses.get(apparatus) {
            None => {
                proof {
                    crate::catalog::lemma_spec_get_has_key(self.apparatuses_view(), apparatus@);
                }
                return Err(ResourceError::UnknownApparatus);
            },
            Some(meta) => meta,
        };
        proof {
            crate::catalog::lemma_spec_get_has_key(self.apparatuses_view(), apparatus@);
        }
        let already = vec_has_str(&self.owned_apparatuses, apparatus);
        if already && meta.is_exclusively_locked {
            return Err(ResourceError::ApparatusAlreadyOwned);
        }
        if !already {
            let ghost pre = self.owned_apparatuses@;
            self.owned_apparatuses.push(apparatus.to_owned());
            proof {
                assert(self.owned_apparatuses@.drop_last() =~= pre);
                assert forall|a: int, b: int|
                    0 <= a < b < self.owned_apparatuses@.len() implies self.owned_apparatuses@[a]@
                    != self.owned_apparatuses@[b]@ by {
                    if b < self.owned_apparatuses@.len() - 1 {
                        assert(pre[a]@ != pre[b]@);
                    } else {
                        assert(self.owned_apparatuses@[a] == pre[a]);
                    }
                }
                assert forall|n: Seq<char>|
                    seq_has_str(self.owned_apparatuses@, n) == (seq_has_str(pre, n) || n
                        == apparatus@) by {
                    if seq_has_str(self.owned_apparatuses@, n) {
                        let i = choose|i: int|
                            0 <= i < self.owned_apparatuses@.len() && self.owned_apparatuses@[i]@
                                == n;
                        if i < pre.len() {
                            assert(pre[i]@ == n);
                        }
                    }
                    if seq_has_str(pre, n) {
                        let i = choose|i: int| 0 <= i < pre.len() && pre[i]@ == n;
                        assert(self.owned_apparatuses@[i]@ == n);
                    }
                    if n == apparatus@ {
                        assert(self.owned_apparatuses@.last()@ == n);
                    }
                }
            }
        }
        Ok(())
    }

    /// Search the claimed devices for one of the requested type with the
    /// required apparatus connected; on a match, relinquish that device from
    /// this collection and hand its name to the caller.  `None` means no
    /// claimed device fits, which the caller treats as "retry later".
    pub fn take_device(&mut self, device_type: &str, required_apparatus: &str) -> (r: Option<
        String,
    >)
        requires
            old(self).wf(),
        ensures
            final(self).wf(),
            final(self).devices_view() == old(self).devices_view(),
            final(self).apparatuses_view() == old(self).apparatuses_view(),
            final(self).owned_apparatuses_view() == old(self).owned_apparatuses_view(),
            r is Some <==> exists|i: int|
                0 <= i < old(self).devices_view().len() && device_suitable(
                    old(self).devices_view(),
                    old(self).owned_devices_view(),
                    device_type@,
                    required_apparatus@,
                    i,
                ),
            r is Some ==> (exists|i: int|
                0 <= i < old(self).devices_view().len() && device_suitable(
                    old(self).devices_view(),
                    old(self).owned_devices_view(),
                    device_type@,
                    required_apparatus@,
                    i,
                ) && old(self).devices_view()[i].0@ == r->Some_0@) && !seq_has_str(
                final(self).owned_devices_view(),
                r->Some_0@,
            ) && (forall|n: Seq<char>|
                n != r->Some_0@ ==> seq_has_str(final(self).owned_devices_view(), n) == seq_has_str(
                    old(self).owned_devices_view(),
                    n,
                )),
            r is None ==> final(self).owned_devices_view() == old(self).owned_devices_view(),
    {
        let n = self.all_devices.len();
        let mut i: usize = 0;
        while i < n
            invariant
                old(self).wf(),
                *self == *old(self),
                n == self.all_devices@.len(),
                i <= n,
                forall|j: int|
                    0 <= j < i ==> !device_suitable(
                        self.devices_view(),
                        self.owned_devices_view(),
                        device_type@,
                        required_apparatus@,
                        j,
                    ),
            decreases n - i,
        {
            let entry = self.all_devices.entry_at(i);
            let type_matches = str_eq(entry.1.device_type.as_str(), device_type);
            let connected = vec_has_str(&entry.1.connected_apparatuses, required_apparatus);
            let owned = vec_has_str(&self.owned_devices, entry.0.as_str());
            if type_matches && connected && owned {
                let name = entry.0.clone();
                proof {
                    assert(*entry == self.devices_view()[i as int]);
                    assert(device_suitable(
                        old(self).devices_view(),
                        old(self).owned_devices_view(),
                        device_type@,
                        required_apparatus@,
                        i as int,
                    ));
                    assert(old(self).devices_view()[i as int].0@ == name@);
                }
                vec_remove_str(&mut self.owned_devices, name.as_str());
                return Some(name);
            }
            i = i + 1;
        }
        None
    }

    /// Relinquish the required apparatus if this collection claims it: an
    /// exclusively-locked apparatus is given up entirely, a shared one stays
    /// claimed.  `None` when the apparatus is unclaimed or unknown.
    pub fn take_apparatus(&mut self, required_apparatus: &str) -> (r: Option<String>)
        requires
            old(self).wf(),
        ensures
            final(self).wf(),
            final(self).devices_view() == old(self).devices_view(),
            final(self).apparatuses_view() == old(self).apparatuses_view(),
            final(self).owned_devices_view() == old(self).owned_devices_view(),
            r is Some <==> spec_has_key(old(self).apparatuses_view(), required_apparatus@)
                && seq_has_str(old(self).owned_apparatuses_view(), required_apparatus@),
            r is Some ==> r->Some_0@ == required_apparatus@,
            r is Some && spec_get(
                old(self).apparatuses_view(),
                required_apparatus@,
            )->Some_0.is_exclusively_locked ==> !seq_has_str(
                final(self).owned_apparatuses_view(),
                required_apparatus@,
            ) && (forall|n: Seq<char>|
                n != required_apparatus@ ==> seq_has_str(final(self).owned_apparatuses_view(), n)
                    == seq_has_str(old(self).owned_apparatuses_view(), n)),
            r is Some && !spec_get(
                old(self).apparatuses_view(),
                required_apparatus@,
            )->Some_0.is_exclusively_locked ==> final(self).owned_apparatuses_view() == old(self).owned_apparatuses_view(),
            r is None ==> final(self).owned_apparatuses_view() == old(self).owned_apparatuses_view(),
    {
        let meta = match self.all_apparatuses.get(required_apparatus) {
            None => {
                proof {
                    crate::catalog::lemma_spec_get_has_key(
                        self.apparatuses_view(),
                        required_apparatus@,
                    );
                }
                return None;
            },
            Some(meta) => meta,
        };
        proof {
            crate::catalog::lemma_spec_get_has_key(self.apparatuses_view(), required_apparatus@);
        }
        if !vec_has_str(&self.owned_apparatuses, required_apparatus) {
            return None;
        }
        if meta.is_exclusively_locked {
            vec_remove_str(&mut self.owned_apparatuses, required_apparatus);
        }
        Some(required_apparatus.to_owned())
    }
}

} // verus!
