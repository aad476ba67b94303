//! The resource ledger: the authoritative record of which test currently
//! holds which named resource (device or apparatus), exclusively or shared.
//!
//! The ledger is publish-first: callers may query before acquiring, but the
//! acquire and release operations themselves enforce the exclusivity
//! invariant, so racy check-then-act by callers cannot corrupt it.  The
//! embedding application guards one ledger with one lock and keeps the
//! critical section to a single acquire or release call.

use vstd::prelude::*;

use crate::text::str_eq;
use crate::TestID;

verus! {

/// One recorded holding: test id, resource name, is-exclusive flag.
pub type LedgerSnapshot = Seq<(TestID, String, bool)>;

/// The test ids holding `r`, in acquisition order.
pub open spec fn owners_for(s: LedgerSnapshot, r: Seq<char>) -> Seq<TestID>
    decreases s.len(),
{
    if s.len() == 0 {
        Seq::empty()
    } else {
        owners_for(s.drop_last(), r) + if s.last().1@ == r {
            seq![s.last().0]
        } else {
            Seq::empty()
        }
    }
}

/// How many holders are currently recorded for `r`.
pub open spec fn count_for(s: LedgerSnapshot, r: Seq<char>) -> nat {
    owners_for(s, r).len()
}

/// Whether an exclusive holding of `r` is recorded.
pub open spec fn locked_for(s: LedgerSnapshot, r: Seq<char>) -> bool {
    exists|i: int| 0 <= i < s.len() && s[i].1@ == r && s[i].2
}

/// Whether test `t` currently holds `r`.
pub open spec fn holds(s: LedgerSnapshot, t: TestID, r: Seq<char>) -> bool {
    exists|i: int| 0 <= i < s.len() && s[i].0 == t && s[i].1@ == r
}

/// The conditions under which an acquire call succeeds.
pub open spec fn acquire_ok(s: LedgerSnapshot, t: TestID, r: Seq<char>, exclusive: bool) -> bool {
    &&& !(exclusive && count_for(s, r) != 0)
    &&& !locked_for(s, r)
    &&& !holds(s, t, r)
}

/// Well-formedness of the ledger: a resource with an exclusive holder has no
/// other holder, and a given (test, resource) pair is recorded at most once.
pub open spec fn ledger_wf(s: LedgerSnapshot) -> bool {
    &&& forall|i: int, j: int|
        #![trigger s[i], s[j]]
        0 <= i < s.len() && 0 <= j < s.len() && i != j && s[i].1@ == s[j].1@ ==> !s[i].2
    &&& forall|i: int, j: int|
        #![trigger s[i], s[j]]
        0 <= i < j < s.len() ==> !(s[i].0 == s[j].0 && s[i].1@ == s[j].1@)
}

/// A resource has no recorded holder exactly when no entry names it.
pub proof fn lemma_count_zero(s: LedgerSnapshot, r: Seq<char>)
    ensures
        (count_for(s, r) == 0) <==> (forall|i: int| 0 <= i < s.len() ==> s[i].1@ != r),
    decreases s.len(),
{
    if s.len() > 0 {
        lemma_count_zero(s.drop_last(), r);
        if count_for(s, r) == 0 {
            assert forall|i: int| 0 <= i < s.len() implies s[i].1@ != r by {
                if i < s.len() - 1 {
                    assert(s.drop_last()[i] == s[i]);
                } else {
                    assert(s.last() == s[i]);
                }
            }
        } else {
            if s.last().1@ != r {
                assert(count_for(s.drop_last(), r) != 0);
                let i = choose|i: int|
                    0 <= i < s.drop_last().len() && s.drop_last()[i].1@ == r;
                assert(s[i].1@ == r);
            }
        }
    }
}

/// Membership in the owner list coincides with holding the resource.
pub proof fn lemma_owners_for_holds(s: LedgerSnapshot, t: TestID, r: Seq<char>)
    ensures
        owners_for(s, r).contains(t) <==> holds(s, t, r),
    decreases s.len(),
{
    if s.len() > 0 {
        lemma_owners_for_holds(s.drop_last(), t, r);
        let o = owners_for(s, r);
        let op = owners_for(s.drop_last(), r);
        if o.contains(t) {
            let i = choose|i: int| 0 <= i < o.len() && o[i] == t;
            if i < op.len() {
                assert(op.contains(t));
                let k = choose|k: int|
                    0 <= k < s.drop_last().len() && s.drop_last()[k].0 == t && s.drop_last()[k].1@
                        == r;
                assert(s[k].0 == t && s[k].1@ == r);
            } else {
                assert(s.last().1@ == r && s.last().0 == t);
                assert(s[s.len() - 1].0 == t && s[s.len() - 1].1@ == r);
            }
        }
        if holds(s, t, r) {
            let i = choose|i: int| 0 <= i < s.len() && s[i].0 == t && s[i].1@ == r;
            if i < s.len() - 1 {
                assert(s.drop_last()[i].0 == t && s.drop_last()[i].1@ == r);
                assert(op.contains(t));
                let k = choose|k: int| 0 <= k < op.len() && op[k] == t;
                assert(o[k] == t);
            } else {
                assert(s.last().1@ == r);
                assert(o.last() == t);
            }
        }
    }
}

/// Exclusivity invariant: in a well-formed ledger no two distinct entries on
/// the same resource name exist with either of them marked exclusive; since
/// acquire and release both preserve well-formedness, this holds after every
/// sequence of acquire and release calls on a ledger that started empty.
pub proof fn lemma_exclusivity(s: LedgerSnapshot, r: Seq<char>, i: int, j: int)
    requires
        ledger_wf(s),
        0 <= i < s.len(),
        0 <= j < s.len(),
        i != j,
        s[i].1@ == r,
        s[j].1@ == r,
    ensures
        !s[i].2,
        !s[j].2,
{
}

/// No double acquire: once a test has acquired a resource, a second acquire
/// of the same pair fails until the resource is released, whatever the
/// exclusivity flags of the two calls were.
pub proof fn lemma_no_double_acquire(
    s1: LedgerSnapshot,
    s2: LedgerSnapshot,
    t: TestID,
    r: Seq<char>,
    exclusive1: bool,
    exclusive2: bool,
)
    requires
        acquire_ok(s1, t, r, exclusive1),
        s2.len() == s1.len() + 1,
        s2.drop_last() == s1,
        s2.last().0 == t,
        s2.last().1@ == r,
    ensures
        !acquire_ok(s2, t, r, exclusive2),
{
    assert(s2[s2.len() - 1].0 == t && s2[s2.len() - 1].1@ == r);
    assert(holds(s2, t, r));
}

/// Once an exclusive holding of a resource is recorded, no other acquire of
/// that resource can succeed — shared or exclusive — until it is released:
/// at most one test holds an exclusively locked resource at a time.
pub proof fn lemma_exclusive_blocks_others(
    s1: LedgerSnapshot,
    s2: LedgerSnapshot,
    t2: TestID,
    r: Seq<char>,
    exclusive2: bool,
)
    requires
        s2.len() == s1.len() + 1,
        s2.drop_last() == s1,
        s2.last().1@ == r,
        s2.last().2,
    ensures
        !acquire_ok(s2, t2, r, exclusive2),
{
    assert(s2[s2.len() - 1].1@ == r && s2[s2.len() - 1].2);
    assert(locked_for(s2, r));
}

/// The error cases of the ledger operations.
#[derive(Debug, Clone, Copy, PartialEq, Eq, Structural)]
pub enum LedgerError {
    /// An exclusive acquire was attempted on a resource that already has a holder.
    ExclusiveUnavailable,
    /// An acquire was attempted on a resource that is exclusively held.
    AlreadyExclusivelyLocked,
    /// The requesting test already holds the resource.
    AlreadyHeld,
    /// A release was attempted on a (test, resource) pair that is not held.
    NeverOwned,
}

/// An append/remove log of (test id, resource name, is-exclusive) triples.
#[derive(Debug, Clone)]
pub struct ResourceLedger {
    resources: Vec<(TestID, String, bool)>,
}

impl View for ResourceLedger {
    type V = LedgerSnapshot;

    closed spec fn view(&self) -> LedgerSnapshot {
        self.resources@
    }
}

impl Default for ResourceLedger {
    /// An empty ledger; trivially well-formed.
    fn default() -> (r: Self)
        ensures
            r@.len() == 0,
            ledger_wf(r@),
    {
        ResourceLedger { resources: Vec::new() }
    }
}

impl ResourceLedger {
    /// Number of holders currently recorded for `resource`.
    pub fn allocated_count(&self, resource: &str) -> (count: usize)
        ensures
            count == count_for(self@, resource@),
    {
        let mut count: usize = 0;
        let mut i: usize = 0;
        while i < self.resources.len()
            invariant
                i <= self.resources@.len(),
                count <= i,
                count == count_for(self.resources@.take(i as int), resource@),
            decreases self.resources@.len() - i,
        {
            let matched = str_eq(self.resources[i].1.as_str(), resource);
            proof {
                let s = self.resources@;
                let ii = i as int;
                assert(s.take(ii + 1).drop_last() =~= s.take(ii));
                assert(s.take(ii + 1).last() == s[ii]);
            }
            if matched {
                count = count + 1;
            }
            i = i + 1;
        }
        proof {
            assert(self.resources@.take(self.resources@.len() as int) =~= self.resources@);
        }
        count
    }

    /// True exactly when an exclusive holder of `resource` is recorded.
    pub fn is_exclusively_locked(&self, resource: &str) -> (r: bool)
        ensures
            r == locked_for(self@, resource@),
    {
        let mut i: usize = 0;
        while i < self.resources.len()
            invariant
                i <= self.resources@.len(),
                forall|j: int|
                    0 <= j < i ==> !(self.resources@[j].1@ == resource@ && self.resources@[j].2),
            decreases self.resources@.len() - i,
        {
            if str_eq(self.resources[i].1.as_str(), resource) && self.resources[i].2 {
                return true;
            }
            i = i + 1;
        }
        false
    }

    /// The test ids currently holding `resource`, in acquisition order.
    pub fn get_owners(&self, resource: &str) -> (owners: Vec<TestID>)
        ensures
            owners@ == owners_for(self@, resource@),
    {
        let mut owners: Vec<TestID> = Vec::new();
        let mut i: usize = 0;
        while i < self.resources.len()
            invariant
                i <= self.resources@.len(),
                owners@ == owners_for(self.resources@.take(i as int), resource@),
            decreases self.resources@.len() - i,
        {
            let matched = str_eq(self.resources[i].1.as_str(), resource);
            proof {
                let s = self.resources@;
                let ii = i as int;
                assert(s.take(ii + 1).drop_last() =~= s.take(ii));
                assert(s.take(ii + 1).last() == s[ii]);
            }
            if matched {
                owners.push(self.resources[i].0);
            }
            i = i + 1;
        }
        proof {
            assert(self.resources@.take(self.resources@.len() as int) =~= self.resources@);
        }
        owners
    }

    /// Record that `testid` acquires `resource`.  Fails when an exclusive
    /// acquire meets an existing holder, when the resource is exclusively
    /// held by anyone, or when the requester already holds it; on success the
    /// triple is appended and nothing else changes.
    pub fn acquire_resource(&mut self, testid: TestID, resource: &str, get_exclusive: bool) -> (r:
        Result<(), LedgerError>)
        ensures
            r is Ok <==> acquire_ok(old(self)@, testid, resource@, get_exclusive),
            r is Ok ==> final(self)@.len() == old(self)@.len() + 1 && final(self)@.drop_last()
                == old(self)@ && final(self)@.last().0 == testid && final(self)@.last().1@
                == resource@ && final(self)@.last().2 == get_exclusive,
            r is Err ==> final(self)@ == old(self)@,
            get_exclusive && count_for(old(self)@, resource@) != 0 ==> r == Err::<
                (),
                LedgerError,
            >(LedgerError::ExclusiveUnavailable),
            !(get_exclusive && count_for(old(self)@, resource@) != 0) && locked_for(
                old(self)@,
                resource@,
            ) ==> r == Err::<(), LedgerError>(LedgerError::AlreadyExclusivelyLocked),
            !(get_exclusive && count_for(old(self)@, resource@) != 0) && !locked_for(
                old(self)@,
                resource@,
            ) && holds(old(self)@, testid, resource@) ==> r == Err::<(), LedgerError>(
                LedgerError::AlreadyHeld,
            ),
            ledger_wf(old(self)@) ==> ledger_wf(final(self)@),
    {
        if get_exclusive && self.allocated_count(resource) != 0 {
            return Err(LedgerError::ExclusiveUnavailable);
        }
        if self.is_exclusively_locked(resource) {
            return Err(LedgerError::AlreadyExclusivelyLocked);
        }
        let owners = self.get_owners(resource);
        proof {
            lemma_owners_for_holds(self@, testid, resource@);
        }
        let mut already = false;
        let mut i: usize = 0;
        while i < owners.len()
            invariant
                i <= owners@.len(),
                already == exists|j: int| 0 <= j < i && owners@[j] == testid,
            decreases owners@.len() - i,
        {
            if owners[i] == testid {
                already = true;
            }
            i = i + 1;
        }
        if already {
            return Err(LedgerError::AlreadyHeld);
        }
        assert(!owners_for(old(self)@, resource@).contains(testid));
        let ghost pre = self@;
        self.resources.push((testid, resource.to_owned(), get_exclusive));
        proof {
            let s = self@;
            assert(s.drop_last() =~= pre);
            lemma_count_zero(pre, resource@);
            if ledger_wf(pre) {
                assert forall|a: int, b: int|
                    0 <= a < s.len() && 0 <= b < s.len() && a != b && s[a].1@ == s[b].1@ implies !s[a].2 by {
                    if a < s.len() - 1 && b < s.len() - 1 {
                        assert(pre[a] == s[a] && pre[b] == s[b]);
                    } else if a == s.len() - 1 {
                        assert(pre[b] == s[b]);
                        assert(count_for(pre, resource@) != 0) by {
                            assert(pre[b].1@ == resource@);
                        }
                    } else {
                        assert(pre[a] == s[a]);
                        assert(!locked_for(pre, resource@));
                    }
                }
                assert forall|a: int, b: int|
                    0 <= a < b < s.len() implies !(s[a].0 == s[b].0 && s[a].1@ == s[b].1@) by {
                    if b < s.len() - 1 {
                        assert(pre[a] == s[a] && pre[b] == s[b]);
                    } else {
                        assert(pre[a] == s[a]);
                        assert(!holds(pre, testid, resource@));
                    }
                }
            }
        }
        Ok(())
    }

    /// Remove the recorded holding of `resource` by `testid`.  Fails, leaving
    /// the ledger unchanged, when no such holding exists; on success exactly
    /// the one matching entry is removed, and the remaining entries keep
    /// their acquisition order.
    pub fn release_resource(&mut self, testid: TestID, resource: &str) -> (r: Result<
        (),
        LedgerError,
    >)
        ensures
            r is Ok <==> holds(old(self)@, testid, resource@),
            r is Err ==> final(self)@ == old(self)@ && r == Err::<(), LedgerError>(
                LedgerError::NeverOwned,
            ),
            r is Ok ==> exists|i: int|
                0 <= i < old(self)@.len() && old(self)@[i].0 == testid && old(self)@[i].1@
                    == resource@ && final(self)@ == old(self)@.remove(i),
            ledger_wf(old(self)@) ==> ledger_wf(final(self)@),
    {
        let mut resource_index: Option<usize> = None;
        let mut i: usize = 0;
        while i < self.resources.len()
            invariant
                i <= self.resources@.len(),
                match resource_index {
                    Some(k) => 0 <= k < i && self.resources@[k as int].0 == testid
                        && self.resources@[k as int].1@ == resource@,
                    None => forall|j: int|
                        0 <= j < i ==> !(self.resources@[j].0 == testid && self.resources@[j].1@
                            == resource@),
                },
            decreases self.resources@.len() - i,
        {
            if self.resources[i].0 == testid && str_eq(self.resources[i].1.as_str(), resource) {
                resource_index = Some(i);
            }
            i = i + 1;
        }
        match resource_index {
            None => Err(LedgerError::NeverOwned),
            Some(k) => {
                let ghost pre = self@;
                self.resources.remove(k);
                proof {
                    let s = self@;
                    pre.remove_ensures(k as int);
                    assert(holds(pre, testid, resource@)) by {
                        assert(pre[k as int].0 == testid && pre[k as int].1@ == resource@);
                    }
                    assert(s =~= pre.remove(k as int));
                    if ledger_wf(pre) {
                        assert forall|a: int|
                            0 <= a < s.len() implies s[a] == (if a < k {
                            pre[a]
                        } else {
                            pre[a + 1]
                        }) by {}
                        assert forall|a: int, b: int|
                            0 <= a < s.len() && 0 <= b < s.len() && a != b && s[a].1@ == s[b].1@
                            implies !s[a].2 by {
                            let fa: int = if a < k { a } else { a + 1 };
                            let fb: int = if b < k { b } else { b + 1 };
                            assert(s[a] == pre[fa] && s[b] == pre[fb]);
                            assert(0 <= fa < pre.len() && 0 <= fb < pre.len() && fa != fb);
                            assert(pre[fa].1@ == pre[fb].1@);
                        }
                        assert forall|a: int, b: int|
                            0 <= a < b < s.len() implies !(s[a].0 == s[b].0 && s[a].1@
                            == s[b].1@) by {
                            let fa: int = if a < k { a } else { a + 1 };
                            let fb: int = if b < k { b } else { b + 1 };
                            assert(s[a] == pre[fa] && s[b] == pre[fb]);
                            assert(0 <= fa < fb < pre.len());
                            if s[a].0 == s[b].0 && s[a].1@ == s[b].1@ {
                                assert(!(pre[fa].0 == pre[fb].0 && pre[fa].1@ == pre[fb].1@));
                            }
                        }
                    }
                }
                Ok(())
            },
        }
    }
}

} // verus!
