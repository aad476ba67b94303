//! The process-wide registry of in-flight tests, kept for observability:
//! one entry per running test, created when the test is queued, updated on
//! every stage transition, and removed exactly once on termination.

use vstd::prelude::*;

use crate::config::tests::TestSpecificationID;
use crate::text::str_eq;

verus! {

/// One registry row: test specification id, version, current stage name,
/// and the time the stage was entered.
#[derive(Debug)]
pub struct RunningTestMapEntry {
    pub id: TestSpecificationID,
    pub ver: String,
    pub stage: String,
    pub entry_time: u64,
}

impl RunningTestMapEntry {
    /// A field-for-field copy.
    pub fn duplicate(&self) -> (r: Self)
        ensures
            r == *self,
    {
        RunningTestMapEntry {
            id: (self.id.0.clone(), self.id.1.clone()),
            ver: self.ver.clone(),
            stage: self.stage.clone(),
            entry_time: self.entry_time,
        }
    }
}

/// Whether a registry row belongs to the test identified by group `g` and
/// test name `t`.
pub open spec fn entry_matches(e: RunningTestMapEntry, g: Seq<char>, t: Seq<char>) -> bool {
    e.id.0@ == g && e.id.1@ == t
}

/// Whether some registry row belongs to (g, t).
pub open spec fn spec_contains_id(s: Seq<RunningTestMapEntry>, g: Seq<char>, t: Seq<char>) -> bool {
    exists|i: int| 0 <= i < s.len() && entry_matches(s[i], g, t)
}

/// No two registry rows belong to the same test.
pub open spec fn ids_unique(s: Seq<RunningTestMapEntry>) -> bool {
    forall|i: int, j: int|
        #![trigger s[i], s[j]]
        0 <= i < j < s.len() ==> !(s[i].id.0@ == s[j].id.0@ && s[i].id.1@ == s[j].id.1@)
}

/// The registry with every row of (g, t) dropped, order kept.
pub open spec fn spec_drop_id(s: Seq<RunningTestMapEntry>, g: Seq<char>, t: Seq<char>) -> Seq<
    RunningTestMapEntry,
>
    decreases s.len(),
{
    if s.len() == 0 {
        Seq::empty()
    } else {
        spec_drop_id(s.drop_last(), g, t) + if entry_matches(s.last(), g, t) {
            Seq::empty()
        } else {
            seq![s.last()]
        }
    }
}

/// Terminal registry cleanup: when the rows are unique per test and a row
/// for (g, t) exists, dropping (g, t) removes exactly one row and leaves no
/// row for that test behind.
pub proof fn lemma_drop_id_exact(s: Seq<RunningTestMapEntry>, g: Seq<char>, t: Seq<char>)
    requires
        ids_unique(s),
    ensures
        spec_contains_id(s, g, t) ==> spec_drop_id(s, g, t).len() == s.len() - 1,
        !spec_contains_id(s, g, t) ==> spec_drop_id(s, g, t) == s,
        forall|i: int|
            0 <= i < spec_drop_id(s, g, t).len() ==> !entry_matches(
                #[trigger] spec_drop_id(s, g, t)[i],
                g,
                t,
            ),
    decreases s.len(),
{
    if s.len() > 0 {
        let pre = s.drop_last();
        assert forall|i: int, j: int|
            #![trigger pre[i], pre[j]]
            0 <= i < j < pre.len() implies !(pre[i].id.0@ == pre[j].id.0@ && pre[i].id.1@
            == pre[j].id.1@) by {
            assert(pre[i] == s[i] && pre[j] == s[j]);
        }
        lemma_drop_id_exact(pre, g, t);
        if entry_matches(s.last(), g, t) {
            assert(spec_contains_id(s, g, t)) by {
                assert(entry_matches(s[s.len() - 1], g, t));
            }
            assert(!spec_contains_id(pre, g, t)) by {
                if spec_contains_id(pre, g, t) {
                    let i = choose|i: int| 0 <= i < pre.len() && entry_matches(pre[i], g, t);
                    assert(s[i] == pre[i]);
                    assert(s[i].id.0@ == s[s.len() - 1].id.0@ && s[i].id.1@ == s[s.len()
                        - 1].id.1@);
                }
            }
            assert(spec_drop_id(s, g, t) =~= pre);
        } else {
            assert(spec_drop_id(s, g, t) =~= spec_drop_id(pre, g, t).push(s.last()));
            if spec_contains_id(s, g, t) {
                assert(spec_contains_id(pre, g, t)) by {
                    let i = choose|i: int| 0 <= i < s.len() && entry_matches(s[i], g, t);
                    assert(i < s.len() - 1);
                    assert(entry_matches(pre[i], g, t));
                }
            }
            if spec_contains_id(pre, g, t) {
                let i = choose|i: int| 0 <= i < pre.len() && entry_matches(pre[i], g, t);
                assert(entry_matches(s[i], g, t));
            }
            assert forall|i: int|
                0 <= i < spec_drop_id(s, g, t).len() implies !entry_matches(
                #[trigger] spec_drop_id(s, g, t)[i],
                g,
                t,
            ) by {
                if i < spec_drop_id(pre, g, t).len() {
                    assert(spec_drop_id(s, g, t)[i] == spec_drop_id(pre, g, t)[i]);
                } else {
                    assert(spec_drop_id(s, g, t)[i] == s.last());
                }
            }
        }
    }
}

/// The registry of in-flight tests.
#[derive(Debug)]
pub struct RunningTestMap {
    pub map: Vec<RunningTestMapEntry>,
}

impl Default for RunningTestMap {
    /// An empty registry.
    fn default() -> (r: Self)
        ensures
            r.map@.len() == 0,
            ids_unique(r.map@),
    {
        RunningTestMap { map: Vec::new() }
    }
}

impl RunningTestMap {
    /// Whether the registry holds a row for the given test.
    pub fn contains_id(&self, id: &TestSpecificationID) -> (r: bool)
        ensures
            r == spec_contains_id(self.map@, id.0@, id.1@),
    {
        let mut i: usize = 0;
        while i < self.map.len()
            invariant
                i <= self.map@.len(),
                forall|j: int| 0 <= j < i ==> !entry_matches(self.map@[j], id.0@, id.1@),
            decreases self.map@.len() - i,
        {
            if str_eq(self.map[i].id.0.as_str(), id.0.as_str()) && str_eq(
                self.map[i].id.1.as_str(),
                id.1.as_str(),
            ) {
                return true;
            }
            i = i + 1;
        }
        false
    }

    /// Append a row for a newly queued test.
    pub fn register(&mut self, id: &TestSpecificationID, ver: &str, stage: &str, now: u64)
        ensures
            final(self).map@.len() == old(self).map@.len() + 1,
            final(self).map@.drop_last() == old(self).map@,
            entry_matches(final(self).map@.last(), id.0@, id.1@),
            final(self).map@.last().ver@ == ver@,
            final(self).map@.last().stage@ == stage@,
            final(self).map@.last().entry_time == now,
            ids_unique(old(self).map@) && !spec_contains_id(old(self).map@, id.0@, id.1@)
                ==> ids_unique(final(self).map@),
    {
        let ghost pre = self.map@;
        self.map.push(
            RunningTestMapEntry {
                id: (id.0.clone(), id.1.clone()),
                ver: ver.to_owned(),
                stage: stage.to_owned(),
                entry_time: now,
            },
        );
        proof {
            assert(self.map@.drop_last() =~= pre);
            if ids_unique(pre) && !spec_contains_id(pre, id.0@, id.1@) {
                assert forall|a: int, b: int|
                    #![trigger self.map@[a], self.map@[b]]
                    0 <= a < b < self.map@.len() implies !(self.map@[a].id.0@ == self.map@[b].id.0@
                    && self.map@[a].id.1@ == self.map@[b].id.1@) by {
                    if b < self.map@.len() - 1 {
                        assert(self.map@[a] == pre[a] && self.map@[b] == pre[b]);
                    } else {
                        assert(self.map@[a] == pre[a]);
                        if self.map@[a].id.0@ == id.0@ && self.map@[a].id.1@ == id.1@ {
                            assert(entry_matches(pre[a], id.0@, id.1@));
                        }
                    }
                }
            }
        }
    }

    /// Move the row of an in-flight test to a new stage name, stamping the
    /// entry time; the first matching row is updated, everything else is
    /// untouched.
    pub fn update_stage(&mut self, id: &TestSpecificationID, stage: &str, now: u64)
        requires
            spec_contains_id(old(self).map@, id.0@, id.1@),
        ensures
            final(self).map@.len() == old(self).map@.len(),
            forall|j: int|
                0 <= j < old(self).map@.len() ==> final(self).map@[j].id == old(self).map@[j].id && final(self).map@[j].ver == old(self).map@[j].ver,
            exists|k: int|
                0 <= k < old(self).map@.len() && entry_matches(old(self).map@[k], id.0@, id.1@)
                    && final(self).map@[k].stage@ == stage@ && final(self).map@[k].entry_time
                    == now && (forall|j: int|
                    0 <= j < old(self).map@.len() && j != k ==> final(self).map@[j] == old(self).map@[j]),
            ids_unique(old(self).map@) ==> ids_unique(final(self).map@),
            spec_contains_id(final(self).map@, id.0@, id.1@),
    {
        let ghost pre = self.map@;
        let mut i: usize = 0;
        while i < self.map.len()
            invariant
                self.map@ == pre,
                pre == old(self).map@,
                spec_contains_id(pre, id.0@, id.1@),
                i <= self.map@.len(),
                forall|j: int| 0 <= j < i ==> !entry_matches(self.map@[j], id.0@, id.1@),
            decreases self.map@.len() - i,
        {
            if str_eq(self.map[i].id.0.as_str(), id.0.as_str()) && str_eq(
                self.map[i].id.1.as_str(),
                id.1.as_str(),
            ) {
                let e = self.map.remove(i);
                let updated = RunningTestMapEntry {
                    id: e.id,
                    ver: e.ver,
                    stage: stage.to_owned(),
                    entry_time: now,
                };
                self.map.insert(i, updated);
                proof {
                    pre.remove_ensures(i as int);
                    pre.remove(i as int).insert_ensures(i as int, updated);
                    let post = self.map@;
                    assert(post.len() == pre.len());
                    assert forall|j: int| 0 <= j < pre.len() && j != i implies post[j]
                        == pre[j] by {
                        if j < i {
                            assert(post[j] == pre.remove(i as int)[j]);
                        } else {
                            assert(post[j] == pre.remove(i as int)[j - 1]);
                            assert(pre.remove(i as int)[j - 1] == pre[j]);
                        }
                    }
                    assert(post[i as int] == updated);
                    assert(entry_matches(post[i as int], id.0@, id.1@));
                    if ids_unique(pre) {
                        assert forall|a: int, b: int|
                            #![trigger post[a], post[b]]
                            0 <= a < b < post.len() implies !(post[a].id.0@ == post[b].id.0@
                            && post[a].id.1@ == post[b].id.1@) by {
                            assert(post[a].id == pre[a].id && post[b].id == pre[b].id);
                        }
                    }
                }
                return ;
            }
            i = i + 1;
        }
        proof {
            let k = choose|k: int| 0 <= k < pre.len() && entry_matches(pre[k], id.0@, id.1@);
            assert(false);
        }
    }

    /// Remove every row of a terminated test; under the uniqueness the
    /// registry maintains, exactly one row goes away and none remains.
    pub fn remove_test(&mut self, id: &TestSpecificationID)
        ensures
            final(self).map@ == spec_drop_id(old(self).map@, id.0@, id.1@),
            ids_unique(old(self).map@) && spec_contains_id(old(self).map@, id.0@, id.1@)
                ==> final(self).map@.len() == old(self).map@.len() - 1,
            ids_unique(old(self).map@) ==> !spec_contains_id(final(self).map@, id.0@, id.1@),
    {
        let ghost pre = self.map@;
        let n = self.map.len();
        let mut kept: Vec<RunningTestMapEntry> = Vec::new();
        let mut i: usize = 0;
        while i < n
            invariant
                self.map@ == pre,
                n == pre.len(),
                i <= n,
                kept@ == spec_drop_id(pre.take(i as int), id.0@, id.1@),
            decreases n - i,
        {
            proof {
                assert(pre.take(i as int + 1).drop_last() =~= pre.take(i as int));
                assert(pre.take(i as int + 1).last() == pre[i as int]);
            }
            let matched = str_eq(self.map[i].id.0.as_str(), id.0.as_str()) && str_eq(
                self.map[i].id.1.as_str(),
                id.1.as_str(),
            );
            if !matched {
                kept.push(self.map[i].duplicate());
            }
            i = i + 1;
        }
        self.map = kept;
        proof {
            assert(pre.take(pre.len() as int) =~= pre);
            if ids_unique(pre) {
                lemma_drop_id_exact(pre, id.0@, id.1@);
            }
        }
    }
}

} // verus!
