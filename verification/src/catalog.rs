//! A small name-keyed map over a vector of entries, used for the
//! configuration catalogs (apparatuses, devices, device types, dependency
//! specifications, test groups).  Lookup is by first matching name; the
//! well-formed maps produced by the configuration layer have unique keys.

use vstd::prelude::*;

use crate::text::str_eq;

verus! {

/// First value recorded under `name`, if any.
pub open spec fn spec_get<T>(s: Seq<(String, T)>, name: Seq<char>) -> Option<T>
    decreases s.len(),
{
    if s.len() == 0 {
        None
    } else if s[0].0@ == name {
        Some(s[0].1)
    } else {
        spec_get(s.drop_first(), name)
    }
}

/// Whether some entry is recorded under `name`.
pub open spec fn spec_has_key<T>(s: Seq<(String, T)>, name: Seq<char>) -> bool {
    exists|i: int| 0 <= i < s.len() && s[i].0@ == name
}

/// All keys are pairwise distinct.
pub open spec fn keys_unique<T>(s: Seq<(String, T)>) -> bool {
    forall|i: int, j: int| #![trigger s[i], s[j]] 0 <= i < j < s.len() ==> s[i].0@ != s[j].0@
}

/// Lookup finds the first matching entry.
pub proof fn lemma_spec_get_first<T>(s: Seq<(String, T)>, k: int, name: Seq<char>)
    requires
        0 <= k < s.len(),
        s[k].0@ == name,
        forall|j: int| 0 <= j < k ==> s[j].0@ != name,
    ensures
        spec_get(s, name) == Some(s[k].1),
    decreases k,
{
    if k > 0 {
        assert(s.drop_first()[k - 1] == s[k]);
        assert forall|j: int| 0 <= j < k - 1 implies s.drop_first()[j].0@ != name by {
            assert(s.drop_first()[j] == s[j + 1]);
        }
        lemma_spec_get_first(s.drop_first(), k - 1, name);
    }
}

/// Lookup fails exactly on the names no entry is recorded under.
pub proof fn lemma_spec_get_none<T>(s: Seq<(String, T)>, name: Seq<char>)
    requires
        forall|i: int| 0 <= i < s.len() ==> s[i].0@ != name,
    ensures
        spec_get(s, name) is None,
    decreases s.len(),
{
    if s.len() > 0 {
        assert forall|i: int| 0 <= i < s.drop_first().len() implies s.drop_first()[i].0@
            != name by {
            assert(s.drop_first()[i] == s[i + 1]);
        }
        lemma_spec_get_none(s.drop_first(), name);
    }
}

/// A successful lookup coincides with the key being present.
pub proof fn lemma_spec_get_has_key<T>(s: Seq<(String, T)>, name: Seq<char>)
    ensures
        (spec_get(s, name) is Some) <==> spec_has_key(s, name),
    decreases s.len(),
{
    if s.len() > 0 {
        lemma_spec_get_has_key(s.drop_first(), name);
        if s[0].0@ == name {
        } else {
            if spec_has_key(s, name) {
                let i = choose|i: int| 0 <= i < s.len() && s[i].0@ == name;
                assert(s.drop_first()[i - 1] == s[i]);
                assert(spec_has_key(s.drop_first(), name));
            }
            if spec_has_key(s.drop_first(), name) {
                let i = choose|i: int|
                    0 <= i < s.drop_first().len() && s.drop_first()[i].0@ == name;
                assert(s[i + 1].0@ == name);
            }
        }
    }
}

/// Removing an entry with a different key does not change a lookup.
pub proof fn lemma_spec_get_remove<T>(s: Seq<(String, T)>, k: int, name: Seq<char>)
    requires
        0 <= k < s.len(),
        s[k].0@ != name,
    ensures
        spec_get(s.remove(k), name) == spec_get(s, name),
    decreases s.len(),
{
    s.remove_ensures(k);
    if k == 0 {
        assert(s.remove(0) =~= s.drop_first());
    } else {
        assert(s.remove(k)[0] == s[0]);
        if s[0].0@ == name {
        } else {
            assert(s.drop_first().remove(k - 1) =~= s.remove(k).drop_first()) by {
                s.drop_first().remove_ensures(k - 1);
                s.remove(k).drop_first();
            }
            lemma_spec_get_remove(s.drop_first(), k - 1, name);
        }
    }
}

/// How appending one entry changes lookups: an existing binding keeps
/// shadowing, a fresh key becomes visible.
pub proof fn lemma_spec_get_push<T>(s: Seq<(String, T)>, p: (String, T), name: Seq<char>)
    ensures
        spec_get(s.push(p), name) == (if spec_get(s, name) is Some {
            spec_get(s, name)
        } else if p.0@ == name {
            Some(p.1)
        } else {
            None
        }),
    decreases s.len(),
{
    if s.len() == 0 {
        assert(s.push(p)[0] == p);
        assert(s.push(p).len() == 1);
        assert(s.push(p).drop_first() =~= Seq::<(String, T)>::empty());
        assert(spec_get(Seq::<(String, T)>::empty(), name) is None);
        if p.0@ == name {
            assert(spec_get(s.push(p), name) == Some(p.1));
        } else {
            assert(spec_get(s.push(p), name) == spec_get(s.push(p).drop_first(), name));
        }
    } else {
        assert(s.push(p)[0] == s[0]);
        assert(s.push(p).drop_first() =~= s.drop_first().push(p));
        lemma_spec_get_push(s.drop_first(), p, name);
        if s[0].0@ == name {
            assert(spec_get(s.push(p), name) == Some(s[0].1));
            assert(spec_get(s, name) == Some(s[0].1));
        } else {
            assert(spec_get(s.push(p), name) == spec_get(s.drop_first().push(p), name));
            assert(spec_get(s, name) == spec_get(s.drop_first(), name));
        }
    }
}

/// A vector of (name, value) entries looked up by name.
#[derive(Debug)]
pub struct NamedMap<T> {
    entries: Vec<(String, T)>,
}

impl<T> View for NamedMap<T> {
    type V = Seq<(String, T)>;

    closed spec fn view(&self) -> Seq<(String, T)> {
        self.entries@
    }
}

impl<T> Default for NamedMap<T> {
    /// An empty map.
    fn default() -> (r: Self)
        ensures
            r@.len() == 0,
            keys_unique(r@),
    {
        NamedMap { entries: Vec::new() }
    }
}

impl<T> NamedMap<T> {
    /// An empty map.
    pub fn new() -> (r: Self)
        ensures
            r@.len() == 0,
            keys_unique(r@),
    {
        NamedMap { entries: Vec::new() }
    }

    /// Number of entries.
    pub fn len(&self) -> (n: usize)
        ensures
            n == self@.len(),
    {
        self.entries.len()
    }

    /// The entry at position `i`, in insertion order.
    pub fn entry_at(&self, i: usize) -> (e: &(String, T))
        requires
            i < self@.len(),
        ensures
            *e == self@[i as int],
    {
        &self.entries[i]
    }

    /// Position of the first entry recorded under `name`, if any.
    fn index_of(&self, name: &str) -> (r: Option<usize>)
        ensures
            match r {
                Some(k) => k < self@.len() && self@[k as int].0@ == name@ && forall|j: int|
                    0 <= j < k ==> self@[j].0@ != name@,
                None => !spec_has_key(self@, name@),
            },
    {
        let mut i: usize = 0;
        while i < self.entries.len()
            invariant
                i <= self.entries@.len(),
                forall|j: int| 0 <= j < i ==> self.entries@[j].0@ != name@,
            decreases self.entries@.len() - i,
        {
            if str_eq(self.entries[i].0.as_str(), name) {
                return Some(i);
            }
            i = i + 1;
        }
        None
    }

    /// First value recorded under `name`, if any.
    pub fn get(&self, name: &str) -> (r: Option<&T>)
        ensures
            match r {
                Some(v) => spec_get(self@, name@) == Some(*v),
                None => spec_get(self@, name@) is None,
            },
    {
        match self.index_of(name) {
            Some(k) => {
                proof {
                    lemma_spec_get_first(self@, k as int, name@);
                }
                Some(&self.entries[k].1)
            },
            None => {
                proof {
                    lemma_spec_get_has_key(self@, name@);
                }
                None
            },
        }
    }

    /// Whether an entry is recorded under `name`.
    pub fn contains_key(&self, name: &str) -> (r: bool)
        ensures
            r == spec_has_key(self@, name@),
    {
        match self.index_of(name) {
            Some(_) => true,
            None => false,
        }
    }

    /// Whether all keys are pairwise distinct.
    pub fn check_unique(&self) -> (r: bool)
        ensures
            r == keys_unique(self@),
    {
        let n = self.entries.len();
        let mut i: usize = 0;
        while i < n
            invariant
                n == self@.len(),
                i <= n,
                forall|a: int, b: int|
                    #![trigger self@[a], self@[b]]
                    0 <= a < b < n && a < i ==> self@[a].0@ != self@[b].0@,
            decreases n - i,
        {
            let mut j: usize = i + 1;
            while j < n
                invariant
                    n == self@.len(),
                    i < n,
                    i + 1 <= j <= n,
                    forall|b: int| i < b < j ==> self@[i as int].0@ != self@[b].0@,
                    forall|a: int, b: int|
                        #![trigger self@[a], self@[b]]
                        0 <= a < b < n && a < i ==> self@[a].0@ != self@[b].0@,
                decreases n - j,
            {
                if str_eq(self.entries[i].0.as_str(), self.entries[j].0.as_str()) {
                    return false;
                }
                j = j + 1;
            }
            i = i + 1;
        }
        true
    }

    /// Bind `name` to `value`, replacing an earlier binding of the same name.
    pub fn insert(&mut self, name: &str, value: T)
        requires
            keys_unique(old(self)@),
        ensures
            keys_unique(final(self)@),
            spec_get(final(self)@, name@) == Some(value),
            forall|n: Seq<char>| n != name@ ==> spec_get(final(self)@, n) == spec_get(
                old(self)@,
                n,
            ),
            final(self)@.len() == if spec_has_key(old(self)@, name@) {
                old(self)@.len()
            } else {
                old(self)@.len() + 1
            },
    {
        let ghost pre = self@;
        let found = self.index_of(name);
        if let Some(k) = found {
            self.entries.remove(k);
            proof {
                pre.remove_ensures(k as int);
                let mid = self@;
                assert(mid =~= pre.remove(k as int));
                assert forall|a: int, b: int|
                    #![trigger mid[a], mid[b]]
                    0 <= a < b < mid.len() implies mid[a].0@ != mid[b].0@ by {
                    let fa: int = if a < k { a } else { a + 1 };
                    let fb: int = if b < k { b } else { b + 1 };
                    assert(mid[a] == pre[fa] && mid[b] == pre[fb]);
                }
                assert forall|a: int| 0 <= a < mid.len() implies mid[a].0@ != name@ by {
                    let fa: int = if a < k { a } else { a + 1 };
                    assert(mid[a] == pre[fa]);
                    if fa != k {
                        assert(pre[fa].0@ != pre[k as int].0@);
                    }
                }
                lemma_spec_get_none(mid, name@);
                assert forall|n: Seq<char>| n != name@ implies spec_get(mid, n) == spec_get(
                    pre,
                    n,
                ) by {
                    lemma_spec_get_remove(pre, k as int, n);
                }
            }
        } else {
            proof {
                lemma_spec_get_has_key(self@, name@);
            }
        }
        let ghost mid = self@;
        self.entries.push((name.to_owned(), value));
        proof {
            let post = self@;
            assert(post =~= mid.push((post.last().0, value)));
            assert(post.last().0@ == name@);
            assert forall|n: Seq<char>| true implies spec_get(post, n) == (if spec_get(
                mid,
                n,
            ) is Some {
                spec_get(mid, n)
            } else if n == name@ {
                Some(value)
            } else {
                None
            }) by {
                lemma_spec_get_push(mid, post.last(), n);
            }
            assert(spec_get(post, name@) == Some(value));
            assert forall|a: int, b: int|
                #![trigger post[a], post[b]]
                0 <= a < b < post.len() implies post[a].0@ != post[b].0@ by {
                if b < post.len() - 1 {
                    assert(post[a] == mid[a] && post[b] == mid[b]);
                } else {
                    assert(post[a] == mid[a]);
                    if post[a].0@ == name@ {
                        assert(spec_has_key(mid, name@));
                        lemma_spec_get_has_key(mid, name@);
                    }
                }
            }
            if spec_has_key(pre, name@) {
                lemma_spec_get_has_key(pre, name@);
            }
        }
    }
}

} // verus!
