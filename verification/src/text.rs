//! Small verified helpers over strings and vectors of strings.

use vstd::prelude::*;

verus! {

/// Whether a sequence of strings contains one whose characters are `n`.
pub open spec fn seq_has_str(s: Seq<String>, n: Seq<char>) -> bool {
    exists|i: int| 0 <= i < s.len() && s[i]@ == n
}

/// All strings in the sequence are pairwise distinct (as character sequences).
pub open spec fn seq_strs_unique(s: Seq<String>) -> bool {
    forall|i: int, j: int| 0 <= i < j < s.len() ==> s[i]@ != s[j]@
}

/// Compare two string slices by their character sequences.
pub fn str_eq(a: &str, b: &str) -> (r: bool)
    ensures
        r == (a@ == b@),
{
    let s1: String = a.to_owned();
    let s2: String = b.to_owned();
    s1 == s2
}

/// Whether `v` holds a string equal to `s`.
pub fn vec_has_str(v: &Vec<String>, s: &str) -> (r: bool)
    ensures
        r == seq_has_str(v@, s@),
{
    let mut i: usize = 0;
    while i < v.len()
        invariant
            i <= v@.len(),
            forall|j: int| 0 <= j < i ==> v@[j]@ != s@,
        decreases v@.len() - i,
    {
        if str_eq(v[i].as_str(), s) {
            return true;
        }
        i = i + 1;
    }
    false
}

/// Remove the first string equal to `s`, keeping the order of the rest.
pub fn vec_remove_str(v: &mut Vec<String>, s: &str)
    requires
        seq_has_str(old(v)@, s@),
        seq_strs_unique(old(v)@),
    ensures
        final(v)@.len() == old(v)@.len() - 1,
        seq_strs_unique(final(v)@),
        !seq_has_str(final(v)@, s@),
        forall|n: Seq<char>| n != s@ ==> seq_has_str(final(v)@, n) == seq_has_str(old(v)@, n),
{
    let ghost orig = v@;
    let mut i: usize = 0;
    while i < v.len()
        invariant
            v@ == orig,
            orig == old(v)@,
            i <= v@.len(),
            seq_has_str(v@, s@),
            seq_strs_unique(orig),
            forall|j: int| 0 <= j < i ==> v@[j]@ != s@,
        decreases v@.len() - i,
    {
        if str_eq(v[i].as_str(), s) {
            v.remove(i);
            proof {
                orig.remove_ensures(i as int);
                assert forall|n: Seq<char>| n != s@ implies seq_has_str(v@, n) == seq_has_str(
                    orig,
                    n,
                ) by {
                    if seq_has_str(v@, n) {
                        let k = choose|k: int| 0 <= k < v@.len() && v@[k]@ == n;
                        if k < i {
                            assert(orig[k]@ == n);
                        } else {
                            assert(orig[k + 1]@ == n);
                        }
                    }
                    if seq_has_str(orig, n) {
                        let k = choose|k: int| 0 <= k < orig.len() && orig[k]@ == n;
                        if k < i {
                            assert(v@[k]@ == n);
                        } else {
                            assert(k != i);
                            assert(v@[k - 1]@ == n);
                        }
                    }
                }
                assert forall|j: int, k: int| 0 <= j < k < v@.len() implies v@[j]@ != v@[k]@ by {
                    if k < i {
                        assert(orig[j]@ != orig[k]@);
                    } else if j < i {
                        assert(orig[j]@ != orig[k + 1]@);
                    } else {
                        assert(orig[j + 1]@ != orig[k + 1]@);
                    }
                }
                assert forall|j: int| 0 <= j < v@.len() implies v@[j]@ != s@ by {
                    if j < i {
                        assert(orig[j]@ != s@);
                    } else {
                        assert(orig[j + 1]@ != s@);
                    }
                }
            }
            return ;
        }
        i = i + 1;
    }
    proof {
        let k = choose|k: int| 0 <= k < v@.len() && v@[k]@ == s@;
        assert(false);
    }
}

/// Join two path components with a single separator.
pub fn path_join(base: &str, comp: &str) -> (r: String)
    ensures
        r@ == base@ + "/"@ + comp@,
{
    let s: String = base.to_owned();
    let s = s.concat("/");
    s.concat(comp)
}

/// Concatenate `left`, a joining string, and `right`.
pub fn join_with(left: &str, sep: &str, right: &str) -> (r: String)
    ensures
        r@ == left@ + sep@ + right@,
{
    let s: String = left.to_owned();
    let s = s.concat(sep);
    s.concat(right)
}

} // verus!
