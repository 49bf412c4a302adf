//! Counting the distinct values of a sequence in order of first appearance.

use vstd::prelude::*;
use crate::text::string_views;

verus! {

/// The distinct values of `ks`, in order of first appearance.
pub open spec fn first_appearances<K>(ks: Seq<K>) -> Seq<K>
    decreases ks.len(),
{
    if ks.len() == 0 {
        seq![]
    } else {
        let p = first_appearances(ks.drop_last());
        if p.contains(ks.last()) {
            p
        } else {
            p.push(ks.last())
        }
    }
}

/// How often `k` occurs in `ks`.
pub open spec fn count_in<K>(ks: Seq<K>, k: K) -> nat
    decreases ks.len(),
{
    if ks.len() == 0 {
        0
    } else {
        count_in(ks.drop_last(), k) + if ks.last() == k {
            1nat
        } else {
            0nat
        }
    }
}

/// Each distinct value of `ks`, in order of first appearance, with the
/// number of its occurrences.
pub open spec fn tally<K>(ks: Seq<K>) -> Seq<(K, nat)> {
    first_appearances(ks).map_values(|k: K| (k, count_in(ks, k)))
}

/// The first appearances hold each value of the sequence once, and no other.
proof fn lemma_first_appearances<K>(ks: Seq<K>)
    ensures
        first_appearances(ks).no_duplicates(),
        forall|k: K| first_appearances(ks).contains(k) <==> ks.contains(k),
    decreases ks.len(),
{
    if ks.len() > 0 {
        let init = ks.drop_last();
        lemma_first_appearances(init);
        assert forall|k: K| ks.contains(k) <==> init.contains(k) || k == ks.last() by {
            if ks.contains(k) {
                let j = choose|j: int| 0 <= j < ks.len() && ks[j] == k;
                if j < ks.len() - 1 {
                    assert(init[j] == k);
                }
            }
            if init.contains(k) {
                let j = choose|j: int| 0 <= j < init.len() && init[j] == k;
                assert(ks[j] == k);
            }
            if k == ks.last() {
                assert(ks[ks.len() - 1] == k);
            }
        }
        let p = first_appearances(init);
        if !p.contains(ks.last()) {
            assert forall|k: K| p.push(ks.last()).contains(k) <==> p.contains(k) || k == ks.last() by {
                if p.push(ks.last()).contains(k) {
                    let j = choose|j: int| 0 <= j < p.len() + 1 && p.push(ks.last())[j] == k;
                    if j < p.len() {
                        assert(p[j] == k);
                    }
                }
                if p.contains(k) {
                    let j = choose|j: int| 0 <= j < p.len() && p[j] == k;
                    assert(p.push(ks.last())[j] == k);
                }
                if k == ks.last() {
                    assert(p.push(ks.last())[p.len() as int] == k);
                }
            }
            assert forall|a: int, b: int| 0 <= a < b < p.len() + 1 implies p.push(ks.last())[a] != p.push(
                ks.last(),
            )[b] by {
                if b == p.len() {
                    assert(p[a] == p.push(ks.last())[a]);
                }
            }
        }
    }
}

/// Law: a tally lists each value of the sequence exactly once, in order of
/// first appearance, each with the number of its occurrences.
pub proof fn law_tally_counts_each_value_once<K>(ks: Seq<K>)
    ensures
        tally(ks).len() == first_appearances(ks).len(),
        forall|a: int, b: int| 0 <= a < b < tally(ks).len() ==> (#[trigger] tally(ks)[a]).0 != (#[trigger] tally(
            ks,
        )[b]).0,
        forall|a: int| 0 <= a < tally(ks).len() ==> (#[trigger] tally(ks)[a]).1 == count_in(ks, tally(ks)[a].0),
        forall|k: K| ks.contains(k) <==> exists|a: int| 0 <= a < tally(ks).len() && (#[trigger] tally(ks)[a]).0 == k,
{
    lemma_first_appearances(ks);
    let f = first_appearances(ks);
    let t = tally(ks);
    assert forall|a: int, b: int| 0 <= a < b < t.len() implies (#[trigger] t[a]).0 != (#[trigger] t[b]).0 by {
        assert(t[a].0 == f[a] && t[b].0 == f[b]);
    }
    assert forall|k: K| ks.contains(k) <==> exists|a: int| 0 <= a < t.len() && (#[trigger] t[a]).0 == k by {
        if ks.contains(k) {
            assert(f.contains(k));
            let a = choose|a: int| 0 <= a < f.len() && f[a] == k;
            assert(t[a].0 == k);
        }
        if exists|a: int| 0 <= a < t.len() && (#[trigger] t[a]).0 == k {
            let a = choose|a: int| 0 <= a < t.len() && (#[trigger] t[a]).0 == k;
            assert(f[a] == k);
            assert(f.contains(k));
        }
    }
}

/// A value occurs no more often than the sequence is long.
pub proof fn lemma_count_in_bound<K>(ks: Seq<K>, k: K)
    ensures
        count_in(ks, k) <= ks.len(),
    decreases ks.len(),
{
    if ks.len() > 0 {
        lemma_count_in_bound(ks.drop_last(), k);
    }
}

/// The views of a tally with `usize` counts.
pub open spec fn tally_view<K>(v: Seq<(K, usize)>) -> Seq<(K, nat)> {
    v.map_values(|e: (K, usize)| (e.0, e.1 as nat))
}

/// The views of a tally of strings with `usize` counts.
pub open spec fn string_tally_view(v: Seq<(String, usize)>) -> Seq<(Seq<char>, nat)> {
    v.map_values(|e: (String, usize)| (e.0@, e.1 as nat))
}

/// The distinct strings of `ks`, in order of first appearance.
pub fn distinct_strings(ks: &Vec<String>) -> (res: Vec<String>)
    ensures
        string_views(res@) == first_appearances(string_views(ks@)),
{
    let ghost kv = string_views(ks@);
    let mut res: Vec<String> = Vec::new();
    let mut i: usize = 0;
    while i < ks.len()
        invariant
            kv == string_views(ks@),
            i <= kv.len(),
            string_views(res@) == first_appearances(kv.take(i as int)),
        decreases ks.len() - i,
    {
        let k = &ks[i];
        proof {
            assert(kv.take(i + 1).drop_last() =~= kv.take(i as int));
            assert(kv.take(i + 1).last() == k@);
        }
        let mut found = false;
        let mut j: usize = 0;
        while j < res.len()
            invariant
                j <= res@.len(),
                found == exists|m: int| 0 <= m < j && res@[m]@ == k@,
            decreases res.len() - j,
        {
            if res[j] == *k {
                found = true;
            }
            j = j + 1;
        }
        let ghost sv = string_views(res@);
        proof {
            if found {
                let m = choose|m: int| 0 <= m < j && res@[m]@ == k@;
                assert(sv[m] == k@);
                assert(sv.contains(k@));
            } else {
                assert forall|m: int| 0 <= m < sv.len() implies sv[m] != k@ by {
                    assert(sv[m] == res@[m]@);
                }
                assert(!sv.contains(k@));
            }
        }
        if !found {
            res.push(k.clone());
            assert(string_views(res@) =~= sv.push(k@));
        }
        i = i + 1;
    }
    proof {
        assert(kv.take(i as int) =~= kv);
    }
    res
}

/// How often `k` occurs in `ks`.
pub fn count_string(ks: &Vec<String>, k: &String) -> (res: usize)
    ensures
        res == count_in(string_views(ks@), k@),
{
    let ghost kv = string_views(ks@);
    let mut n: usize = 0;
    let mut i: usize = 0;
    while i < ks.len()
        invariant
            kv == string_views(ks@),
            i <= kv.len(),
            n == count_in(kv.take(i as int), k@),
        decreases ks.len() - i,
    {
        proof {
            assert(kv.take(i + 1).drop_last() =~= kv.take(i as int));
            lemma_count_in_bound(kv.take(i as int), k@);
        }
        if ks[i] == *k {
            n = n + 1;
        }
        i = i + 1;
    }
    proof {
        assert(kv.take(i as int) =~= kv);
    }
    n
}

/// Each distinct string of `ks`, in order of first appearance, with the
/// number of its occurrences.
pub fn tally_strings(ks: &Vec<String>) -> (res: Vec<(String, usize)>)
    ensures
        string_tally_view(res@) == tally(string_views(ks@)),
{
    let keys = distinct_strings(ks);
    let ghost kv = string_views(ks@);
    let mut res: Vec<(String, usize)> = Vec::new();
    let mut i: usize = 0;
    while i < keys.len()
        invariant
            string_views(keys@) == first_appearances(kv),
            kv == string_views(ks@),
            i <= keys@.len(),
            string_tally_view(res@) == tally(kv).take(i as int),
        decreases keys.len() - i,
    {
        let n = count_string(ks, &keys[i]);
        let ghost old = string_tally_view(res@);
        let ghost k = keys@[i as int]@;
        res.push((keys[i].clone(), n));
        proof {
            assert(string_views(keys@)[i as int] == k);
            assert(string_tally_view(res@) =~= old.push((k, n as nat)));
            assert(tally(kv)[i as int] == (k, count_in(kv, k)));
            assert(string_tally_view(res@) =~= tally(kv).take(i + 1));
        }
        i = i + 1;
    }
    proof {
        assert(tally(kv).take(i as int) =~= tally(kv));
    }
    res
}

} // verus!
