//! The retention engine: which version directories a prune pass deletes.

use vstd::prelude::*;
use crate::listing::{is_version, is_version_dir, DirEntry};

verus! {

/// Entry `j` comes before entry `i` in newest-first order; equal times keep
/// the listing order.
pub open spec fn newer(es: Seq<DirEntry>, j: int, i: int) -> bool {
    es[j].modified > es[i].modified || (es[j].modified == es[i].modified && j < i)
}

/// How many version directories among the first `n` entries come before entry `i`.
pub open spec fn rank_upto(es: Seq<DirEntry>, i: int, n: int) -> nat
    decreases n,
{
    if n <= 0 {
        0
    } else {
        rank_upto(es, i, n - 1) + if is_version(es[n - 1]) && newer(es, n - 1, i) {
            1nat
        } else {
            0nat
        }
    }
}

/// The position of entry `i` in newest-first order among all version directories.
pub open spec fn rank(es: Seq<DirEntry>, i: int) -> nat {
    rank_upto(es, i, es.len() as int)
}

/// The name is in the preservation set.
pub open spec fn preserved(preserve: Seq<String>, name: Seq<char>) -> bool {
    exists|k: int| 0 <= k < preserve.len() && (#[trigger] preserve[k])@ == name
}

/// Entry `i` is deleted by a prune pass that keeps `keep` directories: it is
/// a version directory, `keep` is not zero, it is not among the `keep`
/// newest, and it is not preserved.
pub open spec fn pruned(es: Seq<DirEntry>, keep: nat, preserve: Seq<String>, i: int) -> bool {
    &&& 0 <= i < es.len()
    &&& keep > 0
    &&& is_version(es[i])
    &&& rank(es, i) >= keep
    &&& !preserved(preserve, es[i].name@)
}

pub fn contains_name(preserve: &Vec<String>, name: &String) -> (r: bool)
    ensures
        r == preserved(preserve@, name@),
{
    let mut k: usize = 0;
    while k < preserve.len()
        invariant
            0 <= k <= preserve@.len(),
            forall|j: int| 0 <= j < k ==> (#[trigger] preserve@[j])@ != name@,
        decreases preserve@.len() - k,
    {
        if preserve[k] == *name {
            return true;
        }
        k = k + 1;
    }
    false
}

/// The rank of entry `i`.
pub fn rank_of(entries: &Vec<DirEntry>, i: usize) -> (r: usize)
    requires
        i < entries@.len(),
    ensures
        r == rank(entries@, i as int),
{
    let n = entries.len();
    let mut count: usize = 0;
    let mut j: usize = 0;
    while j < n
        invariant
            n == entries@.len(),
            i < n,
            0 <= j <= n,
            count == rank_upto(entries@, i as int, j as int),
            count <= j,
        decreases n - j,
    {
        let e = &entries[j];
        if is_version_dir(e) && (e.modified > entries[i].modified || (e.modified
            == entries[i].modified && j < i)) {
            count = count + 1;
        }
        j = j + 1;
    }
    count
}

/// The positions, in listing order, of the version directories that a prune
/// pass deletes. With `keep` zero nothing is deleted; otherwise the `keep`
/// newest and every preserved name stay.
pub fn prune_plan(entries: &Vec<DirEntry>, keep: usize, preserve: &Vec<String>) -> (r: Vec<usize>)
    ensures
        forall|k: int| 0 <= k < r@.len() ==> pruned(entries@, keep as nat, preserve@, #[trigger] r@[k] as int),
        forall|i: int| pruned(entries@, keep as nat, preserve@, i) ==> r@.contains(i as usize),
        forall|a: int, b: int| 0 <= a < b < r@.len() ==> r@[a] < r@[b],
{
    let mut out: Vec<usize> = Vec::new();
    if keep == 0 {
        return out;
    }
    let n = entries.len();
    let mut i: usize = 0;
    while i < n
        invariant
            n == entries@.len(),
            keep > 0,
            0 <= i <= n,
            forall|k: int| 0 <= k < out@.len() ==> (#[trigger] out@[k]) < i && pruned(entries@, keep as nat, preserve@, out@[k] as int),
            forall|x: int| 0 <= x < i && pruned(entries@, keep as nat, preserve@, x) ==> out@.contains(x as usize),
            forall|a: int, b: int| 0 <= a < b < out@.len() ==> out@[a] < out@[b],
        decreases n - i,
    {
        let ghost prev = out@;
        let e = &entries[i];
        if is_version_dir(e) && !contains_name(preserve, &e.name) {
            let r = rank_of(entries, i);
            if r >= keep {
                out.push(i);
                assert(out@[out@.len() - 1] == i);
            }
        }
        proof {
            assert forall|x: int| 0 <= x < i + 1 && pruned(entries@, keep as nat, preserve@, x) implies out@.contains(x as usize) by {
                if x < i {
                    assert(prev.contains(x as usize));
                    let k = choose|k: int| 0 <= k < prev.len() && prev[k] == x as usize;
                    assert(out@[k] == prev[k]);
                } else {
                    assert(out@[out@.len() - 1] == i);
                }
            }
        }
        i = i + 1;
    }
    out
}

/// How many of the positions below `n` satisfy `p`.
pub open spec fn count_where(p: spec_fn(int) -> bool, n: int) -> nat
    decreases n,
{
    if n <= 0 {
        0
    } else {
        count_where(p, n - 1) + if p(n - 1) {
            1nat
        } else {
            0nat
        }
    }
}

proof fn lemma_count_covered(p: spec_fn(int) -> bool, q: spec_fn(int) -> bool, x: int, n: int)
    requires
        forall|j: int| 0 <= j < n && #[trigger] p(j) ==> q(j) || j == x,
    ensures
        count_where(p, n) <= count_where(q, n) + if 0 <= x < n {
            1nat
        } else {
            0nat
        },
    decreases n,
{
    if n > 0 {
        lemma_count_covered(p, q, x, n - 1);
    }
}

proof fn lemma_count_same(p: spec_fn(int) -> bool, q: spec_fn(int) -> bool, n: int)
    requires
        forall|j: int| 0 <= j < n ==> (#[trigger] p(j) <==> q(j)),
    ensures
        count_where(p, n) == count_where(q, n),
    decreases n,
{
    if n > 0 {
        lemma_count_same(p, q, n - 1);
    }
}

proof fn lemma_count_none(p: spec_fn(int) -> bool, n: int)
    requires
        count_where(p, n) == 0,
    ensures
        forall|j: int| 0 <= j < n ==> !#[trigger] p(j),
    decreases n,
{
    if n > 0 {
        lemma_count_none(p, n - 1);
    }
}

/// The version directories ranked below `keep`.
pub open spec fn in_top(es: Seq<DirEntry>, keep: nat) -> spec_fn(int) -> bool {
    |i: int| is_version(es[i]) && rank(es, i) < keep
}

proof fn lemma_rank_counts(es: Seq<DirEntry>, i: int, n: int)
    ensures
        rank_upto(es, i, n) == count_where(|j: int| is_version(es[j]) && newer(es, j, i), n),
    decreases n,
{
    if n > 0 {
        lemma_rank_counts(es, i, n - 1);
    }
}

/// Among the first `n` positions in `top`, one is older than all the others.
proof fn lemma_oldest(es: Seq<DirEntry>, keep: nat, n: int) -> (x: int)
    requires
        0 <= n <= es.len(),
        count_where(in_top(es, keep), n) > 0,
    ensures
        0 <= x < n,
        in_top(es, keep)(x),
        forall|j: int| 0 <= j < n && j != x && #[trigger] in_top(es, keep)(j) ==> newer(es, j, x),
    decreases n,
{
    let top = in_top(es, keep);
    if count_where(top, n - 1) == 0 {
        lemma_count_none(top, n - 1);
        n - 1
    } else {
        let y = lemma_oldest(es, keep, n - 1);
        if top(n - 1) && !newer(es, n - 1, y) {
            n - 1
        } else {
            y
        }
    }
}

/// At most `keep` version directories rank below `keep`.
proof fn lemma_top_size(es: Seq<DirEntry>, keep: nat)
    ensures
        count_where(in_top(es, keep), es.len() as int) <= keep,
{
    let n = es.len() as int;
    let top = in_top(es, keep);
    if count_where(top, n) > 0 {
        let x = lemma_oldest(es, keep, n);
        let older_than_x = |j: int| is_version(es[j]) && newer(es, j, x);
        lemma_count_covered(top, older_than_x, x, n);
        lemma_rank_counts(es, x, n);
    }
}

/// The version directories a prune pass keeps.
pub open spec fn retained_count(es: Seq<DirEntry>, keep: nat, preserve: Seq<String>) -> nat {
    count_where(|i: int| is_version(es[i]) && !pruned(es, keep, preserve, i), es.len() as int)
}

/// The version directories named in the preservation set.
pub open spec fn preserved_count(es: Seq<DirEntry>, preserve: Seq<String>) -> nat {
    count_where(|i: int| is_version(es[i]) && preserved(preserve, es[i].name@), es.len() as int)
}

/// A prune pass never deletes a version directory named in the
/// preservation set, whatever the keep-count.
pub proof fn law_prune_spares_preserved(es: Seq<DirEntry>, keep: nat, preserve: Seq<String>, i: int)
    requires
        0 <= i < es.len(),
        preserved(preserve, es[i].name@),
    ensures
        !pruned(es, keep, preserve, i),
{
}

/// A prune pass keeps at most `max(keep, preserved version directories)`
/// version directories, when the keep-count and the preservation set agree:
/// with `keep` zero nothing is deleted, so every version directory must be
/// preserved; otherwise every preserved one must be among the `keep` newest,
/// or every one of the `keep` newest must be preserved. (Outside these cases
/// the pass keeps the `keep` newest and, besides them, each preserved one.)
pub proof fn law_prune_retains_at_most(es: Seq<DirEntry>, keep: nat, preserve: Seq<String>)
    requires
        keep == 0 ==> forall|i: int|
            0 <= i < es.len() && is_version(#[trigger] es[i]) ==> preserved(preserve, es[i].name@),
        keep > 0 ==> (forall|i: int|
            0 <= i < es.len() && is_version(#[trigger] es[i]) && preserved(preserve, es[i].name@)
                ==> rank(es, i) < keep) || (forall|i: int|
            0 <= i < es.len() && is_version(#[trigger] es[i]) && rank(es, i) < keep ==> preserved(
                preserve,
                es[i].name@,
            )),
    ensures
        retained_count(es, keep, preserve) <= if keep >= preserved_count(es, preserve) {
            keep
        } else {
            preserved_count(es, preserve)
        },
{
    let n = es.len() as int;
    let kept = |i: int| is_version(es[i]) && !pruned(es, keep, preserve, i);
    let pres = |i: int| is_version(es[i]) && preserved(preserve, es[i].name@);
    let top = in_top(es, keep);
    if keep == 0 {
        lemma_count_same(kept, pres, n);
    } else if forall|i: int|
        0 <= i < es.len() && is_version(#[trigger] es[i]) && preserved(preserve, es[i].name@) ==> rank(
            es,
            i,
        ) < keep {
        lemma_count_same(kept, top, n);
        lemma_top_size(es, keep);
    } else {
        lemma_count_same(kept, pres, n);
    }
}

} // verus!
