//! The versions root as the app lists it, and the choices made over it:
//! which entries are version directories, and which one a rollback activates.

use vstd::prelude::*;
use crate::error::ManagerError;
use crate::text::{sort_texts, sorted_texts, text_less, text_lt};
use crate::trusted::{compare_semver, file_name_of, opt_text, path_file_name, semver_cmp};

verus! {

/// The name of the link that marks the active version.
pub const CURRENT_NAME: &'static str = "current";

/// One entry of the versions root, as a directory listing reports it.
#[derive(Clone, Debug)]
pub struct DirEntry {
    pub name: String,
    pub is_dir: bool,
    /// Modification time in nanoseconds since the Unix epoch (0 when unknown).
    pub modified: u128,
}

/// Names of staging directories begin with this; they hold unfinished
/// extractions and are never versions.
pub const STAGING_PREFIX: &'static str = ".staging-";

/// The name is a staging directory's.
pub open spec fn is_staging(name: Seq<char>) -> bool {
    &&& STAGING_PREFIX@.len() <= name.len()
    &&& name.subrange(0, STAGING_PREFIX@.len() as int) == STAGING_PREFIX@
}

/// A version directory: a directory other than the `current` link and
/// other than a staging directory.
pub open spec fn is_version(e: DirEntry) -> bool {
    e.is_dir && e.name@ != CURRENT_NAME@ && !is_staging(e.name@)
}

/// Whether a name is a staging directory's.
pub fn is_staging_name(name: &String) -> (r: bool)
    ensures
        r == is_staging(name@),
{
    proof {
        reveal_strlit(".staging-");
    }
    let p = STAGING_PREFIX;
    let lp = p.unicode_len();
    let n = name.as_str();
    if n.unicode_len() < lp {
        return false;
    }
    let mut k: usize = 0;
    while k < lp
        invariant
            lp == p@.len(),
            p@ == STAGING_PREFIX@,
            lp <= n@.len(),
            n@ == name@,
            0 <= k <= lp,
            forall|j: int| 0 <= j < k ==> n@[j] == p@[j],
        decreases lp - k,
    {
        if n.get_char(k) != p.get_char(k) {
            assert(n@.subrange(0, lp as int)[k as int] != p@[k as int]);
            return false;
        }
        k = k + 1;
    }
    assert(n@.subrange(0, lp as int) =~= p@);
    true
}

pub fn is_current_name(name: &String) -> (r: bool)
    ensures
        r == (name@ == CURRENT_NAME@),
{
    *name == String::from_str(CURRENT_NAME)
}

pub fn is_version_dir(e: &DirEntry) -> (r: bool)
    ensures
        r == is_version(*e),
{
    e.is_dir && !is_current_name(&e.name) && !is_staging_name(&e.name)
}

/// A staging directory never counts as an installed version: listings,
/// `use`, rollback and pruning all pass it by.
pub proof fn law_staging_is_no_version(e: DirEntry)
    requires
        is_staging(e.name@),
    ensures
        !is_version(e),
{
}

/// How many of the first `n` entries are version directories.
pub open spec fn count_versions(es: Seq<DirEntry>, n: int) -> nat
    decreases n,
{
    if n <= 0 {
        0
    } else {
        count_versions(es, n - 1) + if is_version(es[n - 1]) { 1nat } else { 0nat }
    }
}

/// Two version directories never share a name.
pub open spec fn names_unique(es: Seq<DirEntry>) -> bool {
    forall|i: int, j: int|
        0 <= i < es.len() && 0 <= j < es.len() && i != j && is_version(es[i]) && is_version(
            es[j],
        ) ==> #[trigger] es[i].name@ != #[trigger] es[j].name@
}

/// Whether two version directories share a name; callers of
/// `select_rollback` test this first.
pub fn has_unique_names(entries: &Vec<DirEntry>) -> (r: bool)
    ensures
        r == names_unique(entries@),
{
    let n = entries.len();
    let mut i: usize = 0;
    while i < n
        invariant
            n == entries@.len(),
            0 <= i <= n,
            forall|a: int, b: int|
                0 <= a < i && 0 <= b < i && a != b && is_version(entries@[a]) && is_version(
                    entries@[b],
                ) ==> #[trigger] entries@[a].name@ != #[trigger] entries@[b].name@,
        decreases n - i,
    {
        if is_version_dir(&entries[i]) {
            let mut j: usize = 0;
            while j < i
                invariant
                    n == entries@.len(),
                    0 <= j <= i < n,
                    is_version(entries@[i as int]),
                    forall|b: int|
                        0 <= b < j && is_version(entries@[b]) ==> #[trigger] entries@[b].name@
                            != entries@[i as int].name@,
                decreases i - j,
            {
                if is_version_dir(&entries[j]) && entries[j].name == entries[i].name {
                    return false;
                }
                j = j + 1;
            }
        }
        i = i + 1;
    }
    true
}

/// A version directory that is not the one `current` names.
pub open spec fn is_rollback_candidate(e: DirEntry, current: Option<Seq<char>>) -> bool {
    is_version(e) && current != Some(e.name@)
}

/// Entry `i` is the rollback target: the most recently modified version
/// directory other than the current one (of equal times, the last listed).
pub open spec fn is_rollback_target(es: Seq<DirEntry>, current: Option<Seq<char>>, i: int) -> bool {
    &&& 0 <= i < es.len()
    &&& is_rollback_candidate(es[i], current)
    &&& forall|j: int|
        0 <= j < es.len() && j != i && is_rollback_candidate(#[trigger] es[j], current) ==> (
        es[j].modified < es[i].modified || (es[j].modified == es[i].modified && j < i))
}

/// Chooses the version a rollback activates, given the name `current` points
/// at (if it exists). Fails with `NotEnoughVersions` exactly when fewer than
/// two version directories exist.
pub fn select_rollback(entries: &Vec<DirEntry>, current: &Option<String>) -> (r: Result<
    usize,
    ManagerError,
>)
    requires
        names_unique(entries@),
    ensures
        count_versions(entries@, entries@.len() as int) < 2 <==> r is Err,
        r is Err ==> r == Err::<usize, ManagerError>(ManagerError::NotEnoughVersions),
        r is Ok ==> is_rollback_target(entries@, crate::trusted::opt_text(*current), r->Ok_0 as int),
{
    let ghost cur = crate::trusted::opt_text(*current);
    let n = entries.len();
    let mut count: usize = 0;
    let mut best: Option<usize> = None;
    let mut i: usize = 0;
    while i < n
        invariant
            n == entries@.len(),
            0 <= i <= n,
            count == count_versions(entries@, i as int),
            count <= i,
            names_unique(entries@),
            cur == crate::trusted::opt_text(*current),
            match best {
                None => forall|j: int| 0 <= j < i ==> !is_rollback_candidate(#[trigger] entries@[j], cur),
                Some(b) => {
                    &&& b < i
                    &&& is_rollback_candidate(entries@[b as int], cur)
                    &&& forall|j: int|
                        0 <= j < i && j != b && is_rollback_candidate(#[trigger] entries@[j], cur) ==> (
                        entries@[j].modified < entries@[b as int].modified || (
                        entries@[j].modified == entries@[b as int].modified && j < b))
                },
            },
            // with two version directories seen, one of them is a candidate
            count >= 2 ==> best is Some,
            count == 1 ==> (best is Some || exists|j: int| 0 <= j < i && is_version(#[trigger] entries@[j]) && cur == Some(entries@[j].name@)),
        decreases n - i,
    {
        let e = &entries[i];
        if is_version_dir(e) {
            let ghost before = count;
            count = count + 1;
            let is_cur = match current {
                Some(c) => e.name == *c,
                None => false,
            };
            if !is_cur {
                match best {
                    None => {
                        best = Some(i);
                    },
                    Some(b) => {
                        if e.modified >= entries[b].modified {
                            best = Some(i);
                        }
                    },
                }
            } else {
                proof {
                    if before == 1 && best is None {
                        let j = choose|j: int| 0 <= j < i && is_version(#[trigger] entries@[j]) && cur == Some(entries@[j].name@);
                        assert(entries@[j].name@ == entries@[i as int].name@);
                        assert(false);
                    }
                }
            }
        }
        i = i + 1;
    }
    if count < 2 {
        Err(ManagerError::NotEnoughVersions)
    } else {
        match best {
            Some(b) => Ok(b),
            None => Err(ManagerError::NotEnoughVersions),
        }
    }
}

/// What `use <version>` does to the `current` link.
#[derive(Clone, Copy, Debug, PartialEq, Eq)]
pub enum SwitchPlan {
    /// `current` already names the version: nothing changes.
    AlreadyActive,
    /// Point `current` at the entry at this position.
    Activate(usize),
}

/// A version directory with this name exists.
pub open spec fn has_version(es: Seq<DirEntry>, v: Seq<char>) -> bool {
    exists|i: int| 0 <= i < es.len() && is_version(es[i]) && (#[trigger] es[i].name@) == v
}

/// `names` holds the names of the version directories, each once.
pub open spec fn lists_versions(es: Seq<DirEntry>, names: Seq<String>) -> bool {
    &&& names.len() == count_versions(es, es.len() as int)
    &&& forall|k: int| 0 <= k < names.len() ==> has_version(es, (#[trigger] names[k])@)
    &&& forall|i: int|
        0 <= i < es.len() && is_version(#[trigger] es[i]) ==> exists|k: int|
            0 <= k < names.len() && (#[trigger] names[k])@ == es[i].name@
}

/// The names of the version directories, in code-point order.
pub fn available_versions(entries: &Vec<DirEntry>) -> (r: Vec<String>)
    ensures
        sorted_texts(r@),
        lists_versions(entries@, r@),
{
    let mut names: Vec<String> = Vec::new();
    let n = entries.len();
    let mut i: usize = 0;
    while i < n
        invariant
            n == entries@.len(),
            0 <= i <= n,
            names@.len() == count_versions(entries@, i as int),
            forall|k: int| 0 <= k < names@.len() ==> has_version(entries@, (#[trigger] names@[k])@),
            forall|j: int|
                0 <= j < i && is_version(#[trigger] entries@[j]) ==> exists|k: int|
                    0 <= k < names@.len() && (#[trigger] names@[k])@ == entries@[j].name@,
        decreases n - i,
    {
        if is_version_dir(&entries[i]) {
            let name = entries[i].name.clone();
            let ghost prev = names@;
            names.push(name);
            proof {
                assert forall|k: int| 0 <= k < names@.len() implies has_version(entries@, (#[trigger] names@[k])@) by {
                    if k < prev.len() {
                        assert(names@[k] == prev[k]);
                    } else {
                        assert(names@[k]@ == entries@[i as int].name@);
                    }
                }
                let last = names@.len() - 1;
                assert(names@[last]@ == entries@[i as int].name@);
                assert forall|j: int|
                    0 <= j < i + 1 && is_version(#[trigger] entries@[j]) implies exists|k: int|
                        0 <= k < names@.len() && (#[trigger] names@[k])@ == entries@[j].name@ by {
                    if j < i {
                        let k = choose|k: int| 0 <= k < prev.len() && (#[trigger] prev[k])@ == entries@[j].name@;
                        assert(names@[k] == prev[k]);
                    } else {
                        assert(names@[last]@ == entries@[j].name@);
                    }
                }
            }
        }
        i = i + 1;
    }
    let sorted = sort_texts(names);
    proof {
        assert forall|k: int| 0 <= k < sorted@.len() implies has_version(entries@, (#[trigger] sorted@[k])@) by {
            assert(sorted@.contains(sorted@[k]));
            assert(names@.contains(sorted@[k]));
            let t = choose|t: int| 0 <= t < names@.len() && names@[t] == sorted@[k];
            assert(has_version(entries@, names@[t]@));
        }
        assert forall|j: int| 0 <= j < n && is_version(#[trigger] entries@[j]) implies exists|k: int|
            0 <= k < sorted@.len() && (#[trigger] sorted@[k])@ == entries@[j].name@ by {
            let t = choose|t: int| 0 <= t < names@.len() && (#[trigger] names@[t])@ == entries@[j].name@;
            assert(names@.contains(names@[t]));
            assert(sorted@.contains(names@[t]));
            let k = choose|k: int| 0 <= k < sorted@.len() && sorted@[k] == names@[t];
            assert(sorted@[k]@ == entries@[j].name@);
        }
    }
    sorted
}

/// Decides what `use <version>` does: fails with `VersionNotFound` (naming
/// the versions root and listing what is installed) when no version directory has that name, does nothing
/// when `current` already names it, and otherwise activates it.
pub fn plan_switch(
    versions_root: &str,
    entries: &Vec<DirEntry>,
    current: &Option<String>,
    version: &str,
) -> (r: Result<
    SwitchPlan,
    ManagerError,
>)
    ensures
        r is Err <==> !has_version(entries@, version@),
        r matches Err(e) ==> (e matches ManagerError::VersionNotFound { root, requested, available }
            && root@ == versions_root@ && requested@ == version@ && sorted_texts(available@)
            && lists_versions(entries@, available@)),
        r matches Ok(SwitchPlan::AlreadyActive) ==> opt_text(*current) == Some(version@),
        r matches Ok(SwitchPlan::Activate(i)) ==> i < entries@.len() && is_version(entries@[i as int])
            && entries@[i as int].name@ == version@ && opt_text(*current) != Some(version@),
{
    let wanted = String::from_str(version);
    let n = entries.len();
    let mut i: usize = 0;
    while i < n
        invariant
            n == entries@.len(),
            0 <= i <= n,
            wanted@ == version@,
            forall|j: int| 0 <= j < i ==> !(is_version(#[trigger] entries@[j]) && entries@[j].name@ == version@),
        decreases n - i,
    {
        if is_version_dir(&entries[i]) && entries[i].name == wanted {
            let already = match current {
                Some(c) => *c == wanted,
                None => false,
            };
            if already {
                return Ok(SwitchPlan::AlreadyActive);
            } else {
                return Ok(SwitchPlan::Activate(i));
            }
        }
        i = i + 1;
    }
    Err(
        ManagerError::VersionNotFound {
            root: String::from_str(versions_root),
            requested: wanted,
            available: available_versions(entries),
        },
    )
}

/// The name of the directory a `current` link target points at.
pub open spec fn target_name(target: Option<Seq<char>>) -> Option<Seq<char>> {
    match target {
        Some(t) => path_file_name(t),
        None => None,
    }
}

/// The final component of the `current` link's target, which names the
/// active version directory.
pub fn current_name(target: &Option<String>) -> (r: Option<String>)
    ensures
        opt_text(r) == target_name(opt_text(*target)),
{
    match target {
        Some(t) => file_name_of(t.as_str()),
        None => None,
    }
}

/// Listing order: `a` is shown before `b` when it is the higher SemVer
/// version, or, unless both parse as SemVer, when it is later in code-point order.
pub open spec fn listed_before(a: Seq<char>, b: Seq<char>) -> bool {
    match semver_cmp(a, b) {
        Some(o) => o == core::cmp::Ordering::Greater,
        None => text_lt(b, a),
    }
}

pub fn is_listed_before(a: &String, b: &String) -> (r: bool)
    ensures
        r == listed_before(a@, b@),
{
    match compare_semver(a.as_str(), b.as_str()) {
        Some(o) => match o {
            core::cmp::Ordering::Greater => true,
            _ => false,
        },
        None => text_less(b.as_str(), a.as_str()),
    }
}

/// An installed version as the listing shows it: its name, and whether
/// `current` points at it.
pub open spec fn installed_item(e: DirEntry, current: Option<Seq<char>>) -> (Seq<char>, bool) {
    (e.name@, current == Some(e.name@))
}

/// The installed versions among the first `n` entries, in listing order.
pub open spec fn installed_upto(es: Seq<DirEntry>, current: Option<Seq<char>>, n: int) -> Seq<
    (Seq<char>, bool),
>
    decreases n,
{
    if n <= 0 {
        Seq::empty()
    } else if is_version(es[n - 1]) {
        installed_upto(es, current, n - 1).push(installed_item(es[n - 1], current))
    } else {
        installed_upto(es, current, n - 1)
    }
}

/// Places `x` before the first item that it is listed before (after any
/// items it ties with, which keeps the sort stable).
pub open spec fn insert_listed(x: (Seq<char>, bool), s: Seq<(Seq<char>, bool)>) -> Seq<
    (Seq<char>, bool),
>
    decreases s.len(),
{
    if s.len() == 0 {
        seq![x]
    } else if listed_before(x.0, s[0].0) {
        seq![x] + s
    } else {
        seq![s[0]] + insert_listed(x, s.drop_first())
    }
}

/// The stable insertion sort of a sequence under `listed_before`.
pub open spec fn listed(s: Seq<(Seq<char>, bool)>) -> Seq<(Seq<char>, bool)>
    decreases s.len(),
{
    if s.len() == 0 {
        s
    } else {
        insert_listed(s.last(), listed(s.drop_last()))
    }
}

pub open spec fn items_view(v: Seq<(String, bool)>) -> Seq<(Seq<char>, bool)> {
    v.map_values(|p: (String, bool)| (p.0@, p.1))
}

proof fn lemma_insert_at(x: (Seq<char>, bool), s: Seq<(Seq<char>, bool)>, k: int)
    requires
        0 <= k <= s.len(),
        forall|j: int| 0 <= j < k ==> !listed_before(x.0, (#[trigger] s[j]).0),
        k < s.len() ==> listed_before(x.0, s[k].0),
    ensures
        insert_listed(x, s) == s.subrange(0, k).push(x) + s.subrange(k, s.len() as int),
    decreases s.len(),
{
    if k == 0 {
        assert(s.subrange(0, 0).push(x) + s.subrange(0, s.len() as int) =~= seq![x] + s);
        if s.len() == 0 {
            assert(seq![x] + s =~= seq![x]);
        }
    } else {
        let t = s.drop_first();
        assert forall|j: int| 0 <= j < k - 1 implies !listed_before(x.0, (#[trigger] t[j]).0) by {
            assert(t[j] == s[j + 1]);
        }
        if k - 1 < t.len() {
            assert(t[k - 1] == s[k]);
        }
        lemma_insert_at(x, t, k - 1);
        assert(seq![s[0]] + (t.subrange(0, k - 1).push(x) + t.subrange(k - 1, t.len() as int))
            =~= s.subrange(0, k).push(x) + s.subrange(k, s.len() as int));
    }
}

/// The installed versions (every directory but the `current` link), each
/// marked when `current` names it, ordered highest SemVer first and
/// otherwise by descending name. `current` is the name of the active version.
pub fn collect_installed(entries: &Vec<DirEntry>, current: &Option<String>) -> (r: Vec<(String, bool)>)
    ensures
        items_view(r@) == listed(installed_upto(entries@, opt_text(*current), entries@.len() as int)),
{
    let ghost cur = opt_text(*current);
    let mut out: Vec<(String, bool)> = Vec::new();
    let n = entries.len();
    let mut i: usize = 0;
    assert(items_view(out@) =~= Seq::<(Seq<char>, bool)>::empty());
    while i < n
        invariant
            n == entries@.len(),
            0 <= i <= n,
            cur == opt_text(*current),
            items_view(out@) == listed(installed_upto(entries@, cur, i as int)),
        decreases n - i,
    {
        let e = &entries[i];
        if is_version_dir(e) {
            let is_cur = match current {
                Some(c) => e.name == *c,
                None => false,
            };
            let name = e.name.clone();
            let ghost x = installed_item(entries@[i as int], cur);
            assert(x == (name@, is_cur));
            let mut k: usize = 0;
            while k < out.len() && !is_listed_before(&name, &out[k].0)
                invariant
                    0 <= k <= out@.len(),
                    name@ == x.0,
                    forall|j: int| 0 <= j < k ==> !listed_before(x.0, (#[trigger] items_view(out@)[j]).0),
                decreases out@.len() - k,
            {
                k = k + 1;
            }
            let ghost prev = out@;
            proof {
                lemma_insert_at(x, items_view(prev), k as int);
                let s = installed_upto(entries@, cur, i as int);
                assert(installed_upto(entries@, cur, i as int + 1) == s.push(x));
                assert(s.push(x).drop_last() =~= s);
            }
            out.insert(k, (name, is_cur));
            assert(items_view(out@) =~= items_view(prev).subrange(0, k as int).push(x) + items_view(
                prev,
            ).subrange(k as int, prev.len() as int));
        }
        i = i + 1;
    }
    out
}

} // verus!
