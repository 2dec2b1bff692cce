//! The registry of known vaults: where each one lives, its name, when it was
//! last opened and which one is the default.
use vstd::prelude::*;

use crate::clock::now_millis;
use crate::seqs::{lemma_filter_empty, lemma_filter_take_step, lemma_take_full};

verus! {

/// A known vault.
#[derive(Debug, Clone)]
pub struct VaultRegistryEntry {
    /// Path of the vault file.
    pub path: String,
    /// Name of the vault.
    pub name: String,
    /// Last time the vault was opened, in milliseconds since the Unix epoch.
    pub last_opened: i64,
    /// Whether this is the default vault.
    pub is_default: bool,
}

impl VaultRegistryEntry {
    /// A new entry, opened now, not the default.
    pub fn new(path: &str, name: &str) -> (r: VaultRegistryEntry)
        ensures
            r.path@ == path@,
            r.name@ == name@,
            !r.is_default,
    {
        VaultRegistryEntry {
            path: String::from_str(path),
            name: String::from_str(name),
            last_opened: now_millis(),
            is_default: false,
        }
    }

    /// Records that the vault was opened now.
    pub fn touch(&mut self)
        ensures
            final(self).path == old(self).path,
            final(self).name == old(self).name,
            final(self).is_default == old(self).is_default,
    {
        let now = now_millis();
        self.touch_at(now);
    }

    /// Records that the vault was opened at `now_ms`.
    pub fn touch_at(&mut self, now_ms: i64)
        ensures
            *final(self) == (VaultRegistryEntry { last_opened: now_ms, ..*old(self) }),
    {
        self.last_opened = now_ms;
    }
}

/// The registry of known vaults.
#[derive(Debug, Clone)]
pub struct VaultRegistry {
    /// All known vaults.
    pub entries: Vec<VaultRegistryEntry>,
}

/// Position of the first entry with path `path`.
pub open spec fn path_position(entries: Seq<VaultRegistryEntry>, path: Seq<char>) -> Option<int> {
    if exists|i: int| 0 <= i < entries.len() && entries[i].path@ == path {
        Some(
            choose|i: int|
                0 <= i < entries.len() && entries[i].path@ == path && forall|j: int|
                    0 <= j < i ==> entries[j].path@ != path,
        )
    } else {
        None
    }
}

/// Position of the first default entry.
pub open spec fn default_position(entries: Seq<VaultRegistryEntry>) -> Option<int> {
    if exists|i: int| 0 <= i < entries.len() && entries[i].is_default {
        Some(
            choose|i: int|
                0 <= i < entries.len() && entries[i].is_default && forall|j: int|
                    0 <= j < i ==> !entries[j].is_default,
        )
    } else {
        None
    }
}

/// Whether an entry's path differs from `path`.
pub open spec fn other_path(path: Seq<char>) -> spec_fn(VaultRegistryEntry) -> bool {
    |e: VaultRegistryEntry| e.path@ != path
}

/// Whether the entry `a` of `entries` comes before the entry `b` when sorted
/// by recency: opened later, or opened at the same time and listed first.
pub open spec fn more_recent(entries: Seq<VaultRegistryEntry>, a: int, b: int) -> bool {
    entries[a].last_opened > entries[b].last_opened || (entries[a].last_opened
        == entries[b].last_opened && a < b)
}

/// `order` lists distinct positions of `entries`, most recent first.
pub open spec fn ordered_by_recency(entries: Seq<VaultRegistryEntry>, order: Seq<usize>) -> bool {
    &&& forall|x: int| 0 <= x < order.len() ==> order[x] < entries.len()
    &&& forall|x: int, y: int|
        0 <= x < y < order.len() ==> more_recent(entries, order[x] as int, order[y] as int)
}

/// The entry for `path` (the one found in `before`, or the one added at the
/// end of `after`) is marked opened at `now_ms`.
pub open spec fn opened_at(before: Seq<VaultRegistryEntry>, after: Seq<VaultRegistryEntry>, path: Seq<char>, now_ms: i64) -> bool {
    match path_position(before, path) {
        Some(i) => after[i].last_opened == now_ms,
        None => after.last().last_opened == now_ms,
    }
}

/// A listing by recency names every entry.
pub proof fn lemma_order_covers(entries: Seq<VaultRegistryEntry>, order: Seq<usize>, k: int)
    requires
        order.len() == entries.len(),
        ordered_by_recency(entries, order),
        0 <= k < entries.len(),
    ensures
        exists|x: int| 0 <= x < order.len() && order[x] == k,
{
    let oi = order.map_values(|u: usize| u as int);
    assert forall|x: int, y: int| 0 <= x < oi.len() && 0 <= y < oi.len() && x != y implies oi[x] != oi[y] by {
        if x < y {
            assert(more_recent(entries, order[x] as int, order[y] as int));
        } else {
            assert(more_recent(entries, order[y] as int, order[x] as int));
        }
    }
    assert(oi.no_duplicates());
    oi.unique_seq_to_set();
    let range = vstd::set_lib::set_int_range(0, entries.len() as int);
    vstd::set_lib::lemma_int_range(0, entries.len() as int);
    assert(oi.to_set().subset_of(range)) by {
        assert forall|v: int| oi.to_set().contains(v) implies range.contains(v) by {
            let x = choose|x: int| 0 <= x < oi.len() && oi[x] == v;
            assert(order[x] < entries.len());
        }
    }
    vstd::set_lib::lemma_subset_equality(oi.to_set(), range);
    assert(range.contains(k));
    assert(oi.to_set().contains(k));
    let x = choose|x: int| 0 <= x < oi.len() && oi[x] == k;
    assert(order[x] == k);
}

/// An entry opened later than every other one comes first in any listing
/// of the entries by recency.
pub proof fn lemma_most_recent_first(entries: Seq<VaultRegistryEntry>, i: int, order: Seq<usize>)
    requires
        0 <= i < entries.len(),
        order.len() == entries.len(),
        ordered_by_recency(entries, order),
        forall|j: int| 0 <= j < entries.len() && j != i ==> #[trigger] entries[j].last_opened < entries[i].last_opened,
    ensures
        order[0] == i,
{
    lemma_order_covers(entries, order, i);
    let x = choose|x: int| 0 <= x < order.len() && order[x] == i;
    if x > 0 {
        assert(more_recent(entries, order[0] as int, order[x] as int));
        assert(order[0] < entries.len());
        if order[0] as int != i {
            assert(entries[order[0] as int].last_opened < entries[i].last_opened);
        }
    }
}

/// After a vault is opened again at a time later than every other vault's
/// opening (its entry at `i` gets that time, the others stay as they were),
/// any listing of the registry by recency, such as `sorted_by_recent`, names
/// it first.
pub proof fn lemma_reopened_listed_first(
    before: Seq<VaultRegistryEntry>,
    after: Seq<VaultRegistryEntry>,
    i: int,
    now_ms: i64,
    order: Seq<usize>,
)
    requires
        0 <= i < before.len(),
        after.len() == before.len(),
        after[i].last_opened == now_ms,
        forall|j: int| 0 <= j < before.len() && j != i ==> after[j] == before[j],
        forall|j: int| 0 <= j < before.len() && j != i ==> #[trigger] before[j].last_opened < now_ms,
        order.len() == after.len(),
        ordered_by_recency(after, order),
    ensures
        order[0] == i,
{
    assert forall|j: int| 0 <= j < after.len() && j != i implies #[trigger] after[j].last_opened
        < after[i].last_opened by {
        assert(after[j] == before[j]);
        assert(before[j].last_opened < now_ms);
    }
    lemma_most_recent_first(after, i, order);
}

/// The entries of `entries` whose flag in `exists` is set, in order.
pub open spec fn existing(entries: Seq<VaultRegistryEntry>, exists: Seq<bool>) -> Seq<VaultRegistryEntry>
    decreases entries.len(),
{
    if entries.len() == 0 || exists.len() != entries.len() {
        Seq::empty()
    } else {
        let rest = existing(entries.drop_last(), exists.drop_last());
        if exists.last() {
            rest.push(entries.last())
        } else {
            rest
        }
    }
}

/// Finds the first entry with path `path`.
fn find_path(entries: &Vec<VaultRegistryEntry>, path: &String) -> (r: Option<usize>)
    ensures
        match r {
            Some(i) => path_position(entries@, path@) == Some(i as int) && i < entries@.len()
                && entries@[i as int].path@ == path@,
            None => path_position(entries@, path@) is None,
        },
{
    let mut i: usize = 0;
    while i < entries.len()
        invariant
            i <= entries@.len(),
            forall|j: int| 0 <= j < i ==> entries@[j].path@ != path@,
        decreases entries@.len() - i,
    {
        if entries[i].path == *path {
            let ghost p = path_position(entries@, path@);
            proof {
                assert(0 <= i < entries@.len() && entries@[i as int].path@ == path@);
            }
            return Some(i);
        }
        i = i + 1;
    }
    None
}

impl Default for VaultRegistry {
    fn default() -> (r: VaultRegistry)
        ensures
            r.entries@ == Seq::<VaultRegistryEntry>::empty(),
    {
        VaultRegistry { entries: Vec::new() }
    }
}

impl VaultRegistry {
    /// An empty registry.
    pub fn new() -> (r: VaultRegistry)
        ensures
            r.entries@ == Seq::<VaultRegistryEntry>::empty(),
    {
        VaultRegistry { entries: Vec::new() }
    }

    /// Renames the entry with path `path` and marks it opened now, or adds
    /// a new entry for it at the end, opened now.
    pub fn add_or_update(&mut self, path: &str, name: &str)
        ensures
            match path_position(old(self).entries@, path@) {
                Some(i) => {
                    &&& final(self).entries@.len() == old(self).entries@.len()
                    &&& final(self).entries@[i].path == old(self).entries@[i].path
                    &&& final(self).entries@[i].name@ == name@
                    &&& final(self).entries@[i].is_default == old(self).entries@[i].is_default
                    &&& forall|j: int|
                        0 <= j < old(self).entries@.len() && j != i ==> final(self).entries@[j]
                            == old(self).entries@[j]
                },
                None => {
                    &&& final(self).entries@.len() == old(self).entries@.len() + 1
                    &&& final(self).entries@.take(old(self).entries@.len() as int)
                        == old(self).entries@
                    &&& final(self).entries@.last().path@ == path@
                    &&& final(self).entries@.last().name@ == name@
                    &&& !final(self).entries@.last().is_default
                },
            },
            exists|i: int| 0 <= i < final(self).entries@.len() && #[trigger] final(self).entries@[i].path@ == path@
                && final(self).entries@[i].name@ == name@,
        exists|now_ms: i64| #[trigger] opened_at(old(self).entries@, final(self).entries@, path@, now_ms),
    {
        let now = now_millis();
        self.add_or_update_at(path, name, now);
        assert(opened_at(old(self).entries@, self.entries@, path@, now));
    }

    /// Renames the entry with path `path` and marks it opened at `now_ms`, or
    /// adds a new entry for it at the end, opened at `now_ms`. When `now_ms`
    /// is later than every other entry's opening, the entry comes first in
    /// any listing by recency.
    #[verifier::spinoff_prover]
    #[verifier::rlimit(80)]
    pub fn add_or_update_at(&mut self, path: &str, name: &str, now_ms: i64)
        ensures
            match path_position(old(self).entries@, path@) {
                Some(i) => {
                    &&& final(self).entries@.len() == old(self).entries@.len()
                    &&& final(self).entries@[i].path == old(self).entries@[i].path
                    &&& final(self).entries@[i].name@ == name@
                    &&& final(self).entries@[i].is_default == old(self).entries@[i].is_default
                    &&& forall|j: int|
                        0 <= j < old(self).entries@.len() && j != i ==> final(self).entries@[j]
                            == old(self).entries@[j]
                },
                None => {
                    &&& final(self).entries@.len() == old(self).entries@.len() + 1
                    &&& final(self).entries@.take(old(self).entries@.len() as int)
                        == old(self).entries@
                    &&& final(self).entries@.last().path@ == path@
                    &&& final(self).entries@.last().name@ == name@
                    &&& !final(self).entries@.last().is_default
                },
            },
            exists|i: int| 0 <= i < final(self).entries@.len() && #[trigger] final(self).entries@[i].path@ == path@
                && final(self).entries@[i].name@ == name@,
        opened_at(old(self).entries@, final(self).entries@, path@, now_ms),
    {
        let key = String::from_str(path);
        match find_path(&self.entries, &key) {
            Some(i) => {
                let mut e = VaultRegistryEntry {
                    path: self.entries[i].path.clone(),
                    name: String::from_str(name),
                    last_opened: self.entries[i].last_opened,
                    is_default: self.entries[i].is_default,
                };
                e.touch_at(now_ms);
                self.entries.set(i, e);
                assert(self.entries@[i as int].path@ == path@);
            },
            None => {
                let mut e = VaultRegistryEntry::new(path, name);
                e.touch_at(now_ms);
                self.entries.push(e);
                assert(self.entries@.take(old(self).entries@.len() as int) =~= old(self).entries@);
                assert(self.entries@[self.entries@.len() - 1].path@ == path@);
            },
        }
    }

    /// Removes every entry with path `path`; tells whether one was removed.
    pub fn remove(&mut self, path: &str) -> (r: bool)
        ensures
            final(self).entries@ == old(self).entries@.filter(other_path(path@)),
            r == (final(self).entries@.len() < old(self).entries@.len()),
    {
        let ghost p = other_path(path@);
        let ghost old_entries = self.entries@;
        let key = String::from_str(path);
        let before = self.entries.len();
        let mut i: usize = 0;
        let ghost mut j: int = 0;
        proof {
            lemma_filter_empty(old_entries, p);
            assert(old_entries.skip(0) =~= old_entries);
        }
        while i < self.entries.len()
            invariant
                p == other_path(path@),
                key@ == path@,
                0 <= j <= old_entries.len(),
                i == old_entries.take(j).filter(p).len(),
                self.entries@ == old_entries.take(j).filter(p) + old_entries.skip(j),
            decreases old_entries.len() - j,
        {
            proof {
                lemma_filter_take_step(old_entries, j, p);
                assert(self.entries@[i as int] == old_entries[j]);
                assert(old_entries.skip(j + 1) =~= old_entries.skip(j).drop_first());
                assert(p(old_entries[j]) == (old_entries[j].path@ != path@));
            }
            if self.entries[i].path == key {
                self.entries.remove(i);
                assert(self.entries@ =~= old_entries.take(j + 1).filter(p) + old_entries.skip(j + 1));
            } else {
                assert(self.entries@ =~= old_entries.take(j + 1).filter(p) + old_entries.skip(j + 1));
                i = i + 1;
            }
            proof {
                j = j + 1;
            }
        }
        proof {
            assert(self.entries@.len() == i);
            assert(old_entries.skip(j).len() == 0);
            assert(j == old_entries.len());
            lemma_take_full(old_entries);
            assert(self.entries@ =~= old_entries.filter(p));

        }
        self.entries.len() < before
    }

    /// The first default entry, if any.
    pub fn default_vault(&self) -> (r: Option<&VaultRegistryEntry>)
        ensures
            match default_position(self.entries@) {
                Some(i) => r == Some(&self.entries@[i]),
                None => r is None,
            },
    {
        let mut i: usize = 0;
        while i < self.entries.len()
            invariant
                i <= self.entries@.len(),
                forall|j: int| 0 <= j < i ==> !self.entries@[j].is_default,
            decreases self.entries@.len() - i,
        {
            if self.entries[i].is_default {
                proof {
                    assert(0 <= i < self.entries@.len() && self.entries@[i as int].is_default);
                    let k = default_position(self.entries@)->0;
                    assert(k == i);
                }
                return Some(&self.entries[i]);
            }
            i = i + 1;
        }
        None
    }

    /// Makes the first entry with path `path` the only default; where there
    /// is none, no entry stays default. Tells whether one was found.
    #[verifier::spinoff_prover]
    pub fn set_default(&mut self, path: &str) -> (r: bool)
        ensures
            final(self).entries@.len() == old(self).entries@.len(),
            r == path_position(old(self).entries@, path@) is Some,
            forall|j: int|
                0 <= j < old(self).entries@.len() ==> {
                    &&& final(self).entries@[j].path == old(self).entries@[j].path
                    &&& final(self).entries@[j].name == old(self).entries@[j].name
                    &&& final(self).entries@[j].last_opened == old(self).entries@[j].last_opened
                    &&& final(self).entries@[j].is_default == (path_position(old(self).entries@, path@)
                        == Some(j))
                },
    {
        let ghost old_entries = self.entries@;
        let key = String::from_str(path);
        let found = find_path(&self.entries, &key);
        let mut i: usize = 0;
        while i < self.entries.len()
            invariant
                self.entries@.len() == old_entries.len(),
                i <= old_entries.len(),
                found == (match path_position(old_entries, path@) {
                    Some(k) => Some(k as usize),
                    None => None::<usize>,
                }),
                match path_position(old_entries, path@) {
                    Some(k) => 0 <= k < old_entries.len(),
                    None => true,
                },
                forall|j: int|
                    0 <= j < old_entries.len() ==> {
                        &&& self.entries@[j].path == old_entries[j].path
                        &&& self.entries@[j].name == old_entries[j].name
                        &&& self.entries@[j].last_opened == old_entries[j].last_opened
                        &&& (j < i ==> self.entries@[j].is_default == (path_position(old_entries, path@)
                            == Some(j)))
                        &&& (j >= i ==> self.entries@[j] == old_entries[j])
                    },
            decreases old_entries.len() - i,
        {
            let flag = match found {
                Some(k) => k == i,
                None => false,
            };
            let e = VaultRegistryEntry {
                path: self.entries[i].path.clone(),
                name: self.entries[i].name.clone(),
                last_opened: self.entries[i].last_opened,
                is_default: flag,
            };
            self.entries.set(i, e);
            i = i + 1;
        }
        found.is_some()
    }

    /// The entries, most recently opened first; entries opened at the same
    /// time keep their order.
    pub fn sorted_by_recent(&self) -> (r: Vec<&VaultRegistryEntry>)
        ensures
            r@.len() == self.entries@.len(),
            exists|order: Seq<usize>|
                {
                    &&& order.len() == self.entries@.len()
                    &&& ordered_by_recency(self.entries@, order)
                    &&& forall|x: int|
                        0 <= x < order.len() ==> r@[x] == &self.entries@[order[x] as int]
                },
    {
        let order = self.recency_order();
        let mut r: Vec<&VaultRegistryEntry> = Vec::new();
        let mut x: usize = 0;
        while x < order.len()
            invariant
                x <= order@.len(),
                order@.len() == self.entries@.len(),
                ordered_by_recency(self.entries@, order@),
                r@.len() == x,
                forall|y: int| 0 <= y < x ==> r@[y] == &self.entries@[order@[y] as int],
            decreases order@.len() - x,
        {
            r.push(&self.entries[order[x]]);
            x = x + 1;
        }
        r
    }

    /// The positions of the entries, most recently opened first (by
    /// insertion, so that entries opened at the same time keep their order).
    fn recency_order(&self) -> (order: Vec<usize>)
        ensures
            order@.len() == self.entries@.len(),
            ordered_by_recency(self.entries@, order@),
    {
        let ghost es = self.entries@;
        let mut order: Vec<usize> = Vec::new();
        let mut i: usize = 0;
        while i < self.entries.len()
            invariant
                es == self.entries@,
                i <= es.len(),
                order@.len() == i,
                forall|x: int| 0 <= x < order@.len() ==> order@[x] < i,
                ordered_by_recency(es, order@),
            decreases es.len() - i,
        {
            let t = self.entries[i].last_opened;
            let mut p: usize = 0;
            while p < order.len() && self.entries[order[p]].last_opened >= t
                invariant
                    es == self.entries@,
                    i < es.len(),
                    p <= order@.len(),
                    forall|x: int| 0 <= x < order@.len() ==> order@[x] < i,
                    forall|x: int| 0 <= x < p ==> es[order@[x] as int].last_opened >= t,
                    t == es[i as int].last_opened,
                decreases order@.len() - p,
            {
                p = p + 1;
            }
            proof {
                assert forall|y: int| p <= y < order@.len() implies es[order@[y] as int].last_opened < t by {
                    if y > p {
                        assert(more_recent(es, order@[p as int] as int, order@[y] as int));
                    }
                }
            }
            let ghost before = order@;
            order.insert(p, i);
            proof {
                assert forall|x: int, y: int|
                    0 <= x < y < order@.len() implies more_recent(es, order@[x] as int, order@[y] as int) by {
                    if y < p {
                        assert(order@[x] == before[x] && order@[y] == before[y]);
                    } else if y == p {
                        assert(order@[x] == before[x]);
                    } else if x == p {
                        assert(order@[y] == before[y - 1]);
                    } else if x < p {
                        assert(order@[x] == before[x] && order@[y] == before[y - 1]);
                    } else {
                        assert(order@[x] == before[x - 1] && order@[y] == before[y - 1]);
                    }
                }
            }
            i = i + 1;
        }
        order
    }

    /// Keeps the entries whose vault file still exists (`exists[i]` tells
    /// it of the entry at `i`) and returns how many were removed.
    pub fn cleanup(&mut self, exists: &Vec<bool>) -> (r: usize)
        requires
            exists@.len() == old(self).entries@.len(),
        ensures
            final(self).entries@ == existing(old(self).entries@, exists@),
            r == old(self).entries@.len() - final(self).entries@.len(),
    {
        let ghost old_entries = self.entries@;
        let before = self.entries.len();
        let mut i: usize = 0;
        let mut j: usize = 0;
        proof {
            assert(old_entries.take(0) =~= Seq::<VaultRegistryEntry>::empty());
            assert(exists@.take(0) =~= Seq::<bool>::empty());
            assert(old_entries.skip(0) =~= old_entries);
        }
        while j < exists.len()
            invariant
                exists@.len() == old_entries.len(),
                j <= exists@.len(),
                i <= j,
                before == old_entries.len(),
                i == existing(old_entries.take(j as int), exists@.take(j as int)).len(),
                self.entries@ == existing(old_entries.take(j as int), exists@.take(j as int))
                    + old_entries.skip(j as int),
            decreases exists@.len() - j,
        {
            let ghost prefix = existing(old_entries.take(j as int), exists@.take(j as int));
            proof {
                let a = old_entries.take(j + 1);
                let b = exists@.take(j + 1);
                assert(a.drop_last() =~= old_entries.take(j as int));
                assert(b.drop_last() =~= exists@.take(j as int));
                assert(old_entries.skip(j + 1) =~= old_entries.skip(j as int).drop_first());
                assert(self.entries@[i as int] == old_entries[j as int]);
            }
            if exists[j] {
                assert(self.entries@ =~= existing(old_entries.take(j + 1), exists@.take(j + 1))
                    + old_entries.skip(j + 1));
                i = i + 1;
            } else {
                self.entries.remove(i);
                assert(self.entries@ =~= existing(old_entries.take(j + 1), exists@.take(j + 1))
                    + old_entries.skip(j + 1));
            }
            j = j + 1;
        }
        proof {
            assert(old_entries.take(j as int) =~= old_entries);
            assert(exists@.take(j as int) =~= exists@);
            assert(self.entries@ =~= existing(old_entries, exists@));
        }
        before - self.entries.len()
    }

    /// Whether no vault is known.
    pub fn is_empty(&self) -> (r: bool)
        ensures
            r == (self.entries@.len() == 0),
    {
        self.entries.len() == 0
    }

    /// The number of known vaults.
    pub fn len(&self) -> (r: usize)
        ensures
            r == self.entries@.len(),
    {
        self.entries.len()
    }
}

} // verus!
