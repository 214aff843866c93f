//! The record store: every entry of the history, keyed by its fingerprint.
//!
//! The store keeps the list record and the detail record of each entry as one
//! pair, so the two can only ever be created together and deleted together.
//! Ids are unique: observing content whose fingerprint is already present
//! updates the existing entry in place and never duplicates it.

use vstd::prelude::*;
use crate::records::{DetailKind, Entry, ListKind, entry_wf};
use crate::seq_util::lemma_take_step;

verus! {

/// Whether the entries of `s` carry pairwise distinct ids.
pub open spec fn distinct_ids(s: Seq<Entry>) -> bool {
    forall|i: int, j: int| 0 <= i < j < s.len() ==> s[i].list.id != s[j].list.id
}

/// Whether some entry of `s` carries the id `id`.
pub open spec fn contains_id(s: Seq<Entry>, id: u64) -> bool {
    exists|i: int| 0 <= i < s.len() && s[i].list.id == id
}

/// The position of the entry with id `id` in `s`.
pub open spec fn idx_of(s: Seq<Entry>, id: u64) -> int {
    choose|i: int| 0 <= i < s.len() && s[i].list.id == id
}

/// The entry of `s` with id `id`.
pub open spec fn entry_for(s: Seq<Entry>, id: u64) -> Entry {
    s[idx_of(s, id)]
}

/// An entry after one more observation of its content at time `now`: the
/// last-copied time advances (it never moves back) and the copy count grows
/// by one, held at its maximum rather than overflowing.
pub open spec fn bumped(e: Entry, now: i64) -> Entry {
    Entry {
        list: crate::records::ListRecord {
            copied_last: if now > e.list.copied_last {
                now
            } else {
                e.list.copied_last
            },
            copy_count: if e.list.copy_count < u32::MAX {
                (e.list.copy_count + 1) as u32
            } else {
                e.list.copy_count
            },
            ..e.list
        },
        ..e
    }
}

/// Every element of `s.filter(p)` is an element of `s`.
proof fn lemma_filter_elements(s: Seq<Entry>, p: spec_fn(Entry) -> bool)
    ensures
        forall|k: int|
            0 <= k < s.filter(p).len() ==> exists|a: int|
                0 <= a < s.len() && s[a] == #[trigger] s.filter(p)[k],
    decreases s.len(),
{
    reveal(Seq::filter);
    if s.len() == 0 {
    } else {
        let d = s.drop_last();
        lemma_filter_elements(d, p);
        assert forall|k: int| 0 <= k < s.filter(p).len() implies exists|a: int|
            0 <= a < s.len() && s[a] == #[trigger] s.filter(p)[k] by {
            if k < d.filter(p).len() {
                let a = choose|a: int| 0 <= a < d.len() && d[a] == d.filter(p)[k];
                assert(s[a] == s.filter(p)[k]);
            } else {
                assert(s[s.len() - 1] == s.filter(p)[k]);
            }
        }
    }
}

/// Filtering keeps ids pairwise distinct.
proof fn lemma_filter_distinct(s: Seq<Entry>, p: spec_fn(Entry) -> bool)
    requires
        distinct_ids(s),
    ensures
        distinct_ids(s.filter(p)),
    decreases s.len(),
{
    reveal(Seq::filter);
    if s.len() == 0 {
    } else {
        let d = s.drop_last();
        assert(distinct_ids(d));
        lemma_filter_distinct(d, p);
        if p(s.last()) {
            lemma_filter_elements(d, p);
            assert forall|k: int| 0 <= k < d.filter(p).len() implies d.filter(p)[k].list.id
                != s.last().list.id by {
                let a = choose|a: int| 0 <= a < d.len() && d[a] == d.filter(p)[k];
                assert(s[a].list.id != s[s.len() - 1].list.id);
            }
        }
    }
}

/// Durable-style storage for the history: get by id, insert, update in
/// place, delete, scan, and the retention sweep.
pub struct RecordStore {
    entries: Vec<Entry>,
}

impl RecordStore {
    /// The stored entries, in insertion order.
    pub closed spec fn entries(self) -> Seq<Entry> {
        self.entries@
    }

    /// The store's invariant: distinct ids, and every entry well-formed.
    pub open spec fn wf(self) -> bool {
        &&& distinct_ids(self.entries())
        &&& forall|i: int| 0 <= i < self.entries().len() ==> entry_wf(#[trigger] self.entries()[i])
    }

    /// Creates an empty store.
    pub fn new() -> (r: RecordStore)
        ensures
            r.wf(),
            r.entries() == Seq::<Entry>::empty(),
    {
        RecordStore { entries: Vec::new() }
    }

    /// The number of stored entries.
    pub fn len(&self) -> (r: usize)
        ensures
            r == self.entries().len(),
    {
        self.entries.len()
    }

    /// The entry at position `i` of the scan order.
    pub fn entry_at(&self, i: usize) -> (r: &Entry)
        requires
            i < self.entries().len(),
        ensures
            *r == self.entries()[i as int],
    {
        &self.entries[i]
    }

    /// Finds the position of the entry with id `id`.
    fn find(&self, id: u64) -> (r: Option<usize>)
        ensures
            match r {
                Some(i) => i < self.entries().len() && self.entries()[i as int].list.id == id,
                None => !contains_id(self.entries(), id),
            },
    {
        let n = self.entries.len();
        let mut i: usize = 0;
        while i < n
            invariant
                0 <= i <= n,
                n == self.entries().len(),
                forall|j: int| 0 <= j < i ==> self.entries()[j].list.id != id,
            decreases n - i,
        {
            if self.entries[i].list.id == id {
                return Some(i);
            }
            i = i + 1;
        }
        None
    }

    /// Looks an entry up by id.
    pub fn get(&self, id: u64) -> (r: Option<&Entry>)
        requires
            self.wf(),
        ensures
            match r {
                Some(e) => contains_id(self.entries(), id) && *e == entry_for(self.entries(), id),
                None => !contains_id(self.entries(), id),
            },
    {
        match self.find(id) {
            Some(i) => {
                proof {
                    let k = idx_of(self.entries(), id);
                    assert(0 <= k < self.entries().len() && self.entries()[k].list.id == id);
                    assert(k == i as int);
                }
                Some(&self.entries[i])
            },
            None => None,
        }
    }

    /// Whether the store holds an entry with id `id`.
    pub fn contains(&self, id: u64) -> (r: bool)
        requires
            self.wf(),
        ensures
            r == contains_id(self.entries(), id),
    {
        match self.find(id) {
            Some(_) => true,
            None => false,
        }
    }

    /// Stores a brand-new entry. The caller has checked that the id is free.
    pub fn insert_new(&mut self, e: Entry)
        requires
            old(self).wf(),
            entry_wf(e),
            !contains_id(old(self).entries(), e.list.id),
        ensures
            final(self).wf(),
            final(self).entries() == old(self).entries().push(e),
    {
        self.entries.push(e);
    }

    /// Records one more observation of the content with id `id` at time
    /// `now`: the entry's last-copied time advances and its copy count grows
    /// by one. Returns whether the id was present.
    pub fn bump(&mut self, id: u64, now: i64) -> (r: bool)
        requires
            old(self).wf(),
        ensures
            final(self).wf(),
            r == contains_id(old(self).entries(), id),
            r ==> final(self).entries() == old(self).entries().update(
                idx_of(old(self).entries(), id),
                bumped(entry_for(old(self).entries(), id), now),
            ),
            !r ==> *final(self) == *old(self),
    {
        match self.find(id) {
            Some(i) => {
                proof {
                    let k = idx_of(self.entries(), id);
                    assert(0 <= k < self.entries().len() && self.entries()[k].list.id == id);
                    assert(k == i as int);
                }
                let e = &mut self.entries[i];
                if now > e.list.copied_last {
                    e.list.copied_last = now;
                }
                if e.list.copy_count < u32::MAX {
                    e.list.copy_count = e.list.copy_count + 1;
                }
                true
            },
            None => false,
        }
    }

    /// Deletes the entry with id `id`, returning both of its records.
    /// Afterwards neither record of that id is found.
    pub fn remove_entry(&mut self, id: u64) -> (r: Option<Entry>)
        requires
            old(self).wf(),
        ensures
            final(self).wf(),
            !contains_id(final(self).entries(), id),
            match r {
                Some(e) => {
                    &&& contains_id(old(self).entries(), id)
                    &&& e == entry_for(old(self).entries(), id)
                    &&& final(self).entries() == old(self).entries().remove(
                        idx_of(old(self).entries(), id),
                    )
                },
                None => !contains_id(old(self).entries(), id) && *final(self) == *old(self),
            },
    {
        match self.find(id) {
            Some(i) => {
                proof {
                    let k = idx_of(self.entries(), id);
                    assert(0 <= k < self.entries().len() && self.entries()[k].list.id == id);
                    assert(k == i as int);
                }
                let e = self.entries.remove(i);
                proof {
                    assert forall|j: int| 0 <= j < self.entries().len() implies self.entries()[j].list.id
                        != id by {
                        if j < i {
                            assert(self.entries()[j] == old(self).entries()[j]);
                        } else {
                            assert(self.entries()[j] == old(self).entries()[j + 1]);
                        }
                    }
                }
                Some(e)
            },
            None => None,
        }
    }

    /// Whether an entry is kept by a sweep at time `now` with the retention
    /// window `max_age` (in seconds). A window of zero keeps nothing: it is
    /// the delete-all sweep.
    pub open spec fn retained(e: Entry, now: i64, max_age: i64) -> bool {
        max_age > 0 && e.list.copied_last >= now - max_age
    }

    /// The retention sweep: removes (and returns) every entry whose content
    /// is older than the retention window, in scan order; with a window of
    /// zero, every entry. Kept entries stay in order.
    pub fn sweep(&mut self, now: i64, max_age: i64) -> (removed: Vec<Entry>)
        requires
            old(self).wf(),
            0 <= max_age,
            i64::MIN + max_age <= now,
        ensures
            final(self).wf(),
            final(self).entries() == old(self).entries().filter(
                |e: Entry| Self::retained(e, now, max_age),
            ),
            removed@ == old(self).entries().filter(|e: Entry| !Self::retained(e, now, max_age)),
    {
        let ghost orig: Seq<Entry> = self.entries@;
        let n0 = self.entries.len();
        let ghost keep_p = |e: Entry| Self::retained(e, now, max_age);
        let ghost drop_p = |e: Entry| !Self::retained(e, now, max_age);
        let mut kept: Vec<Entry> = Vec::new();
        let mut removed: Vec<Entry> = Vec::new();
        let mut i: usize = 0;
        proof {
            reveal(Seq::filter);
            assert(orig.take(0) =~= Seq::<Entry>::empty());
        }
        while self.entries.len() > 0
            invariant
                0 <= i <= orig.len(),
                n0 == orig.len(),
                self.entries@ == orig.skip(i as int),
                kept@ == orig.take(i as int).filter(keep_p),
                removed@ == orig.take(i as int).filter(drop_p),
                keep_p == (|e: Entry| Self::retained(e, now, max_age)),
                drop_p == (|e: Entry| !Self::retained(e, now, max_age)),
                0 <= max_age,
                i64::MIN + max_age <= now,
            decreases self.entries@.len(),
        {
            proof {
                assert(orig.skip(i as int).len() > 0);
                assert(i < orig.len());
                crate::seq_util::lemma_skip_step(orig, i as int);
                lemma_take_step(orig, i as int);
                reveal(Seq::filter);
            }
            let e = self.entries.remove(0);
            proof {
                assert(e == orig[i as int]);
                assert(self.entries@ =~= orig.skip(i as int + 1));
                assert(orig.take(i as int + 1).drop_last() == orig.take(i as int));
                assert(orig.take(i as int + 1).last() == e);
            }
            let keep = max_age > 0 && e.list.copied_last >= now - max_age;
            if keep {
                kept.push(e);
            } else {
                removed.push(e);
            }
            i = i + 1;
        }
        proof {
            assert(orig.take(i as int) =~= orig);
        }
        self.entries = kept;
        proof {
            lemma_filter_distinct(orig, keep_p);
            assert forall|k: int| 0 <= k < self.entries().len() implies entry_wf(
                #[trigger] self.entries()[k],
            ) by {
                lemma_filter_elements(orig, keep_p);
                let a = choose|a: int| 0 <= a < orig.len() && orig[a] == orig.filter(keep_p)[k];
                assert(entry_wf(orig[a]));
            }
        }
        removed
    }
}

/// Rebuilds a store from records read back at process start: entries that
/// satisfy the entry invariant are kept, in order; a malformed entry, or one
/// whose id was already taken, is dropped.
pub open spec fn sanitized(s: Seq<Entry>) -> Seq<Entry>
    decreases s.len(),
{
    if s.len() == 0 {
        Seq::empty()
    } else {
        let prefix = sanitized(s.drop_last());
        if entry_wf(s.last()) && !contains_id(prefix, s.last().list.id) {
            prefix.push(s.last())
        } else {
            prefix
        }
    }
}

/// Checks the entry invariant.
pub fn entry_ok(e: &Entry) -> (r: bool)
    ensures
        r == entry_wf(*e),
{
    let ids_ok = e.list.id == e.detail.id;
    let times_ok = e.list.copied_first <= e.list.copied_last;
    let count_ok = e.list.copy_count >= 1;
    let kind_ok: bool = match &e.list.kind {
        ListKind::Text => matches!(&e.detail.kind, DetailKind::Text { .. }),
        ListKind::Image { thumbnail: lt } => match &e.detail.kind {
            DetailKind::Image { thumbnail: dt, .. } => lt.eq(dt),
            DetailKind::Text { .. } => false,
        },
    };
    ids_ok && times_ok && count_ok && kind_ok
}

impl RecordStore {
    /// Rebuilds a store from records read back from durable storage.
    pub fn from_records(input: Vec<Entry>) -> (r: RecordStore)
        ensures
            r.wf(),
            r.entries() == sanitized(input@),
    {
        let mut store = RecordStore::new();
        let mut rest = input;
        let ghost orig: Seq<Entry> = rest@;
        let n0 = rest.len();
        let mut i: usize = 0;
        proof {
            assert(orig.take(0) =~= Seq::<Entry>::empty());
        }
        while rest.len() > 0
            invariant
                0 <= i <= orig.len(),
                n0 == orig.len(),
                rest@ == orig.skip(i as int),
                store.wf(),
                store.entries() == sanitized(orig.take(i as int)),
            decreases rest@.len(),
        {
            proof {
                crate::seq_util::lemma_skip_step(orig, i as int);
                lemma_take_step(orig, i as int);
            }
            let e = rest.remove(0);
            proof {
                assert(e == orig[i as int]);
                assert(rest@ =~= orig.skip(i as int + 1));
            }
            if entry_ok(&e) && !store.contains(e.list.id) {
                store.insert_new(e);
            }
            i = i + 1;
        }
        proof {
            assert(orig.take(i as int) =~= orig);
        }
        store
    }
}

} // verus!
