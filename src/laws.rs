//! Properties of the identification of a page, stated over the models that
//! the functions' contracts use.
use vstd::prelude::*;

use crate::batch::{cas_ids_of, entries_upto, entry_at, new_files_upto};
use crate::cas::{identifier_for, FilePathRecord, Identified};
use crate::job::pages_for;
use crate::reconcile::{created_from, created_id, planned, Assignment, FileCreated};

verus! {

/// The number of orphan paths of a location among the given records.
pub open spec fn orphan_count(rows: Seq<FilePathRecord>, location_id: i32) -> nat {
    rows.filter(|r: FilePathRecord| r.orphan_in(location_id)).len()
}

/// A path record after an assignment to it has been written.
pub open spec fn assigned(rec: FilePathRecord, a: Assignment) -> FilePathRecord {
    FilePathRecord { file_id: Some(a.file_id), ..rec }
}

/// A path record that received its assignment is no orphan any more, so no
/// later page fetch offers it again.
pub proof fn lemma_assigned_not_orphan(rec: FilePathRecord, a: Assignment, location_id: i32)
    requires
        a.file_path_id == rec.id,
    ensures
        !assigned(rec, a).orphan_in(location_id),
        assigned(rec, a).file_id == Some(a.file_id),
{
}

/// Running again over a location whose paths are all resolved does no work:
/// the count finds no orphan, the task count is zero, and no page is fetched,
/// so nothing is inserted or updated.
pub proof fn lemma_rerun_is_idle(rows: Seq<FilePathRecord>, location_id: i32)
    requires
        forall|k: int| 0 <= k < rows.len() ==> !(#[trigger] rows[k]).orphan_in(location_id),
    ensures
        orphan_count(rows, location_id) == 0,
        pages_for(orphan_count(rows, location_id)) == 0,
{
    let f = rows.filter(|r: FilePathRecord| r.orphan_in(location_id));
    if f.len() > 0 {
        let pred = |r: FilePathRecord| r.orphan_in(location_id);
        assert(f.contains(f[0]));
        rows.lemma_filter_pred(pred, 0);
        rows.lemma_filter_contains_rev(pred, f[0]);
        let k = choose|k: int| 0 <= k < rows.len() && rows[k] == f[0];
        assert(!rows[k].orphan_in(location_id));
    }
}

/// A location without orphan paths has no task, and its job fetches no page.
pub proof fn lemma_no_orphans_no_tasks()
    ensures
        pages_for(0) == 0,
{
}

/// The values of a page hold each content identifier at most once.
pub proof fn lemma_new_files_distinct(page: Seq<FilePathRecord>, ids: Seq<Option<Identified>>, n: int)
    requires
        0 <= n <= page.len(),
        ids.len() == page.len(),
    ensures
        forall|a: int, b: int|
            0 <= a < b < new_files_upto(page, ids, n).len() ==> new_files_upto(page, ids, n)[a].0
                != new_files_upto(page, ids, n)[b].0,
    decreases n,
{
    if n > 0 {
        lemma_new_files_distinct(page, ids, n - 1);
        let prev = new_files_upto(page, ids, n - 1);
        let cur = new_files_upto(page, ids, n);
        assert forall|a: int, b: int| 0 <= a < b < cur.len() implies cur[a].0 != cur[b].0 by {
            if b == prev.len() && cur.len() > prev.len() {
                if cur[a].0 == cur[b].0 {
                    assert(cas_ids_of(prev)[a] == cur[b].0);
                }
            }
        }
    }
}

/// Every identifier of the lookup table of a page is carried by one of the
/// page's values, so the insert offers it to the store.
pub proof fn lemma_entries_covered(page: Seq<FilePathRecord>, ids: Seq<Option<Identified>>, n: int)
    requires
        0 <= n <= page.len(),
        ids.len() == page.len(),
    ensures
        forall|k: int|
            0 <= k < entries_upto(page, ids, n).len() ==> cas_ids_of(new_files_upto(page, ids, n)).contains(
                (#[trigger] entries_upto(page, ids, n)[k]).1,
            ),
    decreases n,
{
    if n > 0 {
        lemma_entries_covered(page, ids, n - 1);
        let prev = new_files_upto(page, ids, n - 1);
        let cur = new_files_upto(page, ids, n);
        let pe = entries_upto(page, ids, n - 1);
        let ce = entries_upto(page, ids, n);
        assert forall|k: int| 0 <= k < ce.len() implies cas_ids_of(cur).contains(
            (#[trigger] ce[k]).1,
        ) by {
            if k < pe.len() {
                assert(ce[k] == pe[k]);
                let j = choose|j: int| 0 <= j < cas_ids_of(prev).len() && cas_ids_of(prev)[j] == pe[k].1;
                assert(cas_ids_of(cur)[j] == pe[k].1);
            } else {
                if !cas_ids_of(prev).contains(ce[k].1) {
                    assert(cas_ids_of(cur)[prev.len() as int] == ce[k].1);
                }
            }
        }
    }
}

/// Paths of a page whose bytes gave the same content identifier are resolved
/// alike: both have their entry in the lookup table, and both go to the same
/// created row, or both to a lookup of the same identifier.
pub proof fn lemma_same_content_same_record(
    page: Seq<FilePathRecord>,
    ids: Seq<Option<Identified>>,
    created: Seq<FileCreated>,
    k1: int,
    k2: int,
)
    requires
        0 <= k1 < page.len(),
        0 <= k2 < page.len(),
        ids.len() == page.len(),
        ids[k1] is Some,
        ids[k2] is Some,
        identifier_for(page[k1].is_dir, ids[k1]->Some_0.digest@) == identifier_for(
            page[k2].is_dir,
            ids[k2]->Some_0.digest@,
        ),
    ensures
        ({
            let c = identifier_for(page[k1].is_dir, ids[k1]->Some_0.digest@);
            let entries = entries_upto(page, ids, page.len() as int);
            &&& entries.contains((page[k1].id, c))
            &&& entries.contains((page[k2].id, c))
            &&& planned((page[k1].id, c), created).1 == planned((page[k2].id, c), created).1
            &&& planned((page[k1].id, c), created).2 == planned((page[k2].id, c), created).2
        }),
{
    lemma_identified_has_entry(page, ids, k1, page.len() as int);
    lemma_identified_has_entry(page, ids, k2, page.len() as int);
}

/// A created row that an identifier resolves to carries that identifier.
pub proof fn lemma_created_id_matches(created: Seq<FileCreated>, c: Seq<char>, i: int)
    requires
        0 <= i,
        created_from(created, c, i) is Some,
    ensures
        exists|j: int|
            i <= j < created.len() && (#[trigger] created[j]).cas_id@ == c && created[j].id
                == created_from(created, c, i)->Some_0,
    decreases created.len() - i,
{
    if created[i].cas_id@ != c {
        lemma_created_id_matches(created, c, i + 1);
    }
}

/// Every path of a page that could be identified has its entry in the page's
/// lookup table, under its own id and the identifier computed from its bytes.
pub proof fn lemma_identified_has_entry(page: Seq<FilePathRecord>, ids: Seq<Option<Identified>>, k: int, n: int)
    requires
        0 <= k < n <= page.len(),
        ids.len() == page.len(),
        ids[k] is Some,
    ensures
        entries_upto(page, ids, n).contains(
            (page[k].id, identifier_for(page[k].is_dir, ids[k]->Some_0.digest@)),
        ),
    decreases n,
{
    let e = (page[k].id, identifier_for(page[k].is_dir, ids[k]->Some_0.digest@));
    if k == n - 1 {
        assert(entries_upto(page, ids, n) == entries_upto(page, ids, n - 1).push(e));
        assert(entries_upto(page, ids, n)[entries_upto(page, ids, n - 1).len() as int] == e);
    } else {
        lemma_identified_has_entry(page, ids, k, n - 1);
        let prev = entries_upto(page, ids, n - 1);
        let j = choose|j: int| 0 <= j < prev.len() && prev[j] == e;
        match entry_at(page, ids, n - 1) {
            None => {},
            Some(x) => {
                assert(entries_upto(page, ids, n)[j] == e);
            },
        }
    }
}

/// No identified path is lost: its entry stands in the page's lookup table,
/// and the resolution of that entry either names a created row that carries
/// the path's identifier, or asks the store for that very identifier.
pub proof fn lemma_no_lost_update(
    page: Seq<FilePathRecord>,
    ids: Seq<Option<Identified>>,
    created: Seq<FileCreated>,
    k: int,
)
    requires
        0 <= k < page.len(),
        ids.len() == page.len(),
        ids[k] is Some,
    ensures
        ({
            let c = identifier_for(page[k].is_dir, ids[k]->Some_0.digest@);
            let p = planned((page[k].id, c), created);
            &&& entries_upto(page, ids, page.len() as int).contains((page[k].id, c))
            &&& p.0 == page[k].id
            &&& p.2 == c
            &&& (p.1 matches Some(f) ==> exists|j: int|
                0 <= j < created.len() && (#[trigger] created[j]).cas_id@ == c && created[j].id == f)
        }),
{
    let c = identifier_for(page[k].is_dir, ids[k]->Some_0.digest@);
    lemma_identified_has_entry(page, ids, k, page.len() as int);
    if created_id(created, c) is Some {
        lemma_created_id_matches(created, c, 0);
    }
}

/// When one path of a page fails to be identified, the lookup table of the
/// page is the one it would otherwise have, less that path's entry: every
/// other path is resolved as before.
pub proof fn lemma_failure_isolated(page: Seq<FilePathRecord>, ids: Seq<Option<Identified>>, k: int, n: int)
    requires
        0 <= k < n <= page.len(),
        ids.len() == page.len(),
        ids[k] is Some,
    ensures
        entries_upto(page, ids.update(k, None), n) == entries_upto(page, ids, n).remove(
            entries_upto(page, ids, k).len() as int,
        ),
    decreases n,
{
    let ids2 = ids.update(k, None);
    lemma_prefix_unchanged(page, ids, ids2, k);
    if n == k + 1 {
        assert(entries_upto(page, ids2, n) == entries_upto(page, ids2, k));
        assert(entries_upto(page, ids, n) == entries_upto(page, ids, k).push(entry_at(page, ids, k)->Some_0));
        assert(entries_upto(page, ids, n).remove(entries_upto(page, ids, k).len() as int)
            =~= entries_upto(page, ids, k));
    } else {
        lemma_failure_isolated(page, ids, k, n - 1);
        lemma_entries_len_grows(page, ids, k + 1, n - 1);
        let idx = entries_upto(page, ids, k).len() as int;
        let prev = entries_upto(page, ids, n - 1);
        assert(entry_at(page, ids2, n - 1) == entry_at(page, ids, n - 1));
        match entry_at(page, ids, n - 1) {
            None => {},
            Some(e) => {
                assert(prev.push(e).remove(idx) =~= prev.remove(idx).push(e));
            },
        }
    }
}

proof fn lemma_prefix_unchanged(
    page: Seq<FilePathRecord>,
    ids: Seq<Option<Identified>>,
    ids2: Seq<Option<Identified>>,
    n: int,
)
    requires
        0 <= n <= page.len(),
        ids.len() == page.len(),
        ids2.len() == page.len(),
        forall|j: int| 0 <= j < n ==> ids[j] == ids2[j],
    ensures
        entries_upto(page, ids, n) == entries_upto(page, ids2, n),
    decreases n,
{
    if n > 0 {
        lemma_prefix_unchanged(page, ids, ids2, n - 1);
    }
}

proof fn lemma_entries_len_grows(page: Seq<FilePathRecord>, ids: Seq<Option<Identified>>, m: int, n: int)
    requires
        0 <= m <= n <= page.len(),
        ids.len() == page.len(),
    ensures
        entries_upto(page, ids, m).len() <= entries_upto(page, ids, n).len(),
    decreases n,
{
    if m < n {
        lemma_entries_len_grows(page, ids, m, n - 1);
    }
}

} // verus!
