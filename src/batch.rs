//! One page of orphan paths turned into a deduplicated insert batch and a
//! page-local table from path record to content identifier.
use vstd::prelude::*;

use crate::cas::{identifier_for, prepare_file_values, FilePathRecord, Identified, NewFile};

verus! {

/// The insert batch and lookup table built from one page.
pub struct Batch {
    /// Path record id and content identifier of each path that was identified,
    /// in page order.
    pub lookup: Vec<(i32, String)>,
    /// One content record per distinct identifier of `lookup`, in order of
    /// first appearance.
    pub values: Vec<NewFile>,
}

/// The lookup entry of the path at `k`, if it was identified.
pub open spec fn entry_at(page: Seq<FilePathRecord>, ids: Seq<Option<Identified>>, k: int) -> Option<
    (i32, Seq<char>),
> {
    match ids[k] {
        None => None,
        Some(x) => Some((page[k].id, identifier_for(page[k].is_dir, x.digest@))),
    }
}

/// The lookup entries of the first `n` paths of a page.
pub open spec fn entries_upto(page: Seq<FilePathRecord>, ids: Seq<Option<Identified>>, n: int) -> Seq<
    (i32, Seq<char>),
>
    decreases n,
{
    if n <= 0 {
        Seq::empty()
    } else {
        let prev = entries_upto(page, ids, n - 1);
        match entry_at(page, ids, n - 1) {
            None => prev,
            Some(e) => prev.push(e),
        }
    }
}

/// The content identifiers of a sequence of values.
pub open spec fn cas_ids_of(values: Seq<(Seq<char>, u64)>) -> Seq<Seq<char>> {
    values.map_values(|v: (Seq<char>, u64)| v.0)
}

/// The values to insert for the first `n` paths of a page: one per distinct
/// identifier, with the size of the first path that has it.
pub open spec fn new_files_upto(page: Seq<FilePathRecord>, ids: Seq<Option<Identified>>, n: int) -> Seq<
    (Seq<char>, u64),
>
    decreases n,
{
    if n <= 0 {
        Seq::empty()
    } else {
        let prev = new_files_upto(page, ids, n - 1);
        match ids[n - 1] {
            None => prev,
            Some(x) => {
                let c = identifier_for(page[n - 1].is_dir, x.digest@);
                if cas_ids_of(prev).contains(c) {
                    prev
                } else {
                    prev.push((c, x.size_in_bytes))
                }
            },
        }
    }
}

pub open spec fn lookup_view(lookup: Seq<(i32, String)>) -> Seq<(i32, Seq<char>)> {
    lookup.map_values(|e: (i32, String)| (e.0, e.1@))
}

pub open spec fn values_view(values: Seq<NewFile>) -> Seq<(Seq<char>, u64)> {
    values.map_values(|v: NewFile| (v.cas_id@, v.size_in_bytes))
}

impl Batch {
    pub open spec fn lookup_entries(&self) -> Seq<(i32, Seq<char>)> {
        lookup_view(self.lookup@)
    }

    pub open spec fn new_files(&self) -> Seq<(Seq<char>, u64)> {
        values_view(self.values@)
    }

    /// Whether the page produced any identifier, so that an insert is owed.
    pub fn needs_insert(&self) -> (r: bool)
        ensures
            r == (self.values@.len() > 0),
    {
        self.values.len() > 0
    }
}

/// Whether some value already carries the identifier `c`.
fn has_cas_id(values: &Vec<NewFile>, c: &String) -> (r: bool)
    ensures
        r == cas_ids_of(values_view(values@)).contains(c@),
{
    let mut j: usize = 0;
    while j < values.len()
        invariant
            j <= values@.len(),
            forall|k: int| 0 <= k < j ==> values@[k].cas_id@ != c@,
        decreases values@.len() - j,
    {
        if values[j].cas_id == *c {
            assert(cas_ids_of(values_view(values@))[j as int] == c@);
            return true;
        }
        j += 1;
    }
    assert(!cas_ids_of(values_view(values@)).contains(c@)) by {
        if cas_ids_of(values_view(values@)).contains(c@) {
            let k = choose|k: int|
                0 <= k < values@.len() && cas_ids_of(values_view(values@))[k] == c@;
            assert(values@[k].cas_id@ == c@);
        }
    }
    false
}

/// Builds the batch of a page from what identification reported for each of
/// its paths (`None` where a path could not be read). A path that failed is
/// left out; the others are not affected by it.
pub fn build_batch(page: &Vec<FilePathRecord>, identified: &Vec<Option<Identified>>) -> (r: Batch)
    requires
        identified@.len() == page@.len(),
    ensures
        r.lookup_entries() == entries_upto(page@, identified@, page@.len() as int),
        r.new_files() == new_files_upto(page@, identified@, page@.len() as int),
{
    let mut lookup: Vec<(i32, String)> = Vec::new();
    let mut values: Vec<NewFile> = Vec::new();
    let mut i: usize = 0;
    while i < page.len()
        invariant
            i <= page@.len(),
            identified@.len() == page@.len(),
            lookup_view(lookup@) == entries_upto(page@, identified@, i as int),
            values_view(values@) == new_files_upto(page@, identified@, i as int),
        decreases page@.len() - i,
    {
        let prepared = prepare_file_values(&page[i], &identified[i]);
        proof {
            reveal_with_fuel(entries_upto, 2);
            reveal_with_fuel(new_files_upto, 2);
        }
        match prepared {
            None => {},
            Some((cas_id, value)) => {
                let seen = has_cas_id(&values, &cas_id);
                lookup.push((page[i].id, cas_id));
                assert(lookup_view(lookup@) =~= entries_upto(page@, identified@, i + 1));
                if !seen {
                    values.push(value);
                    assert(values_view(values@) =~= new_files_upto(page@, identified@, i + 1));
                }
            },
        }
        i += 1;
    }
    Batch { lookup, values }
}

} // verus!
