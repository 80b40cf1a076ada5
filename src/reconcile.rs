//! Matching the rows that an insert created back onto the path records of a
//! page, and the assignment each path record receives.
use vstd::prelude::*;

verus! {

/// A content record that an insert newly created.
pub struct FileCreated {
    pub id: i32,
    pub cas_id: String,
}

/// How the content record of one path record is to be found.
pub enum Resolution {
    /// The insert of this page created it.
    Known { file_path_id: i32, file_id: i32 },
    /// It existed before: the store must be asked for the record with this identifier.
    Lookup { file_path_id: i32, cas_id: String },
}

/// An update of one path record: link it to a content record.
pub struct Assignment {
    pub file_path_id: i32,
    pub file_id: i32,
}

/// The id of the first created row at or after `i` whose identifier is `c`.
pub open spec fn created_from(created: Seq<FileCreated>, c: Seq<char>, i: int) -> Option<i32>
    decreases created.len() - i,
{
    if i < 0 || i >= created.len() {
        None
    } else if created[i].cas_id@ == c {
        Some(created[i].id)
    } else {
        created_from(created, c, i + 1)
    }
}

/// The id of the first created row whose identifier is `c`, if any.
pub open spec fn created_id(created: Seq<FileCreated>, c: Seq<char>) -> Option<i32> {
    created_from(created, c, 0)
}

/// How a lookup entry `(path record id, identifier)` is resolved.
pub open spec fn planned(entry: (i32, Seq<char>), created: Seq<FileCreated>) -> (i32, Option<i32>, Seq<char>) {
    (entry.0, created_id(created, entry.1), entry.1)
}

impl Resolution {
    /// The path record id, the id of a created row if one matched, and the
    /// identifier.
    pub open spec fn view_with(&self, cas: Seq<char>) -> (i32, Option<i32>, Seq<char>) {
        match self {
            Resolution::Known { file_path_id, file_id } => (*file_path_id, Some(*file_id), cas),
            Resolution::Lookup { file_path_id, cas_id } => (*file_path_id, None, cas_id@),
        }
    }

    pub open spec fn file_path_id(&self) -> i32 {
        match self {
            Resolution::Known { file_path_id, .. } => *file_path_id,
            Resolution::Lookup { file_path_id, .. } => *file_path_id,
        }
    }
}

/// The id of the first created row whose identifier is `cas_id`.
pub fn find_created(created: &Vec<FileCreated>, cas_id: &String) -> (r: Option<i32>)
    ensures
        r == created_id(created@, cas_id@),
{
    let mut j: usize = 0;
    while j < created.len()
        invariant
            j <= created@.len(),
            created_id(created@, cas_id@) == created_from(created@, cas_id@, j as int),
        decreases created@.len() - j,
    {
        if created[j].cas_id == *cas_id {
            return Some(created[j].id);
        }
        j += 1;
    }
    None
}

/// Resolves each lookup entry of a page against the rows its insert created:
/// an identifier among them gives its id at once, any other must be looked up.
pub fn plan_assignments(lookup: &Vec<(i32, String)>, created: &Vec<FileCreated>) -> (r: Vec<
    Resolution,
>)
    ensures
        r@.len() == lookup@.len(),
        forall|k: int|
            0 <= k < lookup@.len() ==> #[trigger] r@[k].view_with(lookup@[k].1@) == planned(
                (lookup@[k].0, lookup@[k].1@),
                created@,
            ),
{
    let mut r: Vec<Resolution> = Vec::new();
    let mut i: usize = 0;
    while i < lookup.len()
        invariant
            i <= lookup@.len(),
            r@.len() == i,
            forall|k: int|
                0 <= k < i ==> #[trigger] r@[k].view_with(lookup@[k].1@) == planned(
                    (lookup@[k].0, lookup@[k].1@),
                    created@,
                ),
        decreases lookup@.len() - i,
    {
        let file_path_id = lookup[i].0;
        let res = match find_created(created, &lookup[i].1) {
            Some(file_id) => Resolution::Known { file_path_id, file_id },
            None => Resolution::Lookup { file_path_id, cas_id: lookup[i].1.clone() },
        };
        r.push(res);
        i += 1;
    }
    r
}

/// The update owed for a resolution, given what the store's lookup by
/// identifier found (`None`: not found, or the lookup failed); a known row
/// needs no lookup and ignores it.
pub fn assignment_for(res: &Resolution, looked_up: Option<i32>) -> (r: Option<Assignment>)
    ensures
        match res {
            Resolution::Known { file_path_id, file_id } => r == Some(
                Assignment { file_path_id: *file_path_id, file_id: *file_id },
            ),
            Resolution::Lookup { file_path_id, .. } => match looked_up {
                None => r is None,
                Some(f) => r == Some(Assignment { file_path_id: *file_path_id, file_id: f }),
            },
        },
{
    match res {
        Resolution::Known { file_path_id, file_id } => Some(
            Assignment { file_path_id: *file_path_id, file_id: *file_id },
        ),
        Resolution::Lookup { file_path_id, .. } => match looked_up {
            None => None,
            Some(f) => Some(Assignment { file_path_id: *file_path_id, file_id: f }),
        },
    }
}

} // verus!
