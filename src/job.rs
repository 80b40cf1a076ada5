//! The identification job: its name, the size of its work, and the cursor and
//! count it keeps while it walks the pages of orphan paths.
use vstd::prelude::*;

use crate::cas::FilePathRecord;

verus! {

/// The number of path records fetched per page.
pub const PAGE_SIZE: usize = 100;

/// The cursor of the first page: the lowest path record id.
pub const FIRST_CURSOR: i32 = 1;

/// The job that identifies the orphan paths of one location.
pub struct FileIdentifierJob {
    pub location_id: i32,
    pub path: String,
}

impl FileIdentifierJob {
    /// The name the job is registered under.
    pub fn name(&self) -> (r: &'static str)
        ensures
            r@ == "file_identifier"@,
    {
        let r = "file_identifier";
        proof {
            reveal_strlit("file_identifier");
        }
        r
    }
}

/// The number of pages that `total` orphan paths fill.
pub open spec fn pages_for(total: nat) -> nat {
    if total % (PAGE_SIZE as nat) == 0 {
        total / (PAGE_SIZE as nat)
    } else {
        total / (PAGE_SIZE as nat) + 1
    }
}

/// The task count reported for `total` orphan paths: one task per page,
/// rounded up.
pub fn task_count_for(total: usize) -> (r: usize)
    ensures
        r as nat == pages_for(total as nat),
{
    let q: usize = total / PAGE_SIZE;
    if total % PAGE_SIZE == 0 {
        q
    } else {
        q + 1
    }
}

/// The orphan total read from the rows of the count query: the count of its
/// first row, zero when there is no row or the count is null.
pub fn orphan_total(rows: &Vec<Option<usize>>) -> (r: usize)
    ensures
        rows@.len() == 0 ==> r == 0,
        rows@.len() > 0 ==> r == match rows@[0] {
            Some(n) => n,
            None => 0usize,
        },
{
    if rows.len() == 0 {
        0
    } else {
        match rows[0] {
            Some(n) => n,
            None => 0,
        }
    }
}

/// Where the job stands in its walk over the pages.
pub struct JobProgress {
    pub task_count: usize,
    pub completed: usize,
    /// The smallest path record id the next page may hold.
    pub cursor: i32,
}

impl JobProgress {
    pub open spec fn wf(&self) -> bool {
        self.completed <= self.task_count
    }

    /// The walk before any page, for a location with `total_orphans` orphan paths.
    pub fn start(total_orphans: usize) -> (r: JobProgress)
        ensures
            r.wf(),
            r.task_count as nat == pages_for(total_orphans as nat),
            r.completed == 0,
            r.cursor == FIRST_CURSOR,
    {
        JobProgress { task_count: task_count_for(total_orphans), completed: 0, cursor: FIRST_CURSOR }
    }

    /// Whether another page is to be fetched.
    pub fn wants_page(&self) -> (r: bool)
        ensures
            r == (self.completed < self.task_count),
    {
        self.completed < self.task_count
    }

    /// Records that a page was fetched and processed. An empty page ends the
    /// walk and changes nothing; otherwise the cursor moves to the id of the
    /// page's last record, whether or not that record was resolved, and one
    /// more task is complete. Returns whether another page is wanted.
    pub fn advance(&mut self, page: &Vec<FilePathRecord>) -> (more: bool)
        requires
            old(self).wf(),
            old(self).completed < old(self).task_count,
        ensures
            final(self).wf(),
            final(self).task_count == old(self).task_count,
            page@.len() == 0 ==> *final(self) == *old(self) && !more,
            page@.len() > 0 ==> final(self).cursor == page@.last().id && final(self).completed
                == old(self).completed + 1 && more == (final(self).completed
                < final(self).task_count),
    {
        if page.len() == 0 {
            return false;
        }
        self.cursor = page[page.len() - 1].id;
        self.completed = self.completed + 1;
        self.completed < self.task_count
    }
}

} // verus!
