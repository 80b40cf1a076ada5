//! Content identifiers and the per-record values prepared for insertion.
use vstd::prelude::*;
use vstd::string::*;

verus! {

/// Number of characters of a content digest kept as the content identifier.
///
/// Keeping only a prefix trades collision resistance for storage size: the
/// chance that two different contents share an identifier grows with the
/// number of files known to the system.
pub const CAS_ID_LEN: usize = 16;

/// The content identifier kept for a digest: its first `CAS_ID_LEN`
/// characters, or the whole digest when it is shorter.
pub open spec fn truncated(digest: Seq<char>) -> Seq<char> {
    if digest.len() <= CAS_ID_LEN {
        digest
    } else {
        digest.subrange(0, CAS_ID_LEN as int)
    }
}

/// Cuts a digest down to the content identifier that is stored.
pub fn truncate_cas_id(digest: &String) -> (r: String)
    ensures
        r@ == truncated(digest@),
{
    let s: &str = digest.as_str();
    let n: usize = s.unicode_len();
    if n <= CAS_ID_LEN {
        digest.clone()
    } else {
        String::from_str(s.substring_char(0, CAS_ID_LEN))
    }
}

/// A path record as the store holds it.
pub struct FilePathRecord {
    pub id: i32,
    pub location_id: i32,
    pub materialized_path: String,
    pub is_dir: bool,
    /// The content record this path is linked to; `None` while it is an orphan.
    pub file_id: Option<i32>,
}

impl FilePathRecord {
    /// A path that still waits for its content record.
    pub open spec fn orphan_in(&self, location_id: i32) -> bool {
        self.file_id is None && !self.is_dir && self.location_id == location_id
    }
}

/// What the content identifier reported for one path.
pub struct Identified {
    /// The digest of the file's bytes, before truncation.
    pub digest: String,
    /// The size of the file in bytes, as its metadata gave it.
    pub size_in_bytes: u64,
}

/// One content record to insert if its identifier is new.
pub struct NewFile {
    pub cas_id: String,
    pub size_in_bytes: u64,
}

/// The content identifier of a path: empty for a directory, which is never
/// hashed, else the truncated digest.
pub open spec fn identifier_for(is_dir: bool, digest: Seq<char>) -> Seq<char> {
    if is_dir {
        Seq::empty()
    } else {
        truncated(digest)
    }
}

/// Turns the outcome of identifying one path into its content identifier and
/// the content record to insert for it; `None` when identification failed.
pub fn prepare_file_values(file_path: &FilePathRecord, identified: &Option<Identified>) -> (r:
    Option<(String, NewFile)>)
    ensures
        identified is None <==> r is None,
        identified matches Some(x) ==> r matches Some((c, v)) && c@ == identifier_for(
            file_path.is_dir,
            x.digest@,
        ) && v.cas_id@ == c@ && v.size_in_bytes == x.size_in_bytes,
{
    match identified {
        None => None,
        Some(x) => {
            let cas_id = if file_path.is_dir {
                String::new()
            } else {
                truncate_cas_id(&x.digest)
            };
            let value = NewFile { cas_id: cas_id.clone(), size_in_bytes: x.size_in_bytes };
            Some((cas_id, value))
        },
    }
}

} // verus!
