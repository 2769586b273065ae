//! The registry's data: one record per stored file, the entries a directory
//! scan hands over at startup, and the orderings and searches the registry's
//! contracts speak of.

use vstd::prelude::*;
use crate::trusted::mime_of;

verus! {

/// One stored file, as the registry lists it.
pub struct FileRecord {
    /// Opaque unique identifier, assigned when the record is created and
    /// never derived from the name or the content.
    pub id: String,
    /// Sanitised, collision-resolved filename as stored on disk.
    pub name: String,
    /// Byte length, exact to the byte.
    pub size: u64,
    /// Best-effort content-type guess from the name's extension.
    pub mime_type: String,
    /// Upload completion instant, or the on-disk modification time for
    /// files found at startup, in milliseconds since the Unix epoch.
    pub uploaded_at: i64,
}

/// What a directory scan reports of one existing file.
pub struct ScanEntry {
    pub name: String,
    pub size: u64,
    pub modified_at: i64,
}

/// The registry lists newest first.
pub open spec fn sorted_desc(s: Seq<FileRecord>) -> bool {
    forall|i: int, j: int|
        0 <= i <= j < s.len() ==> s[i].uploaded_at >= s[j].uploaded_at
}

/// No two records carry the same identifier.
pub open spec fn unique_ids(s: Seq<FileRecord>) -> bool {
    forall|i: int, j: int| 0 <= i < j < s.len() ==> s[i].id@ != s[j].id@
}

/// Index of the first record carrying `id`, or -1 when none does.
pub open spec fn index_of_id(s: Seq<FileRecord>, id: Seq<char>) -> int
    decreases s.len(),
{
    if s.len() == 0 {
        -1
    } else if s[0].id@ == id {
        0
    } else if index_of_id(s.drop_first(), id) == -1 {
        -1
    } else {
        1 + index_of_id(s.drop_first(), id)
    }
}

pub proof fn lemma_index_of_id(s: Seq<FileRecord>, id: Seq<char>)
    ensures
        -1 <= index_of_id(s, id) < s.len(),
        index_of_id(s, id) >= 0 ==> s[index_of_id(s, id)].id@ == id,
        index_of_id(s, id) == -1 ==> forall|j: int| 0 <= j < s.len() ==> s[j].id@ != id,
        forall|j: int| 0 <= j < index_of_id(s, id) ==> s[j].id@ != id,
    decreases s.len(),
{
    if s.len() > 0 && s[0].id@ != id {
        lemma_index_of_id(s.drop_first(), id);
        assert(forall|j: int| 1 <= j < s.len() ==> s[j] == s.drop_first()[j - 1]);
    }
}

pub proof fn lemma_index_of_id_at(s: Seq<FileRecord>, id: Seq<char>, i: int)
    requires
        0 <= i < s.len(),
        s[i].id@ == id,
        forall|j: int| 0 <= j < i ==> s[j].id@ != id,
    ensures
        index_of_id(s, id) == i,
    decreases s.len(),
{
    if i > 0 {
        assert(s.drop_first()[i - 1] == s[i]);
        assert(forall|j: int| 0 <= j < i - 1 ==> s.drop_first()[j] == s[j + 1]);
        lemma_index_of_id_at(s.drop_first(), id, i - 1);
    }
}

/// A dotfile: a name whose first character is `.`; the startup scan skips
/// these.
pub open spec fn is_dotfile(name: Seq<char>) -> bool {
    name.len() > 0 && name[0] == '.'
}

/// What identifies a record independently of the process: name, size and
/// timestamp. Identifiers and mime guesses are assigned at record creation.
pub open spec fn rec_key(r: FileRecord) -> (Seq<char>, u64, i64) {
    (r.name@, r.size, r.uploaded_at)
}

pub open spec fn entry_key(e: ScanEntry) -> (Seq<char>, u64, i64) {
    (e.name@, e.size, e.modified_at)
}

/// A record the startup scan builds: the mime guess follows the name, and
/// the identifier has the generated 36-character shape.
pub open spec fn well_formed_record(r: FileRecord) -> bool {
    r.mime_type@ == mime_of(r.name@) && r.id@.len() == 36
}

} // verus!
