//! The streamed-upload logic: choosing the working filename of a part and
//! accounting for its bytes against the size ceiling, chunk by chunk.

use vstd::prelude::*;
use vstd::string::StringExecFns;
use crate::sanitize::sanitize_filename;
use crate::sanitize::sanitize_spec;
use crate::trusted::fresh_id;

verus! {

/// Maximum accepted bytes per uploaded file: 10 GiB.
pub const MAX_FILE_SIZE: u64 = 10 * 1024 * 1024 * 1024;

/// What one part will be stored as: a fresh identifier and the candidate
/// filename before collision resolution.
pub struct PartPlan {
    /// Fresh identifier of this upload; 36 characters.
    pub id: String,
    /// The sanitised client-supplied name, or a synthesised
    /// `upload_<identifier>` name when the client supplied none.
    pub candidate: String,
}

/// Plans one multipart part: sanitises the client's filename when there is
/// one, else synthesises a name from a second fresh identifier, and draws
/// the fresh identifier the record will carry.
pub fn plan_part(client_name: Option<&str>) -> (p: PartPlan)
    ensures
        p.id@.len() == 36,
        match client_name {
            Some(n) => p.candidate@ == sanitize_spec(n@),
            None => p.candidate@.len() == 43 && p.candidate@.subrange(0, 7) == "upload_"@,
        },
{
    let id = fresh_id();
    let candidate = match client_name {
        Some(n) => sanitize_filename(n),
        None => {
            let fallback = fresh_id();
            let mut s = "upload_".to_owned();
            s.append(fallback.as_str());
            proof {
                reveal_strlit("upload_");
                assert(s@.subrange(0, 7) =~= "upload_"@);
            }
            s
        },
    };
    PartPlan { id, candidate }
}

/// Running byte count of one part being streamed to disk, held to the size
/// ceiling.
pub struct PartProgress {
    /// Bytes accepted so far; never above `MAX_FILE_SIZE`.
    pub total: u64,
}

impl PartProgress {
    /// The count never stands above the ceiling.
    pub open spec fn within_limit(self) -> bool {
        self.total <= MAX_FILE_SIZE
    }

    /// A part starts with no bytes written.
    pub fn new() -> (p: PartProgress)
        ensures
            p.total == 0,
            p.within_limit(),
    {
        PartProgress { total: 0 }
    }

    /// Accounts for one chunk. Accepts it exactly when the cumulative byte
    /// count stays within the ceiling; a chunk that would cross 10 GiB is
    /// refused, the count is left as it was, and the caller must abort the
    /// part, delete the partial file, and answer "payload too large".
    pub fn add_chunk(&mut self, len: usize) -> (ok: bool)
        requires
            old(self).within_limit(),
        ensures
            ok <==> old(self).total + len <= MAX_FILE_SIZE,
            ok ==> final(self).total == old(self).total + len,
            !ok ==> *final(self) == *old(self),
            final(self).within_limit(),
    {
        if len as u64 <= MAX_FILE_SIZE - self.total {
            self.total = self.total + len as u64;
            true
        } else {
            false
        }
    }
}

} // verus!
