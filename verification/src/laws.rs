//! Properties that relate several operations of the library, stated and
//! proved over the same spec functions the operations' contracts use.

use vstd::prelude::*;
use crate::naming::attachment_header_spec;
use crate::naming::ext_of;
use crate::naming::lemma_split_point_bounds;
use crate::naming::resolved_name;
use crate::naming::split_point;
use crate::naming::stem_of;
use crate::record::FileRecord;
use crate::record::index_of_id;
use crate::record::lemma_index_of_id;
use crate::record::unique_ids;

verus! {

/// Uploading a name that is already taken stores the part under a different
/// name: with the 8-character identifier prefix inserted between stem and
/// extension, the resolved name is 9 characters longer than the name it
/// collided with, so the two on-disk names are distinct.
pub proof fn lemma_resolved_name_differs(s: Seq<char>, id8: Seq<char>)
    requires
        id8.len() == 8,
    ensures
        resolved_name(s, id8).len() == s.len() + 9,
        resolved_name(s, id8) != s,
{
    lemma_split_point_bounds(s);
    assert(stem_of(s).len() + ext_of(s).len() == s.len());
}

/// Deleting a present identifier removes exactly one record; in a registry
/// whose identifiers are unique, a second delete of the same identifier
/// finds nothing, and the remove operation then leaves the registry
/// unchanged.
pub proof fn lemma_delete_twice(s: Seq<FileRecord>, id: Seq<char>)
    requires
        unique_ids(s),
        index_of_id(s, id) >= 0,
    ensures
        s.remove(index_of_id(s, id)).len() == s.len() - 1,
        index_of_id(s.remove(index_of_id(s, id)), id) == -1,
{
    let i = index_of_id(s, id);
    lemma_index_of_id(s, id);
    let s2 = s.remove(i);
    assert(forall|j: int| 0 <= j < i ==> s2[j] == s[j]);
    assert(forall|j: int| i <= j < s2.len() ==> s2[j] == s[j + 1]);
    assert forall|j: int| 0 <= j < s2.len() implies s2[j].id@ != id by {
        if j < i {
            assert(s2[j] == s[j]);
        } else {
            assert(s2[j] == s[j + 1]);
            assert(s[i].id@ != s[j + 1].id@);
        }
    }
    lemma_index_of_id(s2, id);
    if index_of_id(s2, id) >= 0 {
        assert(s2[index_of_id(s2, id)].id@ == id);
    }
}

/// Listing after two sequential uploads is most-recent-first: the second
/// upload stands at the head, the first right behind it, and the earlier
/// records follow in their old order.
pub proof fn lemma_listing_most_recent_first(
    s: Seq<FileRecord>,
    first_upload: FileRecord,
    second_upload: FileRecord,
)
    ensures
        s.insert(0, first_upload).insert(0, second_upload).len() == s.len() + 2,
        s.insert(0, first_upload).insert(0, second_upload)[0] == second_upload,
        s.insert(0, first_upload).insert(0, second_upload)[1] == first_upload,
        forall|j: int|
            0 <= j < s.len() ==> s.insert(0, first_upload).insert(0, second_upload)[j + 2]
                == s[j],
{
}

/// The download answer's `Content-Disposition` value carries the stored
/// filename literally: the characters after the opening quote are exactly
/// the name.
pub proof fn lemma_header_carries_name(name: Seq<char>)
    ensures
        attachment_header_spec(name).len() == name.len() + 23,
        attachment_header_spec(name).subrange(22, 22 + name.len() as int) == name,
{
    reveal_strlit("attachment; filename=\"");
    reveal_strlit("\"");
    assert(attachment_header_spec(name).subrange(22, 22 + name.len() as int) =~= name);
}

} // verus!
