//! The in-memory file registry: the authoritative ordered list of stored
//! files, rebuilt from a directory scan at startup, prepended to on upload,
//! and searched by identifier on delete.

use vstd::prelude::*;
use vstd::multiset::Multiset;
use vstd::seq_lib::to_multiset_build;
use vstd::seq_lib::to_multiset_insert;
use vstd::string::StrSliceExecFns;
use crate::record::FileRecord;
use crate::record::ScanEntry;
use crate::record::entry_key;
use crate::record::index_of_id;
use crate::record::is_dotfile;
use crate::record::lemma_index_of_id;
use crate::record::lemma_index_of_id_at;
use crate::record::rec_key;
use crate::record::sorted_desc;
use crate::record::well_formed_record;
use crate::trusted::fresh_id;
use crate::trusted::guess_mime;
use crate::trusted::mime_of;
use crate::trusted::now_millis;

verus! {

/// The scan entries that are not dotfiles, in scan order.
pub open spec fn kept_entries(s: Seq<ScanEntry>) -> Seq<ScanEntry> {
    s.filter(|e: ScanEntry| !is_dotfile(e.name@))
}

/// The keys of a sequence of scan entries.
pub open spec fn entry_keys_of(s: Seq<ScanEntry>) -> Seq<(Seq<char>, u64, i64)> {
    s.map_values(|e: ScanEntry| entry_key(e))
}

/// The keys of a sequence of records.
pub open spec fn rec_key_seq(s: Seq<FileRecord>) -> Seq<(Seq<char>, u64, i64)> {
    s.map_values(|r: FileRecord| rec_key(r))
}

/// The keys of the records, with multiplicity and without order.
pub open spec fn rec_keys(s: Seq<FileRecord>) -> Multiset<(Seq<char>, u64, i64)> {
    rec_key_seq(s).to_multiset()
}

/// The keys of the non-dotfile scan entries, with multiplicity.
pub open spec fn kept_entry_keys(s: Seq<ScanEntry>) -> Multiset<(Seq<char>, u64, i64)> {
    entry_keys_of(kept_entries(s)).to_multiset()
}

proof fn lemma_kept_entries_step(s: Seq<ScanEntry>, i: int)
    requires
        0 <= i < s.len(),
    ensures
        !is_dotfile(s[i].name@) ==> kept_entries(s.take(i + 1)) == kept_entries(s.take(i)).push(
            s[i],
        ),
        is_dotfile(s[i].name@) ==> kept_entries(s.take(i + 1)) == kept_entries(s.take(i)),
{
    reveal(Seq::filter);
    assert(s.take(i + 1).drop_last() =~= s.take(i));
    assert(s.take(i + 1).last() == s[i]);
    assert(s.take(i + 1).len() == i + 1);
}

proof fn lemma_kept_keys_step(s: Seq<ScanEntry>, i: int)
    requires
        0 <= i < s.len(),
    ensures
        !is_dotfile(s[i].name@) ==> kept_entry_keys(s.take(i + 1)) == kept_entry_keys(
            s.take(i),
        ).insert(entry_key(s[i])),
        is_dotfile(s[i].name@) ==> kept_entry_keys(s.take(i + 1)) == kept_entry_keys(s.take(i)),
{
    lemma_kept_entries_step(s, i);
    if !is_dotfile(s[i].name@) {
        let a = kept_entries(s.take(i));
        assert(entry_keys_of(a.push(s[i])) =~= entry_keys_of(a).push(entry_key(s[i])));
        to_multiset_build(entry_keys_of(a), entry_key(s[i]));
        assert(kept_entry_keys(s.take(i + 1)) =~= kept_entry_keys(s.take(i)).insert(
            entry_key(s[i]),
        ));
    }
}

/// The in-memory registry of stored files: a list kept newest first.
pub struct Registry {
    files: Vec<FileRecord>,
}

impl View for Registry {
    type V = Seq<FileRecord>;

    closed spec fn view(&self) -> Seq<FileRecord> {
        self.files@
    }
}

impl Registry {
    /// An empty registry.
    pub fn new() -> (r: Registry)
        ensures
            r@ == Seq::<FileRecord>::empty(),
    {
        Registry { files: Vec::new() }
    }

    /// How many files the registry lists.
    pub fn len(&self) -> (n: usize)
        ensures
            n == self@.len(),
    {
        self.files.len()
    }

    /// The current list, newest first, for serialisation. A read-only view:
    /// the registry itself is not changed.
    pub fn snapshot(&self) -> (v: &Vec<FileRecord>)
        ensures
            v@ == self@,
    {
        &self.files
    }

    /// Prepends a freshly uploaded record; the rest of the list keeps its
    /// order.
    pub fn insert_front(&mut self, rec: FileRecord)
        ensures
            final(self)@ == old(self)@.insert(0, rec),
    {
        self.files.insert(0, rec);
    }

    /// Removes the first record carrying `id` and returns it; when no record
    /// does, reports `None` and leaves the registry unchanged.
    pub fn remove(&mut self, id: &String) -> (r: Option<FileRecord>)
        ensures
            index_of_id(old(self)@, id@) == -1 ==> r is None && final(self)@ == old(self)@,
            index_of_id(old(self)@, id@) >= 0 ==> ({
                let i = index_of_id(old(self)@, id@);
                r == Some(old(self)@[i]) && final(self)@ == old(self)@.remove(i)
            }),
    {
        let n = self.files.len();
        let mut k: usize = 0;
        while k < n
            invariant
                self.files@ == old(self)@,
                n == self.files@.len(),
                0 <= k <= n,
                forall|j: int| 0 <= j < k ==> old(self)@[j].id@ != id@,
            decreases n - k,
        {
            if self.files[k].id == *id {
                proof {
                    lemma_index_of_id_at(old(self)@, id@, k as int);
                }
                let rec = self.files.remove(k);
                return Some(rec);
            }
            k = k + 1;
        }
        proof {
            lemma_index_of_id(old(self)@, id@);
        }
        None
    }

    /// Builds the registry from a startup scan of the upload directory:
    /// dotfiles are skipped; every other entry becomes one record with a
    /// fresh identifier and a mime guess from its name; the result is sorted
    /// by modification time, newest first.
    pub fn initialize(entries: &Vec<ScanEntry>) -> (reg: Registry)
        ensures
            sorted_desc(reg@),
            reg@.len() == kept_entries(entries@).len(),
            rec_keys(reg@) == kept_entry_keys(entries@),
            forall|i: int| 0 <= i < reg@.len() ==> well_formed_record(#[trigger] reg@[i]),
    {
        let mut files: Vec<FileRecord> = Vec::new();
        proof {
            assert(entries@.take(0) =~= Seq::<ScanEntry>::empty());
            reveal(Seq::filter);
            assert(kept_entries(Seq::<ScanEntry>::empty()) =~= Seq::<ScanEntry>::empty());
            assert(rec_key_seq(files@) =~= entry_keys_of(kept_entries(entries@.take(0))));
        }
        let mut i: usize = 0;
        while i < entries.len()
            invariant
                0 <= i <= entries@.len(),
                sorted_desc(files@),
                rec_keys(files@) == kept_entry_keys(entries@.take(i as int)),
                forall|t: int| 0 <= t < files@.len() ==> well_formed_record(#[trigger] files@[t]),
            decreases entries@.len() - i,
        {
            let name_len = entries[i].name.as_str().unicode_len();
            let dot = name_len > 0 && entries[i].name.as_str().get_char(0) == '.';
            if !dot {
                let id = fresh_id();
                let mime = guess_mime(entries[i].name.as_str());
                let rec = FileRecord {
                    id,
                    name: entries[i].name.clone(),
                    size: entries[i].size,
                    mime_type: mime,
                    uploaded_at: entries[i].modified_at,
                };
                let ghost grec = rec;
                let ghost oldf = files@;
                let flen = files.len();
                let mut j: usize = 0;
                while j < flen && files[j].uploaded_at >= rec.uploaded_at
                    invariant
                        flen == files@.len(),
                        files@ == oldf,
                        rec == grec,
                        0 <= j <= flen,
                        forall|t: int| 0 <= t < j ==> files@[t].uploaded_at >= rec.uploaded_at,
                    decreases flen - j,
                {
                    j = j + 1;
                }
                files.insert(j, rec);
                proof {
                    assert(files@ == oldf.insert(j as int, grec));
                    assert(sorted_desc(files@)) by {
                        assert(forall|a: int, b: int|
                            0 <= a <= b < files@.len() ==> files@[a].uploaded_at
                                >= files@[b].uploaded_at) by {
                            assert(forall|t: int|
                                j <= t < oldf.len() ==> oldf[t].uploaded_at
                                    <= grec.uploaded_at);
                        }
                    }
                    assert(rec_key_seq(files@) =~= rec_key_seq(oldf).insert(
                        j as int,
                        rec_key(grec),
                    ));
                    to_multiset_insert(rec_key_seq(oldf), j as int, rec_key(grec));
                    lemma_kept_keys_step(entries@, i as int);
                    assert(entry_key(entries@[i as int]) == rec_key(grec));
                    assert(rec_keys(files@) =~= kept_entry_keys(entries@.take(i + 1)));
                }
            } else {
                proof {
                    lemma_kept_keys_step(entries@, i as int);
                }
            }
            i = i + 1;
        }
        proof {
            assert(entries@.take(entries@.len() as int) =~= entries@);
            vstd::seq_lib::to_multiset_len(rec_key_seq(files@));
            vstd::seq_lib::to_multiset_len(entry_keys_of(kept_entries(entries@)));
        }
        Registry { files }
    }

    /// Completes one successfully streamed part: guesses the mime type from
    /// the final name, stamps the completion instant, prepends the new
    /// record, and returns an equal record for the response.
    pub fn finish_part(&mut self, id: String, name: String, size: u64) -> (rec: FileRecord)
        ensures
            final(self)@ == old(self)@.insert(0, rec),
            rec.id@ == id@,
            rec.name@ == name@,
            rec.size == size,
            rec.mime_type@ == mime_of(name@),
    {
        let mime = guess_mime(name.as_str());
        let stamp = now_millis();
        let rec = FileRecord { id, name, size, mime_type: mime, uploaded_at: stamp };
        let stored = FileRecord {
            id: rec.id.clone(),
            name: rec.name.clone(),
            size: rec.size,
            mime_type: rec.mime_type.clone(),
            uploaded_at: rec.uploaded_at,
        };
        proof {
            assert(stored == rec);
        }
        self.insert_front(stored);
        rec
    }
}

} // verus!
