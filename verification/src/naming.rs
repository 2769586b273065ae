//! Collision-safe naming: splitting a filename into stem and extension,
//! inserting a short identifier between them when a name is already taken,
//! and building the download `Content-Disposition` header value.

use vstd::prelude::*;
use vstd::string::StrSliceExecFns;
use vstd::string::StringExecFns;
use crate::trusted::guess_mime;
use crate::trusted::mime_of;

verus! {

/// Index of the last `.` in `s`, or -1 when `s` holds none.
pub open spec fn last_dot(s: Seq<char>) -> int
    decreases s.len(),
{
    if s.len() == 0 {
        -1
    } else if s.last() == '.' {
        s.len() - 1
    } else {
        last_dot(s.drop_last())
    }
}

pub proof fn lemma_last_dot(s: Seq<char>)
    ensures
        -1 <= last_dot(s) < s.len(),
        last_dot(s) >= 0 ==> s[last_dot(s)] == '.',
        forall|j: int| last_dot(s) < j < s.len() ==> s[j] != '.',
    decreases s.len(),
{
    if s.len() > 0 && s.last() != '.' {
        lemma_last_dot(s.drop_last());
        assert(forall|j: int|
            last_dot(s) < j < s.len() - 1 ==> s[j] == s.drop_last()[j] && s[j] != '.');
    }
}

pub proof fn lemma_last_dot_at(s: Seq<char>, i: int)
    requires
        0 <= i < s.len(),
        s[i] == '.',
        forall|j: int| i < j < s.len() ==> s[j] != '.',
    ensures
        last_dot(s) == i,
    decreases s.len(),
{
    if i < s.len() - 1 {
        assert(s.drop_last()[i] == s[i]);
        assert(forall|j: int|
            i < j < s.len() - 1 ==> s.drop_last()[j] == s[j] && s.drop_last()[j] != '.');
        lemma_last_dot_at(s.drop_last(), i);
    }
}

/// Where a name splits into stem and extension: at the last `.` when one
/// stands past the first character, else at the end (no extension). A name
/// whose only `.` is its first character, such as a dotfile, has no
/// extension.
pub open spec fn split_point(s: Seq<char>) -> int {
    if last_dot(s) >= 1 {
        last_dot(s)
    } else {
        s.len() as int
    }
}

/// The part of the name before the extension.
pub open spec fn stem_of(s: Seq<char>) -> Seq<char> {
    s.take(split_point(s))
}

/// The extension, including its leading `.`; empty when the name has none.
pub open spec fn ext_of(s: Seq<char>) -> Seq<char> {
    s.skip(split_point(s))
}

/// The name a colliding upload is stored under: `_` and the 8-character
/// identifier prefix inserted between stem and extension.
pub open spec fn resolved_name(s: Seq<char>, id8: Seq<char>) -> Seq<char> {
    stem_of(s) + seq!['_'] + id8 + ext_of(s)
}

pub proof fn lemma_split_point_bounds(s: Seq<char>)
    ensures
        0 <= split_point(s) <= s.len(),
        stem_of(s) + ext_of(s) == s,
{
    lemma_last_dot(s);
    assert(stem_of(s) + ext_of(s) =~= s);
}

/// Index of the last `.` of `name`, or `None` when it has none.
fn find_last_dot(name: &str) -> (d: Option<usize>)
    ensures
        match d {
            Some(i) => 0 <= i < name@.len() && last_dot(name@) == i,
            None => last_dot(name@) == -1,
        },
{
    let n: usize = name.unicode_len();
    let mut k: usize = n;
    while k > 0
        invariant
            n == name@.len(),
            0 <= k <= n,
            forall|j: int| k <= j < name@.len() ==> name@[j] != '.',
        decreases k,
    {
        let c = name.get_char(k - 1);
        if c == '.' {
            proof {
                lemma_last_dot_at(name@, k - 1);
            }
            return Some(k - 1);
        }
        k = k - 1;
    }
    proof {
        lemma_last_dot(name@);
    }
    None
}

/// Resolves a candidate filename against the upload directory: when no file
/// of that name exists the candidate is kept; when one does, the first 8
/// characters of the fresh identifier are inserted between the candidate's
/// stem and its extension.
pub fn resolve_collision(name: &String, id: &String, collides: bool) -> (r: String)
    requires
        id@.len() >= 8,
    ensures
        !collides ==> r@ == name@,
        collides ==> r@ == resolved_name(name@, id@.subrange(0, 8)),
{
    if !collides {
        return name.clone();
    }
    let n: usize = name.as_str().unicode_len();
    let d = find_last_dot(name.as_str());
    let sp: usize = match d {
        Some(i) => if i >= 1 { i } else { n },
        None => n,
    };
    proof {
        lemma_last_dot(name@);
        assert(sp as int == split_point(name@));
    }
    let stem = name.as_str().substring_char(0, sp);
    let ext = name.as_str().substring_char(sp, n);
    let id8 = id.as_str().substring_char(0, 8);
    let mut out = stem.to_owned();
    out.append("_");
    out.append(id8);
    out.append(ext);
    proof {
        reveal_strlit("_");
        assert("_"@ =~= seq!['_']);
        assert(out@ =~= resolved_name(name@, id@.subrange(0, 8)));
    }
    out
}

/// The `Content-Disposition` value a download answers with: `attachment`
/// with the stored filename quoted verbatim.
pub open spec fn attachment_header_spec(name: Seq<char>) -> Seq<char> {
    "attachment; filename=\""@ + name + "\""@
}

/// Builds the `Content-Disposition` header value carrying the literal
/// filename.
pub fn attachment_header(name: &str) -> (r: String)
    ensures
        r@ == attachment_header_spec(name@),
{
    let mut out = "attachment; filename=\"".to_owned();
    out.append(name);
    out.append("\"");
    out
}

/// What a download of the stored file `name` answers with: the content type
/// guessed from the name, and the `Content-Disposition` value carrying the
/// literal name.
pub fn download_headers(name: &str) -> (h: (String, String))
    ensures
        h.0@ == mime_of(name@),
        h.1@ == attachment_header_spec(name@),
{
    let mime = guess_mime(name);
    let disposition = attachment_header(name);
    (mime, disposition)
}

} // verus!
