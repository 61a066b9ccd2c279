//! Result lines. A file sink gets `hash,tag,path`, machine-parseable;
//! the console gets `hash tag relative-path`, the path made relative to
//! the working directory at scan start. Writing the line anywhere is
//! the caller's business; the text itself is pinned down here.

use vstd::prelude::*;
use vstd::string::{StrSliceExecFns, StringExecFns};
use crate::content::ContentKind;
use crate::messages::FileRecord;

verus! {

/// The tag text of a record: the classification's label, or `EMPTY`
/// for a file that had no bytes at all.
pub open spec fn spec_tag(ct: Option<ContentKind>) -> Seq<char> {
    match ct {
        Option::Some(k) => k.spec_label(),
        Option::None => "EMPTY"@,
    }
}

/// Renders the tag text of a record.
pub fn tag_label(ct: &Option<ContentKind>) -> (r: String)
    ensures
        r@ == spec_tag(*ct),
{
    match ct {
        Option::Some(k) => k.label(),
        Option::None => String::from_str("EMPTY"),
    }
}

/// The line a file sink gets for one record: hash, tag and path,
/// comma-delimited, without the trailing newline.
pub open spec fn spec_file_line(rec: FileRecord) -> Seq<char> {
    rec.hash@ + ","@ + spec_tag(rec.content_type) + ","@ + rec.path@
}

/// Renders a record for the file sink.
pub fn format_file_line(rec: &FileRecord) -> (r: String)
    ensures
        r@ == spec_file_line(*rec),
{
    let mut s = rec.hash.clone();
    s.append(",");
    let tag = tag_label(&rec.content_type);
    s.append(tag.as_str());
    s.append(",");
    s.append(rec.path.as_str());
    s
}

/// The line the console gets for one record: hash, tag and the already
/// relativized path, space-delimited, without the trailing newline.
pub open spec fn spec_console_line(rec: FileRecord, relative_path: Seq<char>) -> Seq<char> {
    rec.hash@ + " "@ + spec_tag(rec.content_type) + " "@ + relative_path
}

/// Renders a record for the console.
pub fn format_console_line(rec: &FileRecord, relative_path: &str) -> (r: String)
    ensures
        r@ == spec_console_line(*rec, relative_path@),
{
    let mut s = rec.hash.clone();
    s.append(" ");
    let tag = tag_label(&rec.content_type);
    s.append(tag.as_str());
    s.append(" ");
    s.append(relative_path);
    s
}

/// A path relative to a directory: the remainder after the directory
/// prefix and its separator. `None` when the path does not lie under
/// the directory — such a path stays an error for the console sink,
/// never retried.
pub open spec fn spec_relative_to(path: Seq<char>, dir: Seq<char>) -> Option<Seq<char>> {
    if dir.len() > 0 && dir.last() == '/' {
        if dir.len() <= path.len() && path.take(dir.len() as int) == dir {
            Option::Some(path.skip(dir.len() as int))
        } else {
            Option::None
        }
    } else {
        if dir.len() < path.len() && path.take(dir.len() as int) == dir && path[dir.len() as int]
            == '/' {
            Option::Some(path.skip(dir.len() as int + 1))
        } else {
            Option::None
        }
    }
}

fn is_char_prefix(path: &str, dir: &str) -> (r: bool)
    ensures
        r == (dir@.len() <= path@.len() && path@.take(dir@.len() as int) == dir@),
{
    let plen = path.unicode_len();
    let dlen = dir.unicode_len();
    if dlen > plen {
        return false;
    }
    let mut i: usize = 0;
    while i < dlen
        invariant
            i <= dlen == dir@.len(),
            dlen <= plen == path@.len(),
            forall|j: int| 0 <= j < i ==> path@[j] == dir@[j],
        decreases dlen - i,
    {
        if path.get_char(i) != dir.get_char(i) {
            return false;
        }
        i = i + 1;
    }
    proof {
        assert(path@.take(dir@.len() as int) =~= dir@);
    }
    true
}

/// Computes the path relative to the directory, both given with the
/// canonical `/` separator.
pub fn relative_to(path: &str, dir: &str) -> (r: Option<String>)
    ensures
        r is Some <==> spec_relative_to(path@, dir@) is Some,
        r matches Some(s) ==> spec_relative_to(path@, dir@) == Option::Some(s@),
{
    let plen = path.unicode_len();
    let dlen = dir.unicode_len();
    let trailing_sep = dlen > 0 && dir.get_char(dlen - 1) == '/';
    if trailing_sep {
        if dlen <= plen && is_char_prefix(path, dir) {
            Some(String::from_str(path.substring_char(dlen, plen)))
        } else {
            None
        }
    } else {
        if dlen < plen && is_char_prefix(path, dir) && path.get_char(dlen) == '/' {
            Some(String::from_str(path.substring_char(dlen + 1, plen)))
        } else {
            None
        }
    }
}

} // verus!
