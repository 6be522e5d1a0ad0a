//! Which files of a directory are offered as databases.

use crate::page::texts;
use vstd::prelude::*;
use vstd::string::StrSliceExecFns;

verus! {

/// Whether a path ends like a database file: in `.db`, `.sqlite3` or
/// `.db3`.
pub open spec fn is_database_file(path: Seq<char>) -> bool {
    ||| ".db"@.is_suffix_of(path)
    ||| ".sqlite3"@.is_suffix_of(path)
    ||| ".db3"@.is_suffix_of(path)
}

/// The paths among `paths` that end like a database file, in their order.
pub open spec fn database_files(paths: Seq<Seq<char>>) -> Seq<Seq<char>> {
    paths.filter(|path: Seq<char>| is_database_file(path))
}

/// Whether `text` ends with `suffix`.
pub fn ends_with(text: &str, suffix: &str) -> (res: bool)
    ensures
        res == suffix@.is_suffix_of(text@),
{
    let length = text.unicode_len();
    let suffix_length = suffix.unicode_len();
    if suffix_length > length {
        return false;
    }
    let start = length - suffix_length;
    let ghost tail = text@.subrange(start as int, length as int);
    let mut i: usize = 0;
    while i < suffix_length
        invariant
            i <= suffix_length,
            suffix_length == suffix@.len(),
            length == text@.len(),
            start == length - suffix_length,
            tail == text@.subrange(start as int, length as int),
            forall|k: int| 0 <= k < i ==> suffix@[k] == #[trigger] tail[k],
        decreases suffix_length - i,
    {
        if text.get_char(start + i) != suffix.get_char(i) {
            return false;
        }
        i += 1;
    }
    true
}

/// Whether a path ends like a database file.
pub fn has_database_ending(path: &str) -> (res: bool)
    ensures
        res == is_database_file(path@),
{
    ends_with(path, ".db") || ends_with(path, ".sqlite3") || ends_with(path, ".db3")
}

/// The files among `paths` that are offered as databases: those that end
/// like a database file, in the order in which they came.
pub fn load_files(paths: &Vec<String>) -> (files: Vec<String>)
    ensures
        texts(files@) == database_files(texts(paths@)),
{
    let ghost all = texts(paths@);
    let ghost keep = |path: Seq<char>| is_database_file(path);
    let mut files: Vec<String> = Vec::new();
    proof {
        reveal(Seq::filter);
    }
    let mut i: usize = 0;
    while i < paths.len()
        invariant
            i <= paths.len(),
            all == texts(paths@),
            keep == |path: Seq<char>| is_database_file(path),
            texts(files@) == all.take(i as int).filter(keep),
        decreases paths.len() - i,
    {
        proof {
            assert(all.take(i + 1).drop_last() == all.take(i as int));
            reveal(Seq::filter);
        }
        if has_database_ending(paths[i].as_str()) {
            files.push(paths[i].clone());
        }
        i += 1;
    }
    assert(all.take(i as int) == all);
    files
}

} // verus!
