//! Where the store lives and what a rebuild leaves in it.
use vstd::prelude::*;
use crate::error::IndexError;
use crate::rows::{IndexRowsView, StoreView};

verus! {

/// Whether `c` separates the components of a path.
pub open spec fn is_separator(c: char) -> bool {
    c == '/' || c == '\\'
}

/// The path of the store file inside directory `dir`: the file name is
/// joined with a `/` unless `dir` is empty or already ends with a separator.
pub open spec fn store_path_of(dir: Seq<char>) -> Seq<char> {
    if dir.len() == 0 || is_separator(dir.last()) {
        dir + "library.sqlite"@
    } else {
        dir + "/"@ + "library.sqlite"@
    }
}

/// The path of the store file inside the index directory `index_dir`.
pub fn sqlite_path(index_dir: &str) -> (r: String)
    ensures
        r@ == store_path_of(index_dir@),
{
    let mut path = index_dir.to_owned();
    let n = index_dir.unicode_len();
    if n > 0 {
        let last = index_dir.get_char(n - 1);
        if last != '/' && last != '\\' {
            path.append("/");
        }
    }
    path.append("library.sqlite");
    path
}

/// The contents of the store after a rebuild that was handed `plan`, the
/// outcome of decoding a manifest. A rebuild deletes every row and the
/// version marker and writes the plan's rows and a new marker, all in one
/// transaction: on success the store holds exactly the plan, on failure it is
/// left as it was.
pub open spec fn store_after_rebuild(prior: StoreView, plan: Result<IndexRowsView, IndexError>) -> StoreView {
    match plan {
        Ok(rows) => StoreView { initialized: true, folders: rows.folders, audios: rows.audios },
        Err(_) => prior,
    }
}

} // verus!
