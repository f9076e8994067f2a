//! Serving the pages of the site itself.
//!
//! A page is asked for by a path below the directory of static files. A path
//! is written here as its segments, in order, without separators: the path of
//! the directory itself has none.

use vstd::prelude::*;
use vstd::string::*;

verus! {

/// The name of the file that stands for a directory.
pub open spec fn index_file() -> Seq<char> {
    "index.html"@
}

/// The file to serve for a path, given whether the path is a directory: the
/// directory's index, or else the path itself.
pub open spec fn served_file(path: Seq<Seq<char>>, is_dir: bool) -> Seq<Seq<char>> {
    if is_dir {
        path.push(index_file())
    } else {
        path
    }
}

/// Which file to open for a page, once it is known whether the path that was
/// asked for is a directory. Whether that file is there is for the caller to
/// find out; a file that is not is answered as not found.
pub fn serve_home_page(path: Vec<String>, is_dir: bool) -> (file: Vec<String>)
    ensures
        file.deep_view() == served_file(path.deep_view(), is_dir),
{
    let mut file = path;
    if is_dir {
        file.push(String::from_str("index.html"));
    }
    file
}

/// The file served for a path lies at or just below it: nothing before the
/// end of the path is touched, and at most one name is added.
pub proof fn lemma_served_file_extends_path(path: Seq<Seq<char>>, is_dir: bool)
    ensures
        path.is_prefix_of(served_file(path, is_dir)),
        served_file(path, is_dir).len() == path.len() + (if is_dir { 1int } else { 0int }),
        is_dir ==> served_file(path, is_dir).last() == index_file(),
{
}

} // verus!
