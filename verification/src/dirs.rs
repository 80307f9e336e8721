//! Where the service keeps its data.

use std::path::Path;
use vstd::prelude::*;

verus! {

/// The author under whose name the data directory is filed.
pub const AUTHOR: &'static str = "mmacedoeu";

/// The product under whose name the data directory is filed.
pub const PRODUCT: &'static str = "swapi";

/// The data directory that is used where the platform names none.
pub const FALLBACK: &'static str = "$HOME/.swapi";

/// The name of the store's directory within the data directory.
pub const DB: &'static str = "db";

/// The directories of the service: the one that holds all of its data, and
/// the one that holds the store.
#[derive(Debug, PartialEq)]
pub struct Directories {
    pub base: String,
    pub db: String,
}

/// `text` with every occurrence of `from` replaced by `to`. Occurrences are
/// found from the left and do not overlap.
pub open spec fn replaced(text: Seq<char>, from: Seq<char>, to: Seq<char>) -> Seq<char>
    decreases text.len(),
{
    if from.len() == 0 || text.len() < from.len() {
        text
    } else if text.take(from.len() as int) == from {
        to + replaced(text.skip(from.len() as int), from, to)
    } else {
        text.take(1) + replaced(text.skip(1), from, to)
    }
}

/// A path in which `$HOME` stands for the home directory, `$BASE` for the
/// data directory, and `/` for the platform's separator, with each of them
/// filled in, in that order.
pub open spec fn expanded(
    base: Seq<char>,
    arg: Seq<char>,
    home: Seq<char>,
    separator: Seq<char>,
) -> Seq<char> {
    replaced(replaced(replaced(arg, "$HOME"@, home), "$BASE"@, base), "/"@, separator)
}

/// Calls `str::replace`. Trusted: the call returns the text with every
/// occurrence of a non-empty pattern replaced, the occurrences taken from
/// the left and not overlapping.
#[verifier::external_body]
fn replace(text: &str, from: &str, to: &str) -> (out: String)
    requires
        from@.len() > 0,
    ensures
        out@ == replaced(text@, from@, to@),
{
    text.replace(from, to)
}

/// Calls `Path::join`, which appends a path to another as the platform
/// writes paths, and renders the result. Nothing is claimed of it.
#[verifier::external_body]
fn join(base: &str, leaf: &str) -> (path: String)
{
    Path::new(base).join(leaf).to_string_lossy().into_owned()
}

/// The data directory: the one that the platform names for this product,
/// or the fallback where it names none.
pub fn default_data_path(app_root: Option<String>) -> (path: String)
    ensures
        path@ == match app_root {
            Some(root) => root@,
            None => FALLBACK@,
        },
{
    match app_root {
        Some(root) => root,
        None => String::from_str(FALLBACK),
    }
}

/// Fills in a path: `$HOME` becomes the home directory, then `$BASE` the
/// data directory, then every `/` the platform's separator.
pub fn replace_home(base: &str, arg: &str, home: &str, separator: &str) -> (path: String)
    ensures
        path@ == expanded(base@, arg@, home@, separator@),
{
    proof {
        reveal_strlit("$HOME");
        reveal_strlit("$BASE");
        reveal_strlit("/");
    }
    let r = replace(arg, "$HOME", home);
    let r = replace(r.as_str(), "$BASE", base);
    replace(r.as_str(), "/", separator)
}

/// The directory of the store within the data directory `base`.
pub fn db_root_path(base: &str) -> (path: String) {
    join(base, DB)
}

impl Directories {
    /// The directories for a data directory: the data directory with the
    /// platform's separators, and the store's directory within it.
    pub fn resolve(data_dir: &str, home: &str, separator: &str) -> (dirs: Directories)
        ensures
            dirs.base@ == expanded(data_dir@, "$BASE"@, home@, separator@),
    {
        let base = replace_home(data_dir, "$BASE", home, separator);
        Directories { db: db_root_path(base.as_str()), base }
    }

    /// These directories, with the store where the command line puts it, if
    /// it says so.
    pub fn with_db(self, db: Option<String>) -> (dirs: Directories)
        ensures
            dirs.base == self.base,
            dirs.db == match db {
                Some(path) => path,
                None => self.db,
            },
    {
        match db {
            Some(path) => Directories { base: self.base, db: path },
            None => self,
        }
    }
}

} // verus!
