//! Where the databases of one cell are kept.

use std::path::{Path, PathBuf};
use vstd::prelude::*;
use vstd::std_specs::convert::FromSpecImpl;

verus! {

#[verifier::external_type_specification]
#[verifier::external_body]
pub struct ExPathBuf(PathBuf);

#[verifier::external_type_specification]
#[verifier::external_body]
pub struct ExPath(Path);

/// The text of an owned path, decoded lossily.
pub uninterp spec fn path_buf_text(path: PathBuf) -> Seq<char>;

/// The text of a borrowed path, decoded lossily.
pub uninterp spec fn path_text(path: &Path) -> Seq<char>;

/// Trusted: `Clone` for `PathBuf`, which gives the same path again.
pub assume_specification[ <PathBuf as Clone>::clone ](path: &PathBuf) -> (copy: PathBuf)
    ensures
        path_buf_text(copy) == path_buf_text(*path),
;

/// The empty path.
///
/// Trusted: calls `PathBuf::new`, which std documents to allocate an empty
/// path.
#[verifier::external_body]
fn empty_path() -> (path: PathBuf)
    ensures
        path_buf_text(path) == Seq::<char>::empty(),
{
    PathBuf::new()
}

/// Borrows an owned path.
///
/// Trusted: calls `PathBuf::as_path`, which std documents to coerce to a
/// `Path` slice: the same path, borrowed.
#[verifier::external_body]
fn borrow_path(path: &PathBuf) -> (borrowed: &Path)
    ensures
        path_text(borrowed) == path_buf_text(*path),
{
    path.as_path()
}

/// The directory of the databases of a cell, relative to the root under
/// which an environment keeps them.
#[derive(Debug)]
pub struct DatabasePath(PathBuf);

impl Clone for DatabasePath {
    fn clone(&self) -> (copy: Self)
        ensures
            copy@ == self@,
    {
        DatabasePath(self.0.clone())
    }
}

impl View for DatabasePath {
    type V = Seq<char>;

    closed spec fn view(&self) -> Seq<char> {
        path_buf_text(self.0)
    }
}

impl From<(String, String)> for DatabasePath {
    /// Names the path for a content address and the address of an agent,
    /// each given as the text it displays. Every pair is kept directly
    /// under the root: the path is empty.
    fn from(pair: (String, String)) -> (path: Self)
        ensures
            path@ == Seq::<char>::empty(),
    {
        DatabasePath(empty_path())
    }
}

impl FromSpecImpl<(String, String)> for DatabasePath {
    /// Paths are told apart by their text, so the result is fixed by the
    /// `ensures` of `from` and not by a value.
    open spec fn obeys_from_spec() -> bool {
        false
    }

    open spec fn from_spec(pair: (String, String)) -> Self {
        arbitrary()
    }
}

impl AsRef<Path> for DatabasePath {
    fn as_ref(&self) -> (path: &Path)
        ensures
            path_text(path) == self@,
    {
        borrow_path(&self.0)
    }
}

} // verus!
