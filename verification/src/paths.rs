//! Paths as texts. The notifier leaves the shape of a path to the standard
//! library and to the `directories` crate; it only decides which parts are
//! put together.

use vstd::prelude::*;

verus! {

/// The path that `Path::join` of the standard library gives for a base and
/// a name, on the platform the crate is built for.
pub uninterp spec fn path_join(base: Seq<char>, name: Seq<char>) -> Seq<char>;

/// The path that `Path::parent` gives for a path: the path without its last
/// component, none where there is nothing above it.
pub uninterp spec fn path_parent(path: Seq<char>) -> Option<Seq<char>>;

/// The extension that `Path::extension` finds in the last component of a
/// path, none where it finds none.
pub uninterp spec fn path_extension(path: Seq<char>) -> Option<Seq<char>>;

/// Calls `Path::join`. The contract claims only that the result is the one
/// text that `Path::join` gives for these two texts.
#[verifier::external_body]
pub(crate) fn join(base: &str, name: &str) -> (joined: String)
    ensures
        joined@ == path_join(base@, name@),
{
    std::path::Path::new(base).join(name).to_string_lossy().into_owned()
}

/// Calls `Path::parent`. The contract claims only that the result is what
/// `Path::parent` gives for this text.
#[verifier::external_body]
pub(crate) fn parent(path: &str) -> (above: Option<String>)
    ensures
        match above {
            Some(directory) => path_parent(path@) == Some(directory@),
            None => path_parent(path@) is None,
        },
{
    std::path::Path::new(path).parent().map(|p| p.to_string_lossy().into_owned())
}

/// Calls `Path::extension`. The contract claims only that the result is
/// what `Path::extension` gives for this text.
#[verifier::external_body]
pub(crate) fn extension(path: &str) -> (found: Option<String>)
    ensures
        match found {
            Some(text) => path_extension(path@) == Some(text@),
            None => path_extension(path@) is None,
        },
{
    std::path::Path::new(path).extension().map(|e| e.to_string_lossy().into_owned())
}

/// The directories of a user as the `directories` crate has found them. The
/// notifier never looks inside.
#[verifier::external_type_specification]
#[verifier::external_body]
pub struct ExBaseDirs(directories::BaseDirs);

/// `BaseDirs::new` asks the operating system for the user's directories and
/// gives none where no home directory can be found. What it finds depends
/// on the user and the machine, so nothing is claimed of it.
pub assume_specification[ directories::BaseDirs::new ]() -> (found: Option<directories::BaseDirs>)
;

/// Calls `BaseDirs::data_local_dir`, which hands out the directory for
/// local data that `BaseDirs::new` has found. Nothing is claimed of it.
#[verifier::external_body]
pub(crate) fn data_local_dir(directories: &directories::BaseDirs) -> (path: String) {
    directories.data_local_dir().to_string_lossy().into_owned()
}

} // verus!
