//! The directories of the user and of the application, as the platform
//! gives them.
//!
//! Which directories there are is for the environment to say, so no
//! contract says what they are: two calls may differ. What is computed from
//! them is stated.

use std::path::PathBuf;
use vstd::prelude::*;

verus! {

/// `std::path::PathBuf`, carried through as it is.
#[verifier::external_type_specification]
#[verifier::external_body]
pub struct ExPathBuf(PathBuf);

/// `Clone::clone` of a `PathBuf` gives a duplicate of the path.
pub assume_specification[ <PathBuf as Clone>::clone ](path: &PathBuf) -> (copy: PathBuf)
    ensures
        copy == *path,
;

/// `directories::UserDirs`, carried through as it is.
#[verifier::external_type_specification]
#[verifier::external_body]
pub struct ExUserDirs(directories::UserDirs);

/// What is read of the directories of an application.
#[derive(Debug)]
pub struct ProjectPaths {
    /// The directory for the data of the application.
    pub data_dir: PathBuf,
    /// The directory for the configuration of the application.
    pub config_dir: PathBuf,
}

/// The path that `std::path::Path::join` makes of the path `base` and the
/// path whose text is `child`. How paths are joined is the platform's
/// rule; on one platform it depends on the two paths alone.
pub uninterp spec fn joined_path(base: PathBuf, child: Seq<char>) -> PathBuf;

/// The text that `std::path::Path::display` shows of a path: the path
/// itself where it is valid Unicode, and else the path with a replacement
/// character for what is not.
pub uninterp spec fn path_text(path: PathBuf) -> Seq<char>;

/// The directories of the user, from `directories::UserDirs::new`; `None`
/// where the platform knows of no home directory.
#[verifier::external_body]
pub(crate) fn user_dirs() -> Option<directories::UserDirs> {
    directories::UserDirs::new()
}

/// The home directory of the user, from `directories::UserDirs::home_dir`.
#[verifier::external_body]
pub(crate) fn user_home_dir(dirs: &directories::UserDirs) -> PathBuf {
    dirs.home_dir().to_path_buf()
}

/// What is read of the directories of an application, from
/// `directories::ProjectDirs::from` and its `data_dir` and `config_dir`;
/// `None` where the platform knows of no home directory.
#[verifier::external_body]
pub(crate) fn project_paths(
    qualifier: &str,
    organization: &str,
    application: &str,
) -> Option<ProjectPaths> {
    directories::ProjectDirs::from(qualifier, organization, application).map(
        |dirs|
            ProjectPaths {
                data_dir: dirs.data_dir().to_path_buf(),
                config_dir: dirs.config_dir().to_path_buf(),
            },
    )
}

/// `child` below `base`, from `std::path::Path::join`.
#[verifier::external_body]
pub(crate) fn path_join(base: &PathBuf, child: &str) -> (joined: PathBuf)
    ensures
        joined == joined_path(*base, child@),
{
    base.join(child)
}

/// The path as text, from `std::path::Path::display`.
#[verifier::external_body]
pub(crate) fn path_to_text(path: &PathBuf) -> (text: String)
    ensures
        text@ == path_text(*path),
{
    path.display().to_string()
}

} // verus!
