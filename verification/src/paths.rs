//! Where the registry cache and the installed versions live on disk.
//!
//! The directories of the user come from the `dirs` crate. What is built on
//! them is stated for every directory it may answer with.

use vstd::prelude::*;
use crate::error::Error;
use crate::text::{join, join_spec};
use crate::version::Version;

verus! {

/// The application's directory below the user's local data directory.
pub open spec fn appdata_dir_spec(data_dir: Seq<char>) -> Seq<char> {
    join_spec(data_dir, "godotup"@)
}

/// The registry cache file in the application's directory.
pub open spec fn version_list_path_spec(data_dir: Seq<char>) -> Seq<char> {
    join_spec(appdata_dir_spec(data_dir), "versions.yml"@)
}

/// The directory below the user's home that holds one directory for each
/// installed version.
pub open spec fn install_root_spec(home: Seq<char>) -> Seq<char> {
    join_spec(home, ".godotup"@)
}

/// The install directory of a version: the install root joined with the
/// canonical string of the version.
pub open spec fn version_dir_spec(home: Seq<char>, vcs: Version) -> Seq<char> {
    join_spec(install_root_spec(home), vcs.canonical())
}

/// Calls `dirs::home_dir`. The answer depends on the environment of the
/// process and on the user database, so nothing is claimed of it. A home
/// directory whose name is not valid UTF-8 counts as none.
#[verifier::external_body]
fn home_dir() -> (dir: Option<String>) {
    dirs::home_dir().and_then(|p| p.into_os_string().into_string().ok())
}

/// Calls `dirs::data_local_dir`. The answer depends on the environment of
/// the process, so nothing is claimed of it. A directory whose name is not
/// valid UTF-8 counts as none.
#[verifier::external_body]
fn data_local_dir() -> (dir: Option<String>) {
    dirs::data_local_dir().and_then(|p| p.into_os_string().into_string().ok())
}

/// The application's directory, given the user's local data directory, or
/// the failure where the user has none.
pub fn appdata_dir_in(data_dir: Option<String>) -> (r: Result<String, Error>)
    ensures
        match data_dir {
            Some(dir) => r is Ok && r->Ok_0@ == appdata_dir_spec(dir@),
            None => r == Err::<String, Error>(Error::Filesystem),
        },
{
    match data_dir {
        Some(dir) => Ok(join(dir.as_str(), "godotup")),
        None => Err(Error::Filesystem),
    }
}

/// The application's directory of the current user.
pub fn appdata_dir() -> (r: Result<String, Error>)
    ensures
        match r {
            Ok(path) => exists|dir: Seq<char>| path@ == appdata_dir_spec(dir),
            Err(e) => e == Error::Filesystem,
        },
{
    appdata_dir_in(data_local_dir())
}

/// The registry cache file, given the user's local data directory, or the
/// failure where the user has none.
pub fn version_list_path_in(data_dir: Option<String>) -> (r: Result<String, Error>)
    ensures
        match data_dir {
            Some(dir) => r is Ok && r->Ok_0@ == version_list_path_spec(dir@),
            None => r == Err::<String, Error>(Error::Filesystem),
        },
{
    match appdata_dir_in(data_dir) {
        Ok(dir) => Ok(join(dir.as_str(), "versions.yml")),
        Err(e) => Err(e),
    }
}

/// The registry cache file of the current user.
pub fn version_list_path() -> (r: Result<String, Error>)
    ensures
        match r {
            Ok(path) => exists|dir: Seq<char>| path@ == version_list_path_spec(dir),
            Err(e) => e == Error::Filesystem,
        },
{
    version_list_path_in(data_local_dir())
}

/// The install root, given the user's home directory, or the failure where
/// the user has none.
pub fn install_root_in(home: Option<String>) -> (r: Result<String, Error>)
    ensures
        match home {
            Some(dir) => r is Ok && r->Ok_0@ == install_root_spec(dir@),
            None => r == Err::<String, Error>(Error::Filesystem),
        },
{
    match home {
        Some(dir) => Ok(join(dir.as_str(), ".godotup")),
        None => Err(Error::Filesystem),
    }
}

/// The install root of the current user.
pub fn install_root() -> (r: Result<String, Error>)
    ensures
        match r {
            Ok(path) => exists|dir: Seq<char>| path@ == install_root_spec(dir),
            Err(e) => e == Error::Filesystem,
        },
{
    install_root_in(home_dir())
}

/// The install directory of `vcs`, given the user's home directory, or the
/// failure where the user has none.
pub fn godot_version_dir_in(home: Option<String>, vcs: &Version) -> (r: Result<String, Error>)
    ensures
        match home {
            Some(dir) => r is Ok && r->Ok_0@ == version_dir_spec(dir@, *vcs),
            None => r == Err::<String, Error>(Error::Filesystem),
        },
{
    match install_root_in(home) {
        Ok(root) => {
            let name = vcs.format();
            Ok(join(root.as_str(), name.as_str()))
        },
        Err(e) => Err(e),
    }
}

/// The install directory of `vcs` for the current user.
pub fn godot_version_dir(vcs: &Version) -> (r: Result<String, Error>)
    ensures
        match r {
            Ok(path) => exists|dir: Seq<char>| path@ == version_dir_spec(dir, *vcs),
            Err(e) => e == Error::Filesystem,
        },
{
    godot_version_dir_in(home_dir(), vcs)
}

} // verus!
