//! The ways an operation of this library fails.

use vstd::prelude::*;
use crate::version::Version;

verus! {

/// Every failure names the thing it is about, so that a caller can report
/// it without further context.
#[derive(Clone, Debug, PartialEq, Eq)]
pub enum Error {
    /// The text is not the canonical string of any version.
    Format,
    /// No artifact is published for this operating system and processor.
    UnsupportedPlatform,
    /// The registry descriptor is missing or names a version twice.
    RegistryUnavailable,
    /// The registry has no download location for this version.
    VersionNotFound(Version),
    /// A request to `url` was refused with `status`, or the connection broke
    /// (`status` is `None`). `partial_preserved` tells whether the
    /// destination still holds bytes that a later download resumes from.
    Transfer { status: Option<u16>, url: String, partial_preserved: bool },
    /// The archive could not be read, or an entry could not be written.
    Archive,
    /// The version has no install directory.
    NotInstalled(Version),
    /// A directory or file could not be created.
    Filesystem,
}

} // verus!
