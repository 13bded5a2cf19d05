//! The two pipelines that touch the network and the disk: installing a
//! version and refreshing the registry cache.
//!
//! Each is a machine that says what to do and is told how it went. The
//! caller downloads, extracts and renames; the order in which that happens,
//! and what a failure leaves behind, is decided here.

use vstd::prelude::*;
use vstd::string::StringExecFns;
use crate::config::CliApp;
use crate::error::Error;
use crate::registry::VersionList;
use crate::text::{join, join_spec};
use crate::version::Version;

verus! {

/// What the caller reports to a pipeline.
#[derive(Clone, Debug, PartialEq, Eq)]
pub enum Report {
    /// The pipeline is to begin.
    Start,
    /// What was asked for last has been done.
    Completed,
    /// What was asked for last has failed.
    Failed(Error),
}

/// How far the installation of one version has come.
#[derive(Clone, Copy, Debug, PartialEq, Eq, Structural)]
pub enum InstallState {
    NotInstalled,
    Downloading,
    Extracting,
    Installed,
    /// The installation was given up; the version is not installed, though
    /// a partial archive or staging directory may be left.
    Failed,
}

/// What the caller does next for an installation.
#[derive(Clone, Debug, PartialEq, Eq)]
pub enum InstallAction {
    /// Download `url` into the file `to`, resuming what is there.
    Fetch { url: String, to: String },
    /// Extract `archive` into the directory `staging`, and when every entry
    /// is written, rename `staging` to `install_dir`.
    Extract { archive: String, staging: String, install_dir: String },
    /// The version is installed; remove `archive`.
    Discard { archive: String },
    /// The installation failed for this reason.
    Abort(Error),
    /// The report does not belong to the state; nothing is to be done.
    Nothing,
}

/// The installation of one version.
#[derive(Clone, Debug, PartialEq, Eq)]
pub struct Install {
    /// The version that is installed.
    pub version: Version,
    /// Where its archive comes from.
    pub url: String,
    /// The file that the archive is downloaded into.
    pub archive_path: String,
    /// The directory that the archive is extracted into.
    pub staging_dir: String,
    /// The install directory of the version.
    pub install_dir: String,
    /// How far the installation has come.
    pub state: InstallState,
}

/// The name of a temporary file or directory: `stem`, a dot, the caller's
/// `scope`, and `ending`.
pub open spec fn scoped_name(stem: Seq<char>, scope: Seq<char>, ending: Seq<char>) -> Seq<char> {
    stem + "."@ + scope + ending
}

fn scoped(stem: &str, scope: &str, ending: &str) -> (name: String)
    ensures
        name@ == scoped_name(stem@, scope@, ending@),
{
    let mut name = String::from_str(stem);
    name.append(".");
    name.append(scope);
    name.append(ending);
    name
}

impl Install {
    /// The installation protocol: the state and the action that follow
    /// `report`. A download comes first, then the extraction, and only a
    /// completed extraction makes the version installed.
    pub open spec fn next(self, report: Report) -> (Install, InstallAction) {
        match (self.state, report) {
            (InstallState::NotInstalled, Report::Start) => (
                Install { state: InstallState::Downloading, ..self },
                InstallAction::Fetch { url: self.url, to: self.archive_path },
            ),
            (InstallState::Downloading, Report::Completed) => (
                Install { state: InstallState::Extracting, ..self },
                InstallAction::Extract {
                    archive: self.archive_path,
                    staging: self.staging_dir,
                    install_dir: self.install_dir,
                },
            ),
            (InstallState::Extracting, Report::Completed) => (
                Install { state: InstallState::Installed, ..self },
                InstallAction::Discard { archive: self.archive_path },
            ),
            (InstallState::Downloading, Report::Failed(e)) => (
                Install { state: InstallState::Failed, ..self },
                InstallAction::Abort(e),
            ),
            (InstallState::Extracting, Report::Failed(e)) => (
                Install { state: InstallState::Failed, ..self },
                InstallAction::Abort(e),
            ),
            _ => (self, InstallAction::Nothing),
        }
    }

    /// Takes one report and says what to do next.
    pub fn step(&mut self, report: Report) -> (action: InstallAction)
        ensures
            (*final(self), action) == old(self).next(report),
    {
        match self.state {
            InstallState::NotInstalled => match report {
                Report::Start => {
                    self.state = InstallState::Downloading;
                    InstallAction::Fetch { url: self.url.clone(), to: self.archive_path.clone() }
                },
                _ => InstallAction::Nothing,
            },
            InstallState::Downloading => match report {
                Report::Completed => {
                    self.state = InstallState::Extracting;
                    InstallAction::Extract {
                        archive: self.archive_path.clone(),
                        staging: self.staging_dir.clone(),
                        install_dir: self.install_dir.clone(),
                    }
                },
                Report::Failed(e) => {
                    self.state = InstallState::Failed;
                    InstallAction::Abort(e)
                },
                _ => InstallAction::Nothing,
            },
            InstallState::Extracting => match report {
                Report::Completed => {
                    self.state = InstallState::Installed;
                    InstallAction::Discard { archive: self.archive_path.clone() }
                },
                Report::Failed(e) => {
                    self.state = InstallState::Failed;
                    InstallAction::Abort(e)
                },
                _ => InstallAction::Nothing,
            },
            _ => InstallAction::Nothing,
        }
    }
}

/// A version becomes installed in one way only: its extraction completes.
/// A failure never leaves it installed.
pub proof fn lemma_installed_only_by_extraction(install: Install, report: Report)
    requires
        install.state != InstallState::Installed,
        install.next(report).0.state == InstallState::Installed,
    ensures
        install.state == InstallState::Extracting,
        report == Report::Completed,
        install.next(report).1 == (InstallAction::Discard { archive: install.archive_path }),
{
}

/// How far a refresh of the registry cache has come.
#[derive(Clone, Copy, Debug, PartialEq, Eq, Structural)]
pub enum RefreshState {
    Idle,
    Downloading,
    Replacing,
    Done,
    /// The refresh was given up; the cache is as it was.
    Failed,
}

/// What the caller does next for a refresh.
#[derive(Clone, Debug, PartialEq, Eq)]
pub enum RefreshAction {
    /// Download `url` into the file `to`.
    Fetch { url: String, to: String },
    /// Put the file `from` in the place of `to` in one step.
    Replace { from: String, to: String },
    /// The cache holds the new descriptor.
    Finish,
    /// The refresh failed for this reason.
    Abort(Error),
    /// The report does not belong to the state; nothing is to be done.
    Nothing,
}

/// One refresh of the registry cache.
#[derive(Clone, Debug, PartialEq, Eq)]
pub struct Refresh {
    /// Where the descriptor comes from.
    pub source_url: String,
    /// The file that the descriptor is downloaded into.
    pub temp_path: String,
    /// The registry cache file.
    pub cache_path: String,
    /// How far the refresh has come.
    pub state: RefreshState,
}

impl Refresh {
    /// The refresh protocol: the state and the action that follow
    /// `report`. The descriptor is downloaded beside the cache, and the
    /// cache is replaced only when the download is complete.
    pub open spec fn next(self, report: Report) -> (Refresh, RefreshAction) {
        match (self.state, report) {
            (RefreshState::Idle, Report::Start) => (
                Refresh { state: RefreshState::Downloading, ..self },
                RefreshAction::Fetch { url: self.source_url, to: self.temp_path },
            ),
            (RefreshState::Downloading, Report::Completed) => (
                Refresh { state: RefreshState::Replacing, ..self },
                RefreshAction::Replace { from: self.temp_path, to: self.cache_path },
            ),
            (RefreshState::Replacing, Report::Completed) => (
                Refresh { state: RefreshState::Done, ..self },
                RefreshAction::Finish,
            ),
            (RefreshState::Downloading, Report::Failed(e)) => (
                Refresh { state: RefreshState::Failed, ..self },
                RefreshAction::Abort(e),
            ),
            (RefreshState::Replacing, Report::Failed(e)) => (
                Refresh { state: RefreshState::Failed, ..self },
                RefreshAction::Abort(e),
            ),
            _ => (self, RefreshAction::Nothing),
        }
    }

    /// Takes one report and says what to do next.
    pub fn step(&mut self, report: Report) -> (action: RefreshAction)
        ensures
            (*final(self), action) == old(self).next(report),
    {
        match self.state {
            RefreshState::Idle => match report {
                Report::Start => {
                    self.state = RefreshState::Downloading;
                    RefreshAction::Fetch {
                        url: self.source_url.clone(),
                        to: self.temp_path.clone(),
                    }
                },
                _ => RefreshAction::Nothing,
            },
            RefreshState::Downloading => match report {
                Report::Completed => {
                    self.state = RefreshState::Replacing;
                    RefreshAction::Replace {
                        from: self.temp_path.clone(),
                        to: self.cache_path.clone(),
                    }
                },
                Report::Failed(e) => {
                    self.state = RefreshState::Failed;
                    RefreshAction::Abort(e)
                },
                _ => RefreshAction::Nothing,
            },
            RefreshState::Replacing => match report {
                Report::Completed => {
                    self.state = RefreshState::Done;
                    RefreshAction::Finish
                },
                Report::Failed(e) => {
                    self.state = RefreshState::Failed;
                    RefreshAction::Abort(e)
                },
                _ => RefreshAction::Nothing,
            },
            _ => RefreshAction::Nothing,
        }
    }
}

/// The cache is touched in one way only: it is replaced by the downloaded
/// descriptor, and that is asked for only once the download is complete.
/// No action removes the cache.
pub proof fn lemma_cache_replaced_only_after_download(refresh: Refresh, report: Report)
    ensures
        refresh.next(report).1 is Replace ==> {
            &&& refresh.state == RefreshState::Downloading
            &&& report == Report::Completed
            &&& refresh.next(report).1 == (RefreshAction::Replace {
                from: refresh.temp_path,
                to: refresh.cache_path,
            })
        },
{
}

impl CliApp {
    /// Prepares a refresh of the registry cache at `cache_path` from the
    /// configured location. The descriptor is downloaded into a file beside
    /// the cache whose name holds `scope`, which the caller chooses so that
    /// no other invocation uses the same file.
    pub fn update_version_list(&self, cache_path: &str, scope: &str) -> (refresh: Refresh)
        ensures
            refresh.source_url == self.config.version_list_proxy_url,
            refresh.cache_path@ == cache_path@,
            refresh.temp_path@ == scoped_name(cache_path@, scope@, ".tmp"@),
            refresh.state == RefreshState::Idle,
    {
        Refresh {
            source_url: self.config.version_list_proxy_url.clone(),
            temp_path: scoped(cache_path, scope, ".tmp"),
            cache_path: String::from_str(cache_path),
            state: RefreshState::Idle,
        }
    }

    /// Prepares the installation of `version` below `install_root`: looks
    /// up where its archive comes from and names the files it will use. The
    /// archive is downloaded into `temp_dir` under the canonical string of
    /// the version, and extracted beside the install directory; both names
    /// hold `scope`, which the caller chooses so that no other invocation
    /// uses the same files. A version that the registry does not hold is
    /// refused.
    pub fn install_godot(
        &self,
        list: &VersionList,
        version: &Version,
        temp_dir: &str,
        install_root: &str,
        scope: &str,
    ) -> (r: Result<Install, Error>)
        ensures
            match r {
                Ok(install) => {
                    &&& list@.contains_key(*version)
                    &&& install.version == *version
                    &&& install.url@ == list@[*version]
                    &&& install.archive_path@ == join_spec(
                        temp_dir@,
                        scoped_name(version.canonical(), scope@, ".zip"@),
                    )
                    &&& install.install_dir@ == join_spec(install_root@, version.canonical())
                    &&& install.staging_dir@ == scoped_name(
                        join_spec(install_root@, version.canonical()),
                        scope@,
                        ".partial"@,
                    )
                    &&& install.state == InstallState::NotInstalled
                },
                Err(e) => !list@.contains_key(*version) && e == Error::VersionNotFound(*version),
            },
    {
        let url = match list.lookup(version) {
            Ok(url) => url,
            Err(e) => { return Err(e); },
        };
        let name = version.format();
        let archive_name = scoped(name.as_str(), scope, ".zip");
        let install_dir = join(install_root, name.as_str());
        Ok(
            Install {
                version: *version,
                url,
                archive_path: join(temp_dir, archive_name.as_str()),
                staging_dir: scoped(install_dir.as_str(), scope, ".partial"),
                install_dir,
                state: InstallState::NotInstalled,
            },
        )
    }
}

} // verus!
