//! Which versions are installed.
//!
//! A version is installed exactly when its install directory is present.
//! The store holds the names of the directories that the caller found below
//! the install root; nothing else records an installation.

use vstd::prelude::*;
use crate::error::Error;
use crate::text::{join, join_spec, same_text};
use crate::version::Version;

verus! {

/// The install root and the directories present below it.
#[derive(Clone, Debug, PartialEq, Eq)]
pub struct InstallationStore {
    /// The directory that holds one directory for each installed version.
    pub root: String,
    /// The names of the directories present below the root.
    pub present: Vec<String>,
}

impl InstallationStore {
    /// Whether a directory called `name` is present below the root.
    pub open spec fn holds(self, name: Seq<char>) -> bool {
        exists|i: int| 0 <= i < self.present.len() && (#[trigger] self.present[i])@ == name
    }

    /// Whether the install directory of `id` is present.
    pub open spec fn installed(self, id: Version) -> bool {
        self.holds(id.canonical())
    }

    /// The install directory of `id`: the root joined with the canonical
    /// string of `id`.
    pub open spec fn install_dir_spec(self, id: Version) -> Seq<char> {
        join_spec(self.root@, id.canonical())
    }

    /// The store over `root`, where the directories named in `present` were
    /// found.
    pub fn new(root: String, present: Vec<String>) -> (store: InstallationStore)
        ensures
            store.root == root,
            store.present == present,
    {
        InstallationStore { root, present }
    }

    /// The install directory of `id`.
    pub fn install_dir(&self, id: &Version) -> (dir: String)
        ensures
            dir@ == self.install_dir_spec(*id),
    {
        let name = id.format();
        join(self.root.as_str(), name.as_str())
    }

    /// Whether `id` is installed.
    pub fn is_installed(&self, id: &Version) -> (installed: bool)
        ensures
            installed == self.installed(*id),
    {
        let name = id.format();
        let mut i: usize = 0;
        while i < self.present.len()
            invariant
                i <= self.present.len(),
                name@ == id.canonical(),
                forall|k: int| 0 <= k < i ==> (#[trigger] self.present[k])@ != name@,
            decreases self.present.len() - i,
        {
            if same_text(self.present[i].as_str(), name.as_str()) {
                return true;
            }
            i += 1;
        }
        false
    }

    /// Succeeds where `id` is installed, and else fails naming `id`.
    pub fn require_installed(&self, id: &Version) -> (r: Result<(), Error>)
        ensures
            self.installed(*id) ==> r is Ok,
            !self.installed(*id) ==> r == Err::<(), Error>(Error::NotInstalled(*id)),
    {
        if self.is_installed(id) {
            Ok(())
        } else {
            Err(Error::NotInstalled(*id))
        }
    }

    /// Records that the install directory of `id` is now present. Nothing
    /// else about the store changes.
    pub fn mark_installed(&mut self, id: &Version)
        ensures
            final(self).root == old(self).root,
            forall|name: Seq<char>|
                final(self).holds(name) <==> old(self).holds(name) || name == id.canonical(),
    {
        let ghost before = *self;
        if !self.is_installed(id) {
            let name = id.format();
            self.present.push(name);
            proof {
                assert forall|name: Seq<char>|
                    self.holds(name) <==> before.holds(name) || name == id.canonical() by {
                    if before.holds(name) {
                        let i = choose|i: int|
                            0 <= i < before.present.len() && (#[trigger] before.present[i])@
                                == name;
                        assert(self.present[i]@ == name);
                    }
                    if name == id.canonical() {
                        assert(self.present[self.present.len() - 1]@ == name);
                    }
                    if self.holds(name) {
                        let i = choose|i: int|
                            0 <= i < self.present.len() && (#[trigger] self.present[i])@ == name;
                        if i < before.present.len() {
                            assert(before.present[i]@ == name);
                        }
                    }
                }
            }
        }
    }
}

} // verus!
