//! The registry: which download location belongs to which version.
//!
//! A registry is built whole from the entries of one descriptor and never
//! changed afterwards. A refresh replaces it.

use std::collections::HashMap;
use vstd::prelude::*;
use crate::error::Error;
use crate::version::{Platform, Suffix, Version};

verus! {

broadcast use vstd::std_specs::hash::group_hash_axioms;

impl Platform {
    /// The number that stands for the platform in a registry key.
    pub open spec fn code(self) -> int {
        match self {
            Platform::Win32 => 0,
            Platform::Win64 => 1,
            Platform::Linux32 => 2,
            Platform::Linux64 => 3,
            Platform::Macos => 4,
        }
    }
}

impl Version {
    /// The registry key of a version: all six fields packed into one
    /// number, each in digits of its own.
    pub open spec fn key(self) -> int {
        self.major + 256 * (self.minor + 256 * (self.patch + 256 * (self.suffix.rank() + 4 * (
        self.suffix.number() + 256 * ((if self.is_mono {
            1int
        } else {
            0int
        }) + 2 * self.platform.code())))))
    }

    fn registry_key(&self) -> (k: u64)
        ensures
            k == self.key(),
    {
        let (rank, number): (u64, u64) = match self.suffix {
            Suffix::Alpha(n) => (0, n as u64),
            Suffix::Beta(n) => (1, n as u64),
            Suffix::Rc(n) => (2, n as u64),
            Suffix::Stable => (3, 0),
        };
        let mono: u64 = if self.is_mono {
            1
        } else {
            0
        };
        let platform: u64 = match self.platform {
            Platform::Win32 => 0,
            Platform::Win64 => 1,
            Platform::Linux32 => 2,
            Platform::Linux64 => 3,
            Platform::Macos => 4,
        };
        self.major as u64 + 256 * (self.minor as u64 + 256 * (self.patch as u64 + 256 * (rank + 4
            * (number + 256 * (mono + 2 * platform)))))
    }
}

/// Two versions with the same registry key are the same version.
pub proof fn lemma_key_is_injective(v: Version, w: Version)
    requires
        v.key() == w.key(),
    ensures
        v == w,
{
}

/// The mapping from version to download location.
#[derive(Clone, Debug)]
pub struct VersionList {
    versions: HashMap<u64, String>,
}

impl View for VersionList {
    type V = Map<Version, Seq<char>>;

    /// The registry as a map from version to location.
    closed spec fn view(&self) -> Map<Version, Seq<char>> {
        Map::new(
            |v: Version| self.versions@.contains_key(v.key() as u64),
            |v: Version| self.versions@[v.key() as u64]@,
        )
    }
}

/// Whether two of the entries name the same version.
pub open spec fn names_twice(entries: Seq<(Version, String)>) -> bool {
    exists|i: int, j: int| 0 <= i < j < entries.len() && entries[i].0 == entries[j].0
}

impl VersionList {
    /// Builds the registry from the entries of a descriptor. A descriptor
    /// that names a version twice is refused: no entry overrules another.
    pub fn from_entries(entries: &Vec<(Version, String)>) -> (r: Result<VersionList, Error>)
        ensures
            r is Err <==> names_twice(entries@),
            r is Err ==> r->Err_0 == Error::RegistryUnavailable,
            r is Ok ==> {
                &&& forall|i: int|
                    0 <= i < entries.len() ==> r->Ok_0@.contains_key(#[trigger] entries[i].0)
                        && r->Ok_0@[entries[i].0] == entries[i].1@
                &&& forall|v: Version| #[trigger]
                    r->Ok_0@.contains_key(v) ==> exists|i: int|
                        0 <= i < entries.len() && entries[i].0 == v
            },
    {
        let mut versions: HashMap<u64, String> = HashMap::new();
        let mut n: usize = 0;
        while n < entries.len()
            invariant
                n <= entries.len(),
                forall|i: int, j: int| 0 <= i < j < n ==> entries[i].0 != entries[j].0,
                forall|i: int|
                    0 <= i < n ==> versions@.contains_key((#[trigger] entries[i]).0.key() as u64)
                        && versions@[entries[i].0.key() as u64] == entries[i].1,
                forall|k: u64| #[trigger]
                    versions@.contains_key(k) ==> exists|i: int|
                        0 <= i < n && entries[i].0.key() == k,
            decreases entries.len() - n,
        {
            let key = entries[n].0.registry_key();
            if versions.contains_key(&key) {
                proof {
                    let i = choose|i: int| 0 <= i < n && entries[i].0.key() == key;
                    lemma_key_is_injective(entries[i].0, entries[n as int].0);
                }
                return Err(Error::RegistryUnavailable);
            }
            let url = entries[n].1.clone();
            versions.insert(key, url);
            proof {
                assert forall|i: int, j: int| 0 <= i < j < n + 1 implies entries[i].0
                    != entries[j].0 by {
                    if j == n && entries[i].0 == entries[j].0 {
                        assert(entries[i].0.key() == key);
                    }
                }
            }
            n += 1;
        }
        let list = VersionList { versions };
        proof {
            assert forall|v: Version| #[trigger] list@.contains_key(v) implies exists|i: int|
                0 <= i < entries.len() && entries[i].0 == v by {
                let i = choose|i: int| 0 <= i < n && entries[i].0.key() == v.key() as u64;
                lemma_key_is_injective(entries[i].0, v);
            }
            assert(!names_twice(entries@));
        }
        Ok(list)
    }

    /// The download location of `vers`, where the registry has one. Only the
    /// very same version matches: one that differs in the platform or the
    /// variant alone is another key.
    pub fn find_url(&self, vers: &Version) -> (url: Option<&String>)
        ensures
            match url {
                Some(location) => self@.contains_key(*vers) && location@ == self@[*vers],
                None => !self@.contains_key(*vers),
            },
    {
        let key = vers.registry_key();
        self.versions.get(&key)
    }

    /// The download location of `id`, or the failure that names `id` where
    /// the registry does not hold it.
    pub fn lookup(&self, id: &Version) -> (r: Result<String, Error>)
        ensures
            match r {
                Ok(location) => self@.contains_key(*id) && location@ == self@[*id],
                Err(e) => !self@.contains_key(*id) && e == Error::VersionNotFound(*id),
            },
    {
        match self.find_url(id) {
            Some(location) => Ok(location.clone()),
            None => Err(Error::VersionNotFound(*id)),
        }
    }
}

} // verus!
