//! Which installed version is the current one, and the environment
//! bindings that make it so.
//!
//! A switch computes the bindings and returns them as data. Writing them to
//! a shell profile or to the settings of the operating system is the
//! caller's work. A switch never touches an install directory.

use vstd::prelude::*;
use vstd::string::StringExecFns;
use crate::config::{CliApp, Config};
use crate::error::Error;
use crate::store::InstallationStore;
use crate::text::{join, join_spec};
use crate::version::Version;

verus! {

/// One environment variable and its value.
#[derive(Clone, Debug, PartialEq, Eq)]
pub struct Binding {
    pub name: String,
    pub value: String,
}

impl View for Binding {
    type V = (Seq<char>, Seq<char>);

    open spec fn view(&self) -> (Seq<char>, Seq<char>) {
        (self.name@, self.value@)
    }
}

/// The current version, if there is one, and the bindings in force.
#[derive(Clone, Debug, PartialEq, Eq)]
pub struct ActivationManager {
    /// The version that is active. At most one is.
    pub active: Option<Version>,
    /// The bindings that the last switch computed, in order.
    pub bindings: Vec<Binding>,
}

/// An activation over plain text.
pub struct Activation {
    pub active: Option<Version>,
    pub bindings: Seq<(Seq<char>, Seq<char>)>,
}

impl View for ActivationManager {
    type V = Activation;

    open spec fn view(&self) -> Activation {
        Activation { active: self.active, bindings: self.bindings@.map_values(|b: Binding| b@) }
    }
}

/// The variable that points at the install root.
pub open spec fn home_variable() -> Seq<char> {
    "GODOT_HOME"@
}

/// The variable that points at the executable of the current version.
pub open spec fn bin_variable() -> Seq<char> {
    "GODOT_BIN"@
}

/// The variable that points at the executable of the current version where
/// that is a version 4 or later.
pub open spec fn bin4_variable() -> Seq<char> {
    "GODOT4_BIN"@
}

/// Where the executable of `version` lies: in its install directory, under
/// the canonical string followed by the platform suffix.
pub open spec fn executable_spec(root: Seq<char>, version: Version, platform_suffix: Seq<char>) -> Seq<
    char,
> {
    join_spec(join_spec(root, version.canonical()), version.canonical() + platform_suffix)
}

/// The bindings that make `version` the current one: the home variable,
/// then the binary variable where the configuration asks for it, then the
/// version-4 binary variable where the configuration asks for it and the
/// major number is 4 or more.
pub open spec fn bindings_spec(
    config: Config,
    root: Seq<char>,
    version: Version,
    platform_suffix: Seq<char>,
) -> Seq<(Seq<char>, Seq<char>)> {
    let executable = executable_spec(root, version, platform_suffix);
    let home = seq![(home_variable(), root)];
    let bin = if config.set_godot_bin {
        seq![(bin_variable(), executable)]
    } else {
        Seq::<(Seq<char>, Seq<char>)>::empty()
    };
    let bin4 = if config.set_godot4_bin && version.major >= 4 {
        seq![(bin4_variable(), executable)]
    } else {
        Seq::<(Seq<char>, Seq<char>)>::empty()
    };
    home + bin + bin4
}

/// The activation that a switch to `version` leaves, whatever was active
/// before: the former activation where `version` is not installed, and else
/// `version` with its bindings.
pub open spec fn switched(
    config: Config,
    store: InstallationStore,
    version: Version,
    platform_suffix: Seq<char>,
    before: Activation,
) -> Activation {
    if store.installed(version) {
        Activation {
            active: Some(version),
            bindings: bindings_spec(config, store.root@, version, platform_suffix),
        }
    } else {
        before
    }
}

/// Switching is idempotent: a second switch to the same version, with the
/// store and the configuration unchanged, leaves the activation of the
/// first, bindings included.
pub proof fn lemma_switch_is_idempotent(
    config: Config,
    store: InstallationStore,
    version: Version,
    platform_suffix: Seq<char>,
    before: Activation,
)
    ensures
        switched(
            config,
            store,
            version,
            platform_suffix,
            switched(config, store, version, platform_suffix, before),
        ) == switched(config, store, version, platform_suffix, before),
{
}

impl ActivationManager {
    /// A manager with no active version and no bindings.
    pub fn new() -> (manager: ActivationManager)
        ensures
            manager.active is None,
            manager.bindings@.len() == 0,
    {
        ActivationManager { active: None, bindings: Vec::new() }
    }
}

impl CliApp {
    /// Makes `version` the current one. A version that is not installed is
    /// refused and the activation stays as it was: a switch never installs.
    /// Otherwise the activation names `version` and holds its bindings,
    /// computed for the host whose platform suffix is given.
    pub fn switch(
        &self,
        version: &Version,
        store: &InstallationStore,
        platform_suffix: &str,
        manager: &mut ActivationManager,
    ) -> (r: Result<(), Error>)
        ensures
            final(manager)@ == switched(
                self.config,
                *store,
                *version,
                platform_suffix@,
                old(manager)@,
            ),
            store.installed(*version) ==> r is Ok,
            !store.installed(*version) ==> r == Err::<(), Error>(Error::NotInstalled(*version))
                && *final(manager) == *old(manager),
    {
        match store.require_installed(version) {
            Ok(()) => {},
            Err(e) => { return Err(e); },
        }
        let dir = store.install_dir(version);
        let mut file = version.format();
        file.append(platform_suffix);
        let executable = join(dir.as_str(), file.as_str());
        let mut bindings: Vec<Binding> = Vec::new();
        bindings.push(
            Binding { name: String::from_str("GODOT_HOME"), value: store.root.clone() },
        );
        if self.config.set_godot_bin {
            bindings.push(
                Binding { name: String::from_str("GODOT_BIN"), value: executable.clone() },
            );
        }
        if self.config.set_godot4_bin && version.major >= 4 {
            bindings.push(Binding { name: String::from_str("GODOT4_BIN"), value: executable });
        }
        proof {
            assert(bindings@.map_values(|b: Binding| b@) =~= bindings_spec(
                self.config,
                store.root@,
                *version,
                platform_suffix@,
            ));
        }
        manager.active = Some(*version);
        manager.bindings = bindings;
        Ok(())
    }
}

} // verus!
