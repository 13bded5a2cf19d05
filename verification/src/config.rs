//! What the user can configure.

use vstd::prelude::*;
use vstd::string::StringExecFns;

verus! {

/// Where the registry descriptor and the artifacts come from, and which
/// binary variables a switch binds.
#[derive(Clone, Debug, PartialEq, Eq)]
pub struct Config {
    /// The location of the registry descriptor.
    pub version_list_proxy_url: String,
    /// The base location of the artifacts.
    pub download_proxy_url: String,
    /// Whether a switch binds the default binary variable.
    pub set_godot_bin: bool,
    /// Whether a switch to a version 4 or later binds the version-4 binary
    /// variable.
    pub set_godot4_bin: bool,
}

impl Default for Config {
    /// The public mirrors, with both binary variables bound.
    fn default() -> (config: Self)
        ensures
            config.version_list_proxy_url@
                == "https://raw.githubusercontent.com/Hapenia-Lans/godotup/main/versions.yml"@,
            config.download_proxy_url@ == "https://downloads.tuxfamily.org/godotengine/"@,
            config.set_godot_bin,
            config.set_godot4_bin,
    {
        Config {
            version_list_proxy_url: String::from_str(
                "https://raw.githubusercontent.com/Hapenia-Lans/godotup/main/versions.yml",
            ),
            download_proxy_url: String::from_str("https://downloads.tuxfamily.org/godotengine/"),
            set_godot_bin: true,
            set_godot4_bin: true,
        }
    }
}

/// The operations of the tool, under one configuration.
#[derive(Clone, Debug, PartialEq, Eq)]
pub struct CliApp {
    /// The configuration in force.
    pub config: Config,
}

impl Default for CliApp {
    /// The tool under the default configuration.
    fn default() -> (app: Self)
        ensures
            app.config.version_list_proxy_url@
                == "https://raw.githubusercontent.com/Hapenia-Lans/godotup/main/versions.yml"@,
            app.config.download_proxy_url@ == "https://downloads.tuxfamily.org/godotengine/"@,
            app.config.set_godot_bin,
            app.config.set_godot4_bin,
    {
        CliApp { config: Config::default() }
    }
}

} // verus!
