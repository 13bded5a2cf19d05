//! The name of the host in artifact file names.

use vstd::prelude::*;
use vstd::string::StringExecFns;
use crate::error::Error;
use crate::text::same_text;
use crate::version::Version;

verus! {

/// The processor as artifact names spell it, from the name the compiler
/// gives the target architecture: `x86_32` for `x86`, `x86_64` for itself,
/// and `unknown` for every other.
pub open spec fn arch_spec(target_arch: Seq<char>) -> Seq<char> {
    if target_arch == "x86"@ {
        "x86_32"@
    } else if target_arch == "x86_64"@ {
        "x86_64"@
    } else {
        "unknown"@
    }
}

/// The platform suffix of artifact names on a host, where artifacts are
/// published for it: `linux.` and the processor on Linux, `win32.exe` and
/// `win64.exe` on Windows, each for the two x86 processors only.
pub open spec fn platform_suffix_spec(os: Seq<char>, target_arch: Seq<char>) -> Option<Seq<char>> {
    let arch = arch_spec(target_arch);
    if arch == "unknown"@ {
        None
    } else if os == "linux"@ {
        Some("linux."@ + arch)
    } else if os == "windows"@ {
        if arch == "x86_32"@ {
            Some("win32.exe"@)
        } else {
            Some("win64.exe"@)
        }
    } else {
        None
    }
}

/// The processor as artifact names spell it.
pub fn get_arch(target_arch: &str) -> (arch: &'static str)
    ensures
        arch@ == arch_spec(target_arch@),
{
    if same_text(target_arch, "x86") {
        "x86_32"
    } else if same_text(target_arch, "x86_64") {
        "x86_64"
    } else {
        "unknown"
    }
}

/// The platform suffix for the host with operating system `os` and target
/// architecture `target_arch`. A host for which no artifact is published is
/// refused rather than given a name that no artifact has.
pub fn get_platform_suffix(os: &str, target_arch: &str) -> (r: Result<String, Error>)
    ensures
        match r {
            Ok(suffix) => platform_suffix_spec(os@, target_arch@) == Some(suffix@),
            Err(e) => platform_suffix_spec(os@, target_arch@) is None && e
                == Error::UnsupportedPlatform,
        },
{
    let arch = get_arch(target_arch);
    if same_text(arch, "unknown") {
        Err(Error::UnsupportedPlatform)
    } else if same_text(os, "linux") {
        let mut suffix = String::from_str("linux.");
        suffix.append(arch);
        Ok(suffix)
    } else if same_text(os, "windows") {
        if same_text(arch, "x86_32") {
            Ok(String::from_str("win32.exe"))
        } else {
            Ok(String::from_str("win64.exe"))
        }
    } else {
        Err(Error::UnsupportedPlatform)
    }
}

impl Version {
    /// The file name of the artifact for a host: the canonical string, the
    /// platform suffix and `.zip`.
    pub open spec fn filename_spec(self, os: Seq<char>, target_arch: Seq<char>) -> Option<
        Seq<char>,
    > {
        match platform_suffix_spec(os, target_arch) {
            Some(suffix) => Some(self.canonical() + suffix + ".zip"@),
            None => None,
        }
    }

    /// The file name of the artifact of this version for the host with
    /// operating system `os` and target architecture `target_arch`.
    pub fn to_filename(&self, os: &str, target_arch: &str) -> (r: Result<String, Error>)
        ensures
            match r {
                Ok(name) => self.filename_spec(os@, target_arch@) == Some(name@),
                Err(e) => self.filename_spec(os@, target_arch@) is None && e
                    == Error::UnsupportedPlatform,
            },
    {
        match get_platform_suffix(os, target_arch) {
            Ok(suffix) => {
                let mut name = self.format();
                name.append(suffix.as_str());
                name.append(".zip");
                Ok(name)
            },
            Err(e) => Err(e),
        }
    }
}

} // verus!
