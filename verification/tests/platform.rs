use godotup::error::Error;
use godotup::platform::{get_arch, get_platform_suffix};
use godotup::version::{Platform, Suffix, Version};

#[test]
fn arch_names() {
    assert_eq!(get_arch("x86"), "x86_32");
    assert_eq!(get_arch("x86_64"), "x86_64");
    assert_eq!(get_arch("aarch64"), "unknown");
    assert_eq!(get_arch(""), "unknown");
}

#[test]
fn platform_suffix_for_supported_hosts() {
    assert_eq!(get_platform_suffix("linux", "x86_64"), Ok(String::from("linux.x86_64")));
    assert_eq!(get_platform_suffix("linux", "x86"), Ok(String::from("linux.x86_32")));
    assert_eq!(get_platform_suffix("windows", "x86"), Ok(String::from("win32.exe")));
    assert_eq!(get_platform_suffix("windows", "x86_64"), Ok(String::from("win64.exe")));
}

#[test]
fn platform_suffix_refuses_other_hosts() {
    assert_eq!(get_platform_suffix("macos", "x86_64"), Err(Error::UnsupportedPlatform));
    assert_eq!(get_platform_suffix("linux", "aarch64"), Err(Error::UnsupportedPlatform));
    assert_eq!(get_platform_suffix("windows", "arm"), Err(Error::UnsupportedPlatform));
    assert_eq!(get_platform_suffix("", ""), Err(Error::UnsupportedPlatform));
    assert_eq!(get_platform_suffix("Linux", "x86_64"), Err(Error::UnsupportedPlatform));
}

#[test]
fn filename_is_canonical_string_suffix_and_zip() {
    let v = Version {
        major: 4,
        minor: 0,
        patch: 3,
        suffix: Suffix::Rc(2),
        is_mono: true,
        platform: Platform::Linux64,
    };
    assert_eq!(
        v.to_filename("linux", "x86_64"),
        Ok(String::from("Godot_v4.0.3-rc2_monolinux.x86_64.zip"))
    );
    assert_eq!(
        v.to_filename("windows", "x86"),
        Ok(String::from("Godot_v4.0.3-rc2_monowin32.exe.zip"))
    );
    assert_eq!(v.to_filename("freebsd", "x86_64"), Err(Error::UnsupportedPlatform));
}
