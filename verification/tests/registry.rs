use godotup::error::Error;
use godotup::registry::VersionList;
use godotup::version::{Platform, Suffix, Version};

fn linux_403() -> Version {
    Version {
        major: 4,
        minor: 0,
        patch: 3,
        suffix: Suffix::Stable,
        is_mono: false,
        platform: Platform::Linux64,
    }
}

const URL: &str = "https://example/godot-4.0.3-linux64.zip";

#[test]
fn lookup_returns_the_exact_url_of_a_present_key() {
    let list = VersionList::from_entries(&vec![(linux_403(), String::from(URL))]).unwrap();
    assert_eq!(list.lookup(&linux_403()), Ok(String::from(URL)));
    assert_eq!(list.find_url(&linux_403()), Some(&String::from(URL)));
}

#[test]
fn lookup_misses_a_key_that_differs_in_platform_only() {
    let list = VersionList::from_entries(&vec![(linux_403(), String::from(URL))]).unwrap();
    let win = Version { platform: Platform::Win64, ..linux_403() };
    assert_eq!(list.lookup(&win), Err(Error::VersionNotFound(win)));
    assert_eq!(list.find_url(&win), None);
}

#[test]
fn lookup_misses_every_near_miss() {
    let list = VersionList::from_entries(&vec![(linux_403(), String::from(URL))]).unwrap();
    let base = linux_403();
    let near = [
        Version { is_mono: true, ..base },
        Version { major: 3, ..base },
        Version { minor: 1, ..base },
        Version { patch: 2, ..base },
        Version { suffix: Suffix::Rc(0), ..base },
        Version { suffix: Suffix::Alpha(0), ..base },
        Version { platform: Platform::Linux32, ..base },
        Version { platform: Platform::Macos, ..base },
        Version { platform: Platform::Win32, ..base },
    ];
    for v in near {
        assert_eq!(list.lookup(&v), Err(Error::VersionNotFound(v)));
    }
}

#[test]
fn registry_tells_channels_with_equal_numbers_apart() {
    let base = linux_403();
    let entries = vec![
        (Version { suffix: Suffix::Alpha(1), ..base }, String::from("a")),
        (Version { suffix: Suffix::Beta(1), ..base }, String::from("b")),
        (Version { suffix: Suffix::Rc(1), ..base }, String::from("c")),
        (Version { suffix: Suffix::Rc(0), ..base }, String::from("d")),
        (base, String::from("e")),
        (Version { is_mono: true, ..base }, String::from("f")),
    ];
    let list = VersionList::from_entries(&entries).unwrap();
    for (v, url) in &entries {
        assert_eq!(list.lookup(v), Ok(url.clone()));
    }
}

#[test]
fn registry_of_two_versions_holds_both() {
    let first = Version { platform: Platform::Linux32, ..linux_403() };
    let second = Version {
        major: 4,
        minor: 0,
        patch: 0,
        suffix: Suffix::Alpha(8),
        is_mono: false,
        platform: Platform::Linux64,
    };
    let list = VersionList::from_entries(&vec![
        (first, String::from("https:sss")),
        (second, String::from("https:sss")),
    ])
    .unwrap();
    assert_eq!(list.lookup(&first), Ok(String::from("https:sss")));
    assert_eq!(list.lookup(&second), Ok(String::from("https:sss")));
}

#[test]
fn a_descriptor_that_names_a_version_twice_is_refused() {
    let entries = vec![
        (linux_403(), String::from("one")),
        (Version { is_mono: true, ..linux_403() }, String::from("two")),
        (linux_403(), String::from("three")),
    ];
    assert!(matches!(VersionList::from_entries(&entries), Err(Error::RegistryUnavailable)));
}

#[test]
fn an_empty_registry_holds_nothing() {
    let list = VersionList::from_entries(&Vec::new()).unwrap();
    assert_eq!(list.lookup(&linux_403()), Err(Error::VersionNotFound(linux_403())));
}
