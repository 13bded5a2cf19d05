use godotup::error::Error;
use godotup::paths::{
    appdata_dir, appdata_dir_in, godot_version_dir, godot_version_dir_in, install_root,
    install_root_in, version_list_path, version_list_path_in,
};
use godotup::version::{Platform, Suffix, Version};

fn version() -> Version {
    Version {
        major: 4,
        minor: 0,
        patch: 0,
        suffix: Suffix::Alpha(8),
        is_mono: false,
        platform: Platform::Linux64,
    }
}

fn some(dir: &str) -> Option<String> {
    Some(String::from(dir))
}

#[test]
fn paths_below_a_given_directory() {
    assert_eq!(appdata_dir_in(some("/home/u/.local/share")), Ok(String::from("/home/u/.local/share/godotup")));
    assert_eq!(
        version_list_path_in(some("/home/u/.local/share")),
        Ok(String::from("/home/u/.local/share/godotup/versions.yml"))
    );
    assert_eq!(install_root_in(some("/home/u")), Ok(String::from("/home/u/.godotup")));
    assert_eq!(
        godot_version_dir_in(some("/home/u"), &version()),
        Ok(String::from("/home/u/.godotup/Godot_v4.0.0-alpha8"))
    );
    assert_eq!(install_root_in(some("/home/u/")), Ok(String::from("/home/u/.godotup")));
}

#[test]
fn no_directory_gives_a_filesystem_failure() {
    assert_eq!(appdata_dir_in(None), Err(Error::Filesystem));
    assert_eq!(version_list_path_in(None), Err(Error::Filesystem));
    assert_eq!(install_root_in(None), Err(Error::Filesystem));
    assert_eq!(godot_version_dir_in(None, &version()), Err(Error::Filesystem));
}

#[test]
fn paths_of_the_current_user_end_as_stated() {
    match appdata_dir() {
        Ok(path) => {
            assert!(path.ends_with("godotup"));
            assert_eq!(version_list_path(), Ok(format!("{}/versions.yml", path)));
        }
        Err(e) => {
            assert_eq!(e, Error::Filesystem);
            assert_eq!(version_list_path(), Err(Error::Filesystem));
        }
    }
    match install_root() {
        Ok(root) => {
            assert!(root.ends_with(".godotup"));
            assert_eq!(
                godot_version_dir(&version()),
                Ok(format!("{}/Godot_v4.0.0-alpha8", root))
            );
        }
        Err(e) => {
            assert_eq!(e, Error::Filesystem);
            assert_eq!(godot_version_dir(&version()), Err(Error::Filesystem));
        }
    }
}
