use godotup::archive::{is_enclosed, plan_entry, plan_extraction, ArchiveEntry, ExtractStep};
use godotup::text::{join, parent_of};

fn entry(name: &str, unix_mode: Option<u32>) -> ArchiveEntry {
    ArchiveEntry { name: String::from(name), unix_mode }
}

#[test]
fn an_escaping_entry_is_skipped_and_the_other_is_written() {
    let entries = vec![entry("a/b.txt", None), entry("../escape.txt", None)];
    let plan = plan_extraction("target", &entries);
    assert_eq!(
        plan,
        vec![ExtractStep::WriteFile {
            index: 0,
            path: String::from("target/a/b.txt"),
            parent: String::from("target/a"),
            mode: None,
        }]
    );
}

#[test]
fn entries_after_an_escaping_one_still_extract_in_order() {
    let entries = vec![
        entry("bin/", Some(0o40755)),
        entry("../../etc/passwd", Some(0o100644)),
        entry("bin/godot", Some(0o100755)),
        entry("/abs", None),
        entry("readme", None),
    ];
    let plan = plan_extraction("/home/u/.godotup/x", &entries);
    assert_eq!(
        plan,
        vec![
            ExtractStep::CreateDir {
                index: 0,
                path: String::from("/home/u/.godotup/x/bin/"),
                mode: Some(0o40755),
            },
            ExtractStep::WriteFile {
                index: 2,
                path: String::from("/home/u/.godotup/x/bin/godot"),
                parent: String::from("/home/u/.godotup/x/bin"),
                mode: Some(0o100755),
            },
            ExtractStep::WriteFile {
                index: 4,
                path: String::from("/home/u/.godotup/x/readme"),
                parent: String::from("/home/u/.godotup/x"),
                mode: None,
            },
        ]
    );
}

#[test]
fn permission_bits_are_carried_onto_the_step() {
    let step = plan_entry("t", 7, &entry("godot.x86_64", Some(0o100755)));
    assert_eq!(
        step,
        Some(ExtractStep::WriteFile {
            index: 7,
            path: String::from("t/godot.x86_64"),
            parent: String::from("t"),
            mode: Some(0o100755),
        })
    );
    let bare = plan_entry("t", 0, &entry("godot.x86_64", None));
    assert!(matches!(bare, Some(ExtractStep::WriteFile { mode: None, .. })));
}

#[test]
fn an_empty_archive_has_an_empty_plan() {
    assert_eq!(plan_extraction("target", &Vec::new()), Vec::new());
}

#[test]
fn names_that_stay_inside_are_enclosed() {
    for name in [
        "a",
        "a/b.txt",
        "a/",
        "a/../b",
        "a/b/../../c",
        "./a",
        "a//b",
        "a/./b",
        ".",
        "",
        "a/..",
        "...",
        "..a",
        "a..",
        ".../x",
        "a\\..\\..\\b",
        "caf\u{e9}/\u{4e16}\u{754c}.txt",
    ] {
        assert!(is_enclosed(name), "{:?}", name);
    }
}

#[test]
fn names_that_lead_out_are_not_enclosed() {
    for name in [
        "..",
        "../escape.txt",
        "../",
        "a/../..",
        "a/../../b",
        "./../a",
        "a/b/../../../c",
        "/etc/passwd",
        "/",
        "a\0b",
        "\0",
        "a//../../b",
    ] {
        assert!(!is_enclosed(name), "{:?}", name);
    }
}

#[test]
fn a_name_that_dips_to_the_target_and_returns_is_enclosed() {
    assert!(is_enclosed("a/../b/../c"));
    assert!(!is_enclosed("a/../b/../../c"));
}

#[test]
fn join_puts_one_slash_between() {
    assert_eq!(join("a", "b"), "a/b");
    assert_eq!(join("a/", "b"), "a/b");
    assert_eq!(join("", "b"), "b");
    assert_eq!(join("/", "b"), "/b");
    assert_eq!(join("a", ""), "a/");
    assert_eq!(join("a/b", "c/d"), "a/b/c/d");
}

#[test]
fn parent_is_what_stands_before_the_last_slash() {
    assert_eq!(parent_of("a/b/c"), "a/b");
    assert_eq!(parent_of("a/b/"), "a/b");
    assert_eq!(parent_of("/b"), "/");
    assert_eq!(parent_of("b"), "");
    assert_eq!(parent_of(""), "");
    assert_eq!(parent_of("/"), "/");
}
