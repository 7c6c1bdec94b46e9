use file_utility::entry::{label, summary, EntryMetadata, FileListing};
use file_utility::text::decimal;

#[test]
fn an_entry_holds_what_it_was_made_of() {
    let entry = FileListing::new("/tmp/x/a.txt".to_string(), false);
    assert_eq!(entry.path, "/tmp/x/a.txt");
    assert!(!entry.is_directory);
    let dir = FileListing::new("/tmp/x".to_string(), true);
    assert!(dir.is_directory);
}

#[test]
fn a_directory_has_no_contents_whatever_was_read() {
    let dir = FileListing::new("/tmp/x".to_string(), true);
    assert_eq!(dir.contents::<String>(Ok("text".to_string())), Ok(None));
    assert_eq!(dir.contents(Err("is a directory".to_string())), Ok(None));
}

#[test]
fn a_file_has_what_was_read() {
    let file = FileListing::new("/tmp/x/a.txt".to_string(), false);
    assert_eq!(
        file.contents::<String>(Ok("hello\nworld\n".to_string())),
        Ok(Some("hello\nworld\n".to_string()))
    );
    assert_eq!(file.contents::<String>(Ok(String::new())), Ok(Some(String::new())));
}

#[test]
fn a_file_that_could_not_be_read_fails_as_the_reading_did() {
    let file = FileListing::new("/tmp/x/a.txt".to_string(), false);
    assert_eq!(file.contents(Err("permission denied")), Err("permission denied"));
    assert_eq!(file.contents(Err(13)), Err(13));
}

#[test]
fn the_file_name_is_the_last_component() {
    assert_eq!(
        FileListing::new("/tmp/x/a.txt".to_string(), false).file_name(),
        Some("a.txt".to_string())
    );
    assert_eq!(FileListing::new("/tmp/x/".to_string(), true).file_name(), Some("x".to_string()));
    assert_eq!(FileListing::new("b.txt".to_string(), false).file_name(), Some("b.txt".to_string()));
    assert_eq!(FileListing::new("/".to_string(), true).file_name(), None);
    assert_eq!(FileListing::new("/tmp/..".to_string(), true).file_name(), None);
    assert_eq!(FileListing::new("".to_string(), false).file_name(), None);
}

#[test]
fn the_two_entries_at_the_head_show_as_dots() {
    let dir = FileListing::new("/tmp/x".to_string(), true);
    assert_eq!(dir.display_name(0), Some(".".to_string()));
    assert_eq!(dir.display_name(1), Some("..".to_string()));
    assert_eq!(dir.display_name(2), Some("x".to_string()));
    assert_eq!(dir.display_name(7), Some("x".to_string()));
    let root = FileListing::new("/".to_string(), true);
    assert_eq!(root.display_name(0), Some(".".to_string()));
    assert_eq!(root.display_name(1), Some("..".to_string()));
    assert_eq!(root.display_name(2), None);
}

#[test]
fn a_label_goes_by_the_place_of_origin() {
    assert_eq!(label(0, None), Some(".".to_string()));
    assert_eq!(label(0, Some("name".to_string())), Some(".".to_string()));
    assert_eq!(label(1, None), Some("..".to_string()));
    assert_eq!(label(1, Some("name".to_string())), Some("..".to_string()));
    assert_eq!(label(2, Some("name".to_string())), Some("name".to_string()));
    assert_eq!(label(2, None), None);
    assert_eq!(label(usize::MAX, Some("z".to_string())), Some("z".to_string()));
}

#[test]
fn only_children_carry_the_mark_of_a_directory() {
    let dir = FileListing::new("/tmp/x".to_string(), true);
    let file = FileListing::new("/tmp/x/a.txt".to_string(), false);
    assert!(!dir.shows_directory_mark(0));
    assert!(!dir.shows_directory_mark(1));
    assert!(dir.shows_directory_mark(2));
    assert!(dir.shows_directory_mark(9));
    assert!(!file.shows_directory_mark(2));
    assert!(!file.shows_directory_mark(0));
}

#[test]
fn numbers_are_written_in_decimal() {
    assert_eq!(decimal(0), "0");
    assert_eq!(decimal(7), "7");
    assert_eq!(decimal(10), "10");
    assert_eq!(decimal(1234567890), "1234567890");
    assert_eq!(decimal(1000), "1000");
    assert_eq!(decimal(u64::MAX), "18446744073709551615");
}

#[test]
fn the_summary_of_a_file_has_five_lines() {
    let metadata = EntryMetadata {
        is_directory: false,
        len: 1204,
        modified: Some("yesterday".to_string()),
        accessed: Some("today".to_string()),
        mode: 0o100644,
    };
    assert_eq!(
        summary("\"/tmp/x/a.txt\"", &metadata),
        "Path \"/tmp/x/a.txt\" is a regular file.\nSize: 1204 bytes\nLast modified: yesterday\nLast accessed: today\nPermissions: rw-r--r--"
    );
}

#[test]
fn the_summary_of_a_directory_says_so() {
    let metadata = EntryMetadata {
        is_directory: true,
        len: 4096,
        modified: Some("m".to_string()),
        accessed: Some("a".to_string()),
        mode: 0o40755,
    };
    let entry = FileListing::new("/tmp/x".to_string(), true);
    assert_eq!(
        entry.detail_string::<String>(Ok(metadata)),
        Ok("Path \"/tmp/x\" is a directory.\nSize: 4096 bytes\nLast modified: m\nLast accessed: a\nPermissions: rwxr-xr-x".to_string())
    );
}

#[test]
fn a_time_that_is_not_recorded_shows_as_never() {
    let metadata = EntryMetadata {
        is_directory: false,
        len: 0,
        modified: None,
        accessed: None,
        mode: 0,
    };
    let entry = FileListing::new("empty".to_string(), false);
    assert_eq!(
        entry.detail_string::<String>(Ok(metadata)),
        Ok("Path \"empty\" is a regular file.\nSize: 0 bytes\nLast modified: never\nLast accessed: never\nPermissions: ---------".to_string())
    );
}

#[test]
fn the_path_in_the_summary_is_quoted_and_escaped() {
    let metadata = EntryMetadata {
        is_directory: false,
        len: 1,
        modified: None,
        accessed: Some("t".to_string()),
        mode: 0o777,
    };
    let entry = FileListing::new("a \"b\"\n".to_string(), false);
    assert_eq!(
        entry.detail_string::<String>(Ok(metadata)),
        Ok("Path \"a \\\"b\\\"\\n\" is a regular file.\nSize: 1 bytes\nLast modified: never\nLast accessed: t\nPermissions: rwxrwxrwx".to_string())
    );
}

#[test]
fn the_summary_fails_as_the_asking_for_metadata_did() {
    let entry = FileListing::new("/gone".to_string(), false);
    assert_eq!(entry.detail_string(Err("not found")), Err("not found"));
}

#[test]
fn the_mode_in_the_summary_is_cut_to_sixteen_bits() {
    let metadata = EntryMetadata {
        is_directory: false,
        len: 5,
        modified: None,
        accessed: None,
        mode: 0xffff_0000 | 0o640,
    };
    assert_eq!(
        summary("p", &metadata),
        "Path p is a regular file.\nSize: 5 bytes\nLast modified: never\nLast accessed: never\nPermissions: rw-r-----"
    );
}
