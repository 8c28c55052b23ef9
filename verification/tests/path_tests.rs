use fsengine::paths::{base_name, get_parent_dir, join_path};
use fsengine::FsError;

#[test]
fn parent_of_nested_path() {
    assert_eq!(get_parent_dir("/tmp/a/b.txt").unwrap(), "/tmp/a");
}

#[test]
fn parent_of_top_level_entry_is_root() {
    assert_eq!(get_parent_dir("/etc").unwrap(), "/");
}

#[test]
fn parent_of_root_fails() {
    assert_eq!(get_parent_dir("/"), Err(FsError::NoParent));
}

#[test]
fn parent_of_empty_fails() {
    assert_eq!(get_parent_dir(""), Err(FsError::NoParent));
}

#[test]
fn parent_of_relative_name_is_empty() {
    assert_eq!(get_parent_dir("notes.txt").unwrap(), "");
}

#[test]
fn parent_ignores_trailing_separator() {
    assert_eq!(get_parent_dir("/tmp/a/").unwrap(), "/tmp");
}

#[test]
fn base_name_of_nested_path() {
    assert_eq!(base_name("/tmp/a/b.txt").unwrap(), "b.txt");
}

#[test]
fn base_name_of_relative_name() {
    assert_eq!(base_name("a"), Ok(String::from("a")));
}

#[test]
fn base_name_of_root_fails() {
    assert_eq!(base_name("/"), Err(FsError::NoFileName));
}

#[test]
fn base_name_ignores_trailing_separator() {
    assert_eq!(base_name("/tmp/dir/").unwrap(), "dir");
}

#[test]
fn join_inserts_separator() {
    assert_eq!(join_path("/tmp", "x"), "/tmp/x");
}

#[test]
fn join_onto_root_keeps_single_separator() {
    assert_eq!(join_path("/", "x"), "/x");
}

#[test]
fn join_onto_empty_is_name() {
    assert_eq!(join_path("", "x"), "x");
}

#[test]
fn join_onto_trailing_separator() {
    assert_eq!(join_path("a/", "x"), "a/x");
}

#[test]
fn unicode_names_survive_path_operations() {
    let joined = join_path("/m\u{fa}sica", "canci\u{f3}n.mp3");
    assert_eq!(joined, "/m\u{fa}sica/canci\u{f3}n.mp3");
    assert_eq!(get_parent_dir(&joined).unwrap(), "/m\u{fa}sica");
    assert_eq!(base_name(&joined).unwrap(), "canci\u{f3}n.mp3");
}
