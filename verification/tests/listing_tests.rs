use fsengine::entry::{disk_usage, make_entry, FileEntry};
use fsengine::listing::sort_entries;

fn mk(name: &str, is_dir: bool) -> FileEntry {
    FileEntry {
        name: String::from(name),
        path: format!("/d/{}", name),
        is_dir,
        size: 0,
        modified: 0,
    }
}

fn names(entries: &[FileEntry]) -> Vec<String> {
    entries.iter().map(|e| e.name.clone()).collect()
}

#[test]
fn directories_precede_files() {
    let sorted = sort_entries(vec![
        mk("b.txt", false),
        mk("Zeta", true),
        mk("Alpha.txt", false),
        mk("alpha", true),
    ]);
    assert_eq!(names(&sorted), vec!["alpha", "Zeta", "Alpha.txt", "b.txt"]);
}

#[test]
fn names_compare_case_insensitively() {
    let sorted = sort_entries(vec![mk("banana", false), mk("APPLE", false), mk("Cherry", false)]);
    assert_eq!(names(&sorted), vec!["APPLE", "banana", "Cherry"]);
}

#[test]
fn case_insensitive_tie_breaks_on_exact_name() {
    let sorted = sort_entries(vec![mk("readme", false), mk("README", false)]);
    assert_eq!(names(&sorted), vec!["README", "readme"]);
}

#[test]
fn sorting_is_independent_of_enumeration_order() {
    let a = sort_entries(vec![
        mk("b.txt", false),
        mk("sub", true),
        mk("A.txt", false),
        mk("zzz", true),
    ]);
    let b = sort_entries(vec![
        mk("zzz", true),
        mk("A.txt", false),
        mk("sub", true),
        mk("b.txt", false),
    ]);
    assert_eq!(names(&a), names(&b));
    for (x, y) in a.iter().zip(b.iter()) {
        assert_eq!(x.path, y.path);
        assert_eq!(x.is_dir, y.is_dir);
    }
}

#[test]
fn sorted_listing_shape_holds() {
    let sorted = sort_entries(vec![
        mk("delta", false),
        mk("Echo", true),
        mk("charlie", true),
        mk("Bravo", false),
        mk("alpha", false),
    ]);
    for i in 1..sorted.len() {
        // No directory may follow a file.
        assert!(!(sorted[i].is_dir && !sorted[i - 1].is_dir));
        if sorted[i - 1].is_dir == sorted[i].is_dir {
            let prev = sorted[i - 1].name.to_ascii_lowercase();
            let next = sorted[i].name.to_ascii_lowercase();
            assert!(prev <= next);
        }
    }
}

#[test]
fn sorting_empty_listing_is_empty() {
    assert!(sort_entries(Vec::new()).is_empty());
}

#[test]
fn make_entry_zeroes_directory_size() {
    let e = make_entry(String::from("sub"), String::from("/d/sub"), true, 4096, Some(8), Some(7));
    assert!(e.is_dir);
    assert_eq!(e.size, 0);
    assert_eq!(e.modified, 7);
}

#[test]
fn make_entry_uses_block_accounting_for_files() {
    let e = make_entry(String::from("f"), String::from("/d/f"), false, 100, Some(8), None);
    assert_eq!(e.size, 8 * 512);
    assert_eq!(e.modified, 0);
}

#[test]
fn disk_usage_from_blocks() {
    assert_eq!(disk_usage(100, Some(3)), 1536);
}

#[test]
fn disk_usage_falls_back_to_length() {
    assert_eq!(disk_usage(42, None), 42);
}

#[test]
fn created_file_appears_once_in_listing() {
    // The children of a directory as the shell would observe them before
    // and after an empty file a.txt is created in it.
    let before = sort_entries(vec![mk("docs", true), mk("old.txt", false)]);
    let new_entry =
        make_entry(String::from("a.txt"), String::from("/d/a.txt"), false, 0, Some(0), Some(5));
    assert_eq!(new_entry.size, 0);
    let after = sort_entries(vec![mk("old.txt", false), new_entry.clone(), mk("docs", true)]);
    let fresh: Vec<&FileEntry> =
        after.iter().filter(|e| !before.iter().any(|b| b.path == e.path)).collect();
    assert_eq!(fresh.len(), 1);
    assert_eq!(fresh[0].name, "a.txt");
    assert!(!fresh[0].is_dir);
    assert_eq!(fresh[0].size, 0);
    assert_eq!(fresh[0].modified, 5);
}

#[test]
fn non_ascii_names_sort_by_code_point() {
    let sorted = sort_entries(vec![mk("zeta", false), mk("\u{e9}clair", false), mk("alpha", false)]);
    assert_eq!(names(&sorted), vec!["alpha", "zeta", "\u{e9}clair"]);
}
