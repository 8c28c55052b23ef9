use fsengine::ops::{
    guard_collision, plan_create, plan_delete, plan_move, plan_rename, plan_transfer,
    home_dir_from, require_directory, require_exists, DeleteMethod,
};
use fsengine::FsError;

#[test]
fn rename_missing_source_fails_not_found() {
    assert_eq!(plan_rename("/nope/x", "y", false), Err(FsError::NotFound));
}

#[test]
fn rename_missing_source_fails_the_same_way_again() {
    for _ in 0..3 {
        assert_eq!(plan_rename("/nope/x", "y", false), Err(FsError::NotFound));
    }
}

#[test]
fn rename_derives_destination_in_same_parent() {
    assert_eq!(plan_rename("/tmp/a.txt", "b.txt", true).unwrap(), "/tmp/b.txt");
}

#[test]
fn rename_of_root_has_no_parent() {
    assert_eq!(plan_rename("/", "x", true), Err(FsError::NoParent));
}

#[test]
fn collision_guard_rejects_existing_destination() {
    assert_eq!(guard_collision(true), Err(FsError::AlreadyExists));
    assert_eq!(guard_collision(false), Ok(()));
}

#[test]
fn create_plans_path_under_parent() {
    assert_eq!(plan_create("/tmp", "n.txt", false).unwrap(), "/tmp/n.txt");
}

#[test]
fn create_rejects_existing_name() {
    assert_eq!(plan_create("/tmp", "n.txt", true), Err(FsError::AlreadyExists));
}

#[test]
fn delete_missing_target_fails_not_found() {
    assert_eq!(plan_delete(false, true, false), Err(FsError::NotFound));
    assert_eq!(plan_delete(false, false, true), Err(FsError::NotFound));
}

#[test]
fn delete_without_permanent_flag_uses_trash() {
    assert_eq!(plan_delete(true, false, false), Ok(DeleteMethod::Trash));
    assert_eq!(plan_delete(true, false, true), Ok(DeleteMethod::Trash));
}

#[test]
fn permanent_delete_matches_target_kind() {
    assert_eq!(plan_delete(true, true, true), Ok(DeleteMethod::RemoveTree));
    assert_eq!(plan_delete(true, true, false), Ok(DeleteMethod::RemoveFile));
}

#[test]
fn transfer_missing_source_fails_not_found() {
    assert_eq!(plan_transfer("/src/a", "/dst", false, true), Err(FsError::NotFound));
}

#[test]
fn transfer_into_non_directory_fails() {
    assert_eq!(plan_transfer("/src/a", "/dst/file", true, false), Err(FsError::NotADirectory));
}

#[test]
fn transfer_of_root_has_no_file_name() {
    assert_eq!(plan_transfer("/", "/dst", true, true), Err(FsError::NoFileName));
}

#[test]
fn transfer_keeps_source_base_name() {
    assert_eq!(plan_transfer("/src/a.txt", "/dst", true, true).unwrap(), "/dst/a.txt");
}

#[test]
fn move_plan_carries_source_and_destination() {
    let plan = plan_move("/src/tree", "/dst", true, true, true).unwrap();
    assert_eq!(plan.source, "/src/tree");
    assert_eq!(plan.dest, "/dst/tree");
    assert!(plan.source_is_dir);
}

#[test]
fn move_cleanup_matches_source_kind() {
    let dir_plan = plan_move("/src/tree", "/dst", true, true, true).unwrap();
    assert_eq!(dir_plan.cleanup_method(), DeleteMethod::RemoveTree);
    let file_plan = plan_move("/src/f.txt", "/dst", true, true, false).unwrap();
    assert_eq!(file_plan.cleanup_method(), DeleteMethod::RemoveFile);
}

#[test]
fn move_finish_reports_cleanup_failure_distinctly() {
    let plan = plan_move("/src/tree", "/dst", true, true, true).unwrap();
    assert_eq!(plan.finish(false), Err(FsError::CleanupFailure));
}

#[test]
fn move_finish_returns_destination_on_success() {
    let plan = plan_move("/src/tree", "/dst", true, true, true).unwrap();
    assert_eq!(plan.finish(true).unwrap(), "/dst/tree");
}

#[test]
fn home_lookup_passes_through() {
    assert_eq!(home_dir_from(Some(String::from("/home/u"))).unwrap(), "/home/u");
    assert_eq!(home_dir_from(None), Err(FsError::NotFound));
}

#[test]
fn existence_and_directory_guards() {
    assert_eq!(require_exists(false), Err(FsError::NotFound));
    assert_eq!(require_exists(true), Ok(()));
    assert_eq!(require_directory(false), Err(FsError::NotADirectory));
    assert_eq!(require_directory(true), Ok(()));
}

#[test]
fn error_messages_are_human_readable() {
    assert_eq!(FsError::NotFound.message(), "Path does not exist");
    assert_eq!(FsError::NotADirectory.message(), "Not a directory");
    assert_eq!(FsError::AlreadyExists.message(), "An entry with that name already exists");
    assert_eq!(FsError::NoParent.message(), "Cannot determine parent directory");
    assert_eq!(FsError::NoFileName.message(), "Cannot determine file name");
    assert_eq!(FsError::CleanupFailure.message(), "Copied but failed to remove source");
    assert_eq!(FsError::ReadFailure.message(), "Failed to read directory");
    assert_eq!(FsError::WriteFailure.message(), "Failed to write");
    assert_eq!(FsError::CopyFailure.message(), "Failed to copy");
    assert_eq!(FsError::DeleteFailure.message(), "Failed to delete");
    assert_eq!(FsError::RenameFailure.message(), "Failed to rename");
    assert_eq!(FsError::CreateFailure.message(), "Failed to create");
    assert_eq!(FsError::LaunchFailure.message(), "Failed to launch");
    assert_eq!(FsError::UnsupportedPlatform.message(), "No supported terminal emulator found");
}
