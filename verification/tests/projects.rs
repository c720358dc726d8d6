use plannet::error::{RepoError, StoreError};
use plannet::init::init;
use plannet::project::{database_path, is_valid_project_name};
use plannet::tasks::{add_task, move_status_forward, update_task};

#[test]
fn project_names_are_plain_file_names() {
    assert!(is_valid_project_name("proj"));
    assert!(is_valid_project_name("my project 2"));
    assert!(is_valid_project_name("."));
    assert!(is_valid_project_name("büro"));
    assert!(!is_valid_project_name(""));
    assert!(!is_valid_project_name("/"));
    assert!(!is_valid_project_name("a/b"));
    assert!(!is_valid_project_name("/abs"));
    assert!(!is_valid_project_name("trailing/"));
    assert!(!is_valid_project_name("a\\b"));
    assert!(!is_valid_project_name("büro/akten"));
}

#[test]
fn database_lies_in_the_project_folder() {
    assert_eq!(database_path("proj"), "proj/proj.sqlite");
    assert_eq!(database_path("my project"), "my project/my project.sqlite");
    assert_eq!(database_path("büro"), "büro/büro.sqlite");
}

#[test]
fn init_refuses_a_bad_project_name() {
    assert_eq!(init(""), Err(StoreError::Validation));
    assert_eq!(init("a/b"), Err(StoreError::Validation));
    assert_eq!(init("a\\b"), Err(StoreError::Validation));
}

#[test]
fn init_without_the_project_folder_is_io() {
    assert_eq!(init("plannet_no_such_project_folder"), Err(StoreError::Io));
}

#[test]
fn add_task_refuses_bad_names() {
    assert_eq!(add_task("", "task"), Err(RepoError::Validation));
    assert_eq!(add_task("a/b", "task"), Err(RepoError::Validation));
    assert_eq!(add_task("plannet_no_such_project_folder", ""), Err(RepoError::Validation));
    assert_eq!(add_task("", ""), Err(RepoError::Validation));
}

#[test]
fn update_task_refuses_bad_names() {
    assert_eq!(update_task("", 1, "name"), Err(RepoError::Validation));
    assert_eq!(update_task("a\\b", 1, "name"), Err(RepoError::Validation));
    assert_eq!(update_task("plannet_no_such_project_folder", 1, ""), Err(RepoError::Validation));
}

#[test]
fn move_status_forward_refuses_a_bad_project_name() {
    assert_eq!(move_status_forward("", 1), Err(RepoError::Validation));
    assert_eq!(move_status_forward("../up", 1), Err(RepoError::Validation));
}

#[test]
fn a_project_without_storage_is_not_found() {
    let name = "plannet_no_such_project_folder";
    assert_eq!(add_task(name, "task"), Err(RepoError::NotFound));
    assert_eq!(update_task(name, 1, "name"), Err(RepoError::NotFound));
    assert_eq!(move_status_forward(name, 1), Err(RepoError::NotFound));
}
