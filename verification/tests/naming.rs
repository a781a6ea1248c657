use gitbase::errors::DatabaseError;
use gitbase::ids::generate_id;
use gitbase::names::{
    collection_dir, commit_message, ends_with_storage_suffix, file_name_for, rel_path,
    remove_suffix, resolve, validate_name,
};

#[test]
fn accepts_ordinary_names() {
    assert!(validate_name("tasks"));
    assert!(validate_name("users"));
    assert!(validate_name("user1"));
    assert!(validate_name("a.b"));
    assert!(validate_name("..."));
}

#[test]
fn rejects_escaping_names() {
    assert!(!validate_name(""));
    assert!(!validate_name("."));
    assert!(!validate_name(".."));
    assert!(!validate_name("a/b"));
    assert!(!validate_name("a\\b"));
    assert!(!validate_name("../etc"));
    assert!(!validate_name("/"));
    assert!(!validate_name("a\0b"));
    assert!(!validate_name("\0"));
}

#[test]
fn resolve_builds_the_document_path() {
    assert_eq!(resolve("root", "users", "user1").unwrap(), "root/users/user1.json");
    assert_eq!(resolve("/tmp/store", "tasks", "t-1").unwrap(), "/tmp/store/tasks/t-1.json");
}

#[test]
fn resolve_rejects_invalid_names() {
    assert_eq!(resolve("root", "../up", "id"), Err(DatabaseError::InvalidName));
    assert_eq!(resolve("root", "users", "a/b"), Err(DatabaseError::InvalidName));
    assert_eq!(resolve("root", "", "id"), Err(DatabaseError::InvalidName));
    assert_eq!(resolve("root", "users", ".."), Err(DatabaseError::InvalidName));
}

#[test]
fn rel_path_and_file_name() {
    assert_eq!(rel_path("users", "user1"), "users/user1.json");
    assert_eq!(file_name_for("user1"), "user1.json");
    assert_eq!(collection_dir("root", "users"), "root/users");
}

#[test]
fn suffix_is_detected() {
    assert!(ends_with_storage_suffix("a.json"));
    assert!(ends_with_storage_suffix(".json"));
    assert!(!ends_with_storage_suffix("ajson"));
    assert!(!ends_with_storage_suffix("a.jso"));
    assert!(!ends_with_storage_suffix("json"));
}

#[test]
fn suffix_is_stripped_from_listings() {
    assert_eq!(remove_suffix("a.json"), "a");
    assert_eq!(remove_suffix("a.json.json"), "a");
    assert_eq!(remove_suffix("a"), "a");
    assert_eq!(remove_suffix("ajson"), "ajson");
    assert_eq!(remove_suffix(".json"), "");
    assert_eq!(remove_suffix("a.b.json"), "a.b");
}

#[test]
fn commit_message_is_exact() {
    assert_eq!(commit_message("users", "user1"), "Update users / user1");
    assert_eq!(commit_message("tasks", "t-1"), "Update tasks / t-1");
}

#[test]
fn generated_ids_are_valid_and_list_back_unchanged() {
    let id = generate_id();
    assert_eq!(id.chars().count(), 36);
    assert!(id.chars().all(|c| c == '-' || c.is_ascii_digit() || ('a'..='f').contains(&c)));
    assert!(validate_name(&id));
    assert_eq!(remove_suffix(&file_name_for(&id)), id);
}

#[test]
fn generated_ids_differ() {
    let a = generate_id();
    let b = generate_id();
    assert_ne!(a, b);
}
