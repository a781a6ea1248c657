use std::path::Path;

use gitbase::db::Database;
use gitbase::errors::DatabaseError;

fn dir_entries(dir: &Path) -> Option<Vec<String>> {
    match fs_err::read_dir(dir) {
        Ok(read) => Some(
            read.filter_map(|e| e.ok())
                .filter_map(|e| e.file_name().to_str().map(|s| s.to_string()))
                .collect(),
        ),
        Err(_) => None,
    }
}

fn history_depth(root: &Path) -> usize {
    let repo = git2::Repository::open(root).unwrap();
    let mut commit = repo.head().unwrap().peel_to_commit().unwrap();
    let mut depth = 1;
    while commit.parent_count() > 0 {
        assert_eq!(commit.parent_count(), 1);
        commit = commit.parent(0).unwrap();
        depth += 1;
    }
    depth
}

fn task_record(name: &str, completed: bool) -> serde_json::Value {
    let mut m = serde_json::Map::new();
    m.insert("name".to_string(), serde_json::Value::String(name.to_string()));
    m.insert("completed".to_string(), serde_json::Value::Bool(completed));
    serde_json::Value::Object(m)
}

fn user_record(name: &str, age: u8) -> serde_json::Value {
    let mut m = serde_json::Map::new();
    m.insert("name".to_string(), serde_json::Value::String(name.to_string()));
    m.insert("age".to_string(), serde_json::Value::Number(serde_json::Number::from(age)));
    serde_json::Value::Object(m)
}

#[test]
fn fresh_store_generated_id_lists_and_round_trips() {
    let dir = tempfile::tempdir().unwrap();
    let root = dir.path().join("store");
    let db = Database::new(root.to_str().unwrap(), root.exists(), None, None).unwrap();

    let record = task_record("Buy milk", false);
    let data = serde_json::to_string_pretty(&record).unwrap();
    db.insert("tasks", None, &data).unwrap();

    let ids = db.get_collection("tasks", dir_entries(&root.join("tasks"))).unwrap();
    assert_eq!(ids.len(), 1);
    let id = &ids[0];
    assert_eq!(id.chars().count(), 36);

    let file = root.join("tasks").join(format!("{}.json", id));
    let bytes = fs_err::read(&file).unwrap();
    let decoded: serde_json::Value = serde_json::from_slice(&bytes).unwrap();
    assert_eq!(decoded, record);
}

#[test]
fn explicit_id_overwrites_and_extends_history() {
    let dir = tempfile::tempdir().unwrap();
    let root = dir.path().join("store");
    let db = Database::new(root.to_str().unwrap(), root.exists(), None, None).unwrap();

    let data20 = serde_json::to_string_pretty(&user_record("User1", 20)).unwrap();
    db.insert("users", Some("user1"), &data20).unwrap();
    let data21 = serde_json::to_string_pretty(&user_record("User1", 21)).unwrap();
    db.insert("users", Some("user1"), &data21).unwrap();

    let entries = dir_entries(&root.join("users")).unwrap();
    assert_eq!(entries, vec!["user1.json".to_string()]);

    let bytes = fs_err::read(root.join("users").join("user1.json")).unwrap();
    let decoded: serde_json::Value = serde_json::from_slice(&bytes).unwrap();
    assert_eq!(decoded, user_record("User1", 21));

    assert_eq!(history_depth(&root), 2);
}

#[test]
fn commit_messages_name_collection_and_id() {
    let dir = tempfile::tempdir().unwrap();
    let root = dir.path().join("store");
    let db = Database::new(root.to_str().unwrap(), root.exists(), None, None).unwrap();
    let data = serde_json::to_string_pretty(&user_record("User1", 20)).unwrap();
    db.insert("users", Some("user1"), &data).unwrap();

    let repo = git2::Repository::open(&root).unwrap();
    let commit = repo.head().unwrap().peel_to_commit().unwrap();
    assert_eq!(commit.message().unwrap(), "Update users / user1");
    assert_eq!(commit.author().name().unwrap(), "gitbase");
    assert_eq!(commit.author().email().unwrap(), "auto@gitbase.com");
}

#[test]
fn sequential_inserts_form_a_linear_history() {
    let dir = tempfile::tempdir().unwrap();
    let root = dir.path().join("store");
    let db = Database::new(root.to_str().unwrap(), root.exists(), None, None).unwrap();

    let data = serde_json::to_string_pretty(&task_record("a", false)).unwrap();
    db.insert("tasks", Some("t1"), &data).unwrap();
    db.insert("tasks", Some("t2"), &data).unwrap();
    db.insert("notes", Some("n1"), &data).unwrap();

    assert_eq!(history_depth(&root), 3);
}

#[test]
fn insert_succeeds_although_push_fails() {
    let dir = tempfile::tempdir().unwrap();
    let root = dir.path().join("store");
    let db0 = Database::new(root.to_str().unwrap(), root.exists(), None, None).unwrap();
    let data = serde_json::to_string_pretty(&task_record("first", false)).unwrap();
    db0.insert("tasks", Some("t1"), &data).unwrap();

    let repo = git2::Repository::open(&root).unwrap();
    repo.remote("origin", "file:///nonexistent-gitbase-remote/repo.git").unwrap();
    drop(repo);

    let db = Database::new(
        root.to_str().unwrap(),
        true,
        Some("file:///nonexistent-gitbase-remote/repo.git".to_string()),
        None,
    )
    .unwrap();
    assert!(db.has_remote());

    let data2 = serde_json::to_string_pretty(&task_record("second", true)).unwrap();
    assert_eq!(db.insert("tasks", Some("t2"), &data2), Ok(()));
    assert_eq!(history_depth(&root), 2);

    let db_with_key = Database::new(
        root.to_str().unwrap(),
        true,
        Some("file:///nonexistent-gitbase-remote/repo.git".to_string()),
        Some("/nonexistent/key/id_ed25519".to_string()),
    )
    .unwrap();
    let data3 = serde_json::to_string_pretty(&task_record("third", false)).unwrap();
    assert_eq!(db_with_key.insert("tasks", Some("t3"), &data3), Ok(()));
    assert_eq!(history_depth(&root), 3);
}

#[test]
fn listing_maps_file_names_to_ids() {
    let dir = tempfile::tempdir().unwrap();
    let root = dir.path().join("store");
    let db = Database::new(root.to_str().unwrap(), root.exists(), None, None).unwrap();

    let entries = vec![
        "a.json".to_string(),
        "b.json.json".to_string(),
        "c".to_string(),
    ];
    let ids = db.get_collection("things", Some(entries)).unwrap();
    assert_eq!(ids, vec!["a".to_string(), "b".to_string(), "c".to_string()]);
}

#[test]
fn unknown_collection_is_reported_as_such() {
    let dir = tempfile::tempdir().unwrap();
    let root = dir.path().join("store");
    let db = Database::new(root.to_str().unwrap(), root.exists(), None, None).unwrap();

    let ghost_dir = root.join("ghosts");
    assert!(dir_entries(&ghost_dir).is_none());
    assert_eq!(
        db.get_collection("ghosts", dir_entries(&ghost_dir)),
        Err(DatabaseError::UnknownCollection)
    );
}

#[test]
fn get_document_distinguishes_its_misses() {
    let dir = tempfile::tempdir().unwrap();
    let root = dir.path().join("store");
    let db = Database::new(root.to_str().unwrap(), root.exists(), None, None).unwrap();
    let data = serde_json::to_string_pretty(&user_record("User1", 20)).unwrap();
    db.insert("users", Some("user1"), &data).unwrap();

    assert_eq!(
        db.get_document("ghosts", "user1", false, None),
        Err(DatabaseError::UnknownCollection)
    );
    assert_eq!(db.get_document("users", "user9", true, None), Err(DatabaseError::NotFound));
    assert_eq!(
        db.get_document("users", "a/b", true, None),
        Err(DatabaseError::InvalidName)
    );

    let bytes = fs_err::read(root.join("users").join("user1.json")).unwrap();
    assert_eq!(db.get_document("users", "user1", true, Some(bytes.clone())), Ok(bytes));
}

#[test]
fn insert_rejects_escaping_names() {
    let dir = tempfile::tempdir().unwrap();
    let root = dir.path().join("store");
    let db = Database::new(root.to_str().unwrap(), root.exists(), None, None).unwrap();
    let data = serde_json::to_string_pretty(&task_record("x", false)).unwrap();

    assert_eq!(db.insert("../up", None, &data), Err(DatabaseError::InvalidName));
    assert_eq!(db.insert("tasks", Some("a/b"), &data), Err(DatabaseError::InvalidName));
    assert_eq!(db.insert("", None, &data), Err(DatabaseError::InvalidName));
    assert_eq!(db.insert("ta\0sks", None, &data), Err(DatabaseError::InvalidName));
    assert_eq!(db.insert("tasks", Some("t\0"), &data), Err(DatabaseError::InvalidName));
    assert!(dir_entries(&root.join("tasks")).is_none());
}

#[test]
fn commit_identity_can_be_configured() {
    let dir = tempfile::tempdir().unwrap();
    let root = dir.path().join("store");
    let db = Database::new(root.to_str().unwrap(), root.exists(), None, None)
        .unwrap()
        .with_identity("alice", "alice@example.com");
    let data = serde_json::to_string_pretty(&user_record("User1", 20)).unwrap();
    db.insert("users", Some("user1"), &data).unwrap();

    let repo = git2::Repository::open(&root).unwrap();
    let commit = repo.head().unwrap().peel_to_commit().unwrap();
    assert_eq!(commit.author().name().unwrap(), "alice");
    assert_eq!(commit.author().email().unwrap(), "alice@example.com");
    assert_eq!(commit.committer().name().unwrap(), "alice");
}

#[test]
fn remote_with_existing_non_store_path_fails_to_open() {
    let dir = tempfile::tempdir().unwrap();
    let root = dir.path().join("plain");
    fs_err::create_dir(&root).unwrap();
    let r = Database::new(
        root.to_str().unwrap(),
        true,
        Some("file:///nonexistent-gitbase-remote/repo.git".to_string()),
        None,
    );
    assert!(matches!(r, Err(DatabaseError::VersionControl)));
}

#[test]
fn unreachable_remote_clone_fails_with_transport() {
    let dir = tempfile::tempdir().unwrap();
    let root = dir.path().join("store");
    let r = Database::new(
        root.to_str().unwrap(),
        false,
        Some("file:///nonexistent-gitbase-remote/repo.git".to_string()),
        None,
    );
    assert!(matches!(r, Err(DatabaseError::Transport)));
}

#[test]
fn init_on_a_file_fails_with_version_control() {
    let dir = tempfile::tempdir().unwrap();
    let file = dir.path().join("occupied");
    fs_err::write(&file, b"not a directory").unwrap();
    let r = Database::new(file.to_str().unwrap(), file.exists(), None, None);
    assert!(matches!(r, Err(DatabaseError::VersionControl)));
}

#[test]
fn reopening_an_existing_store_keeps_its_history() {
    let dir = tempfile::tempdir().unwrap();
    let root = dir.path().join("store");
    let data = serde_json::to_string_pretty(&task_record("a", false)).unwrap();
    {
        let db = Database::new(root.to_str().unwrap(), root.exists(), None, None).unwrap();
        db.insert("tasks", Some("t1"), &data).unwrap();
    }
    let db = Database::new(root.to_str().unwrap(), root.exists(), None, None).unwrap();
    db.insert("tasks", Some("t2"), &data).unwrap();
    assert_eq!(history_depth(&root), 2);

    let ids = db.get_collection("tasks", dir_entries(&root.join("tasks"))).unwrap();
    let mut sorted = ids.clone();
    sorted.sort();
    assert_eq!(sorted, vec!["t1".to_string(), "t2".to_string()]);
}

#[test]
fn cloning_a_local_remote_populates_the_store() {
    let dir = tempfile::tempdir().unwrap();
    let origin = dir.path().join("origin");
    let data = serde_json::to_string_pretty(&user_record("User1", 20)).unwrap();
    {
        let db = Database::new(origin.to_str().unwrap(), origin.exists(), None, None).unwrap();
        db.insert("users", Some("user1"), &data).unwrap();
    }

    let root = dir.path().join("copy");
    let url = format!("file://{}", origin.to_str().unwrap());
    let db = Database::new(root.to_str().unwrap(), root.exists(), Some(url.clone()), None).unwrap();
    assert!(db.has_remote());

    let bytes = fs_err::read(root.join("users").join("user1.json")).unwrap();
    let decoded: serde_json::Value = serde_json::from_slice(&bytes).unwrap();
    assert_eq!(decoded, user_record("User1", 20));

    let root2 = dir.path().join("copy2");
    let db2 = Database::new(
        root2.to_str().unwrap(),
        root2.exists(),
        Some(url),
        Some("/nonexistent/key/id_ed25519".to_string()),
    )
    .unwrap();
    assert!(db2.has_remote());
    assert!(root2.join("users").join("user1.json").exists());
}
