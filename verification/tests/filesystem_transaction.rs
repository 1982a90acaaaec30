use std::io::{Read, Write};
use cap_std::fs::{MetadataExt, PermissionsExt};

use publish::transactions::{FilesystemTransaction, Permissions, Transaction};

fn open_dir(path: &std::path::Path) -> cap_std::fs::Dir {
    cap_std::fs::Dir::open_ambient_dir(path, cap_std::ambient_authority()).unwrap()
}

fn write_file(dir: &cap_std::fs::Dir, name: &str, bytes: &[u8]) {
    let mut f = dir.create(name).unwrap();
    f.write_all(bytes).unwrap();
}

fn read_file(dir: &cap_std::fs::Dir, name: &str) -> Vec<u8> {
    let mut f = dir.open(name).unwrap();
    let mut bytes = Vec::new();
    f.read_to_end(&mut bytes).unwrap();
    bytes
}

fn path_exists(dir: &cap_std::fs::Dir, name: &str) -> bool {
    dir.metadata(name).is_ok()
}

#[test]
fn test_copy_file_success() {
    let tmp_source_dir = tempfile::TempDir::new().unwrap();
    let tmp_target_dir = tempfile::TempDir::new().unwrap();
    let source = open_dir(tmp_source_dir.path());
    let target = open_dir(tmp_target_dir.path());
    write_file(&source, "test", b"test");

    let mut transaction =
        FilesystemTransaction::new(tmp_target_dir.path().to_str().unwrap()).unwrap();
    let source_file = tmp_source_dir.path().join("test");
    transaction.copy_path(source_file.to_str().unwrap(), "test");
    transaction.commit().unwrap();

    assert!(path_exists(&source, "test"));
    assert!(path_exists(&target, "test"));
    assert_eq!(read_file(&source, "test"), read_file(&target, "test"));

    transaction.rollback().unwrap();
    assert!(path_exists(&source, "test"));
    assert!(!path_exists(&target, "test"));
}

#[test]
fn test_copy_files_success() {
    let tmp_source_dir = tempfile::TempDir::new().unwrap();
    let tmp_target_dir = tempfile::TempDir::new().unwrap();
    let source = open_dir(tmp_source_dir.path());
    let target = open_dir(tmp_target_dir.path());
    let file_names = ["test1", "test2", "test3"];

    let mut transaction =
        FilesystemTransaction::new(tmp_target_dir.path().to_str().unwrap()).unwrap();
    for file_name in &file_names {
        write_file(&source, file_name, b"test");
        let source_file = tmp_source_dir.path().join(file_name);
        transaction.copy_path(source_file.to_str().unwrap(), file_name);
    }
    transaction.commit().unwrap();

    for file_name in &file_names {
        assert!(path_exists(&source, file_name));
        assert!(path_exists(&target, file_name));
        assert_eq!(read_file(&source, file_name), read_file(&target, file_name));
    }

    transaction.rollback().unwrap();
    for file_name in &file_names {
        assert!(path_exists(&source, file_name));
        assert!(!path_exists(&target, file_name));
    }
}

#[test]
fn test_copy_file_failure_invalid_target_dir() {
    let tmp_source_dir = tempfile::TempDir::new().unwrap();
    let tmp_target_dir = tempfile::TempDir::new().unwrap();
    let tmp_other_target_dir = tempfile::TempDir::new().unwrap();
    let source = open_dir(tmp_source_dir.path());
    let target = open_dir(tmp_target_dir.path());
    let other_target = open_dir(tmp_other_target_dir.path());
    write_file(&source, "test", b"test");

    // The transaction is confined to the other target directory, and the
    // copy's target tries to escape it.
    let mut transaction =
        FilesystemTransaction::new(tmp_other_target_dir.path().to_str().unwrap()).unwrap();
    let source_file = tmp_source_dir.path().join("test");
    let escape = tmp_target_dir.path().join("test");
    transaction.copy_path(source_file.to_str().unwrap(), escape.to_str().unwrap());

    assert!(transaction.commit().is_err());
    assert!(path_exists(&source, "test"));
    assert!(!path_exists(&target, "test"));
    assert!(!path_exists(&other_target, "test"));
}

#[test]
fn test_copy_dir_success() {
    let tmp_source_dir = tempfile::TempDir::new().unwrap();
    let tmp_target_dir = tempfile::TempDir::new().unwrap();
    let source = open_dir(tmp_source_dir.path());
    let target = open_dir(tmp_target_dir.path());
    source.create_dir("tree").unwrap();
    source.create_dir("tree/sub").unwrap();
    write_file(&source, "tree/a", b"alpha");
    write_file(&source, "tree/sub/b", b"beta");

    let mut transaction =
        FilesystemTransaction::new(tmp_target_dir.path().to_str().unwrap()).unwrap();
    let source_tree = tmp_source_dir.path().join("tree");
    transaction.copy_path(source_tree.to_str().unwrap(), "tree");
    transaction.commit().unwrap();

    assert_eq!(read_file(&target, "tree/a"), b"alpha".to_vec());
    assert_eq!(read_file(&target, "tree/sub/b"), b"beta".to_vec());

    transaction.rollback().unwrap();
    assert!(!path_exists(&target, "tree"));
    assert!(path_exists(&source, "tree/sub/b"));
}

#[test]
fn test_copy_dir_failure_invalid_target_dir() {
    let tmp_source_dir = tempfile::TempDir::new().unwrap();
    let tmp_target_dir = tempfile::TempDir::new().unwrap();
    let source = open_dir(tmp_source_dir.path());
    let target = open_dir(tmp_target_dir.path());
    source.create_dir("tree").unwrap();
    write_file(&source, "tree/a", b"alpha");

    let mut transaction =
        FilesystemTransaction::new(tmp_target_dir.path().to_str().unwrap()).unwrap();
    let source_tree = tmp_source_dir.path().join("tree");
    transaction.copy_path(source_tree.to_str().unwrap(), "../escape");

    assert!(transaction.commit().is_err());
    assert!(!path_exists(&target, "../escape"));
    assert!(path_exists(&source, "tree/a"));
}

#[test]
fn test_move_file_success() {
    let tmp_source_dir = tempfile::TempDir::new().unwrap();
    let tmp_target_dir = tempfile::TempDir::new().unwrap();
    let source = open_dir(tmp_source_dir.path());
    let target = open_dir(tmp_target_dir.path());
    write_file(&source, "test", b"test content");

    let mut transaction =
        FilesystemTransaction::new(tmp_target_dir.path().to_str().unwrap()).unwrap();
    let source_file = tmp_source_dir.path().join("test");
    transaction.move_path(source_file.to_str().unwrap(), "test");
    transaction.commit().unwrap();

    assert!(!path_exists(&source, "test"));
    assert_eq!(read_file(&target, "test"), b"test content".to_vec());

    transaction.rollback().unwrap();
    assert!(!path_exists(&target, "test"));
    assert_eq!(read_file(&source, "test"), b"test content".to_vec());
}

#[test]
fn test_move_files_success() {
    let tmp_source_dir = tempfile::TempDir::new().unwrap();
    let tmp_target_dir = tempfile::TempDir::new().unwrap();
    let source = open_dir(tmp_source_dir.path());
    let target = open_dir(tmp_target_dir.path());
    let file_names = ["test1", "test2", "test3"];

    let mut transaction =
        FilesystemTransaction::new(tmp_target_dir.path().to_str().unwrap()).unwrap();
    for file_name in &file_names {
        write_file(&source, file_name, b"test");
        let source_file = tmp_source_dir.path().join(file_name);
        transaction.move_path(source_file.to_str().unwrap(), file_name);
    }
    transaction.commit().unwrap();

    for file_name in &file_names {
        assert!(!path_exists(&source, file_name));
        assert!(path_exists(&target, file_name));
    }

    transaction.rollback().unwrap();
    for file_name in &file_names {
        assert!(path_exists(&source, file_name));
        assert!(!path_exists(&target, file_name));
    }
}

#[test]
fn test_move_file_failure_invalid_target_dir() {
    let tmp_source_dir = tempfile::TempDir::new().unwrap();
    let tmp_target_dir = tempfile::TempDir::new().unwrap();
    let source = open_dir(tmp_source_dir.path());
    write_file(&source, "test", b"test");

    let mut transaction =
        FilesystemTransaction::new(tmp_target_dir.path().to_str().unwrap()).unwrap();
    let source_file = tmp_source_dir.path().join("test");
    transaction.move_path(source_file.to_str().unwrap(), "../escape");

    assert!(transaction.commit().is_err());
    assert!(path_exists(&source, "test"));
}

#[test]
fn test_move_dir_success() {
    let tmp_source_dir = tempfile::TempDir::new().unwrap();
    let tmp_target_dir = tempfile::TempDir::new().unwrap();
    let source = open_dir(tmp_source_dir.path());
    let target = open_dir(tmp_target_dir.path());
    source.create_dir("tree").unwrap();
    write_file(&source, "tree/a", b"alpha");

    let mut transaction =
        FilesystemTransaction::new(tmp_target_dir.path().to_str().unwrap()).unwrap();
    let source_tree = tmp_source_dir.path().join("tree");
    transaction.move_path(source_tree.to_str().unwrap(), "tree");
    transaction.commit().unwrap();

    assert!(!path_exists(&source, "tree"));
    assert_eq!(read_file(&target, "tree/a"), b"alpha".to_vec());

    transaction.rollback().unwrap();
    assert!(!path_exists(&target, "tree"));
    assert_eq!(read_file(&source, "tree/a"), b"alpha".to_vec());
}

#[test]
fn test_unix_hard_link_file_success() {
    let tmp_root_dir = tempfile::TempDir::new().unwrap();
    let root = open_dir(tmp_root_dir.path());
    write_file(&root, "test", b"linked");

    let mut transaction =
        FilesystemTransaction::new(tmp_root_dir.path().to_str().unwrap()).unwrap();
    transaction.hard_link_path("test", "link");
    transaction.commit().unwrap();

    assert_eq!(read_file(&root, "link"), b"linked".to_vec());

    transaction.rollback().unwrap();
    assert!(!path_exists(&root, "link"));
    assert!(path_exists(&root, "test"));
}

#[test]
fn test_hard_link_file_failure_invalid_target_dir() {
    let tmp_root_dir = tempfile::TempDir::new().unwrap();
    let root = open_dir(tmp_root_dir.path());
    write_file(&root, "test", b"linked");

    let mut transaction =
        FilesystemTransaction::new(tmp_root_dir.path().to_str().unwrap()).unwrap();
    transaction.hard_link_path("test", "../escape");

    assert!(transaction.commit().is_err());
    assert!(!path_exists(&root, "../escape"));
}

#[test]
fn test_soft_link_file_success() {
    let tmp_root_dir = tempfile::TempDir::new().unwrap();
    let root = open_dir(tmp_root_dir.path());
    write_file(&root, "test", b"pointed at");

    let mut transaction =
        FilesystemTransaction::new(tmp_root_dir.path().to_str().unwrap()).unwrap();
    transaction.soft_link_path("test", "link");
    transaction.commit().unwrap();

    assert_eq!(read_file(&root, "link"), b"pointed at".to_vec());

    transaction.rollback().unwrap();
    assert!(!path_exists(&root, "link"));
    assert!(path_exists(&root, "test"));
}

#[test]
fn test_soft_link_dir_success() {
    let tmp_root_dir = tempfile::TempDir::new().unwrap();
    let root = open_dir(tmp_root_dir.path());
    root.create_dir("tree").unwrap();
    write_file(&root, "tree/a", b"alpha");

    let mut transaction =
        FilesystemTransaction::new(tmp_root_dir.path().to_str().unwrap()).unwrap();
    transaction.soft_link_path("tree", "link");
    transaction.commit().unwrap();

    assert_eq!(read_file(&root, "link/a"), b"alpha".to_vec());

    transaction.rollback().unwrap();
    assert!(!path_exists(&root, "link"));
    assert!(path_exists(&root, "tree/a"));
}

#[test]
fn test_create_dir_success() {
    let tmp_root_dir = tempfile::TempDir::new().unwrap();
    let root = open_dir(tmp_root_dir.path());

    let mut transaction =
        FilesystemTransaction::new(tmp_root_dir.path().to_str().unwrap()).unwrap();
    transaction.create_directory("a/b/c");
    transaction.commit().unwrap();

    assert!(path_exists(&root, "a/b/c"));
}

#[test]
fn test_delete_file_success() {
    let tmp_root_dir = tempfile::TempDir::new().unwrap();
    let root = open_dir(tmp_root_dir.path());
    write_file(&root, "test", b"doomed");

    let mut transaction =
        FilesystemTransaction::new(tmp_root_dir.path().to_str().unwrap()).unwrap();
    transaction.delete_path("test");
    transaction.commit().unwrap();

    assert!(!path_exists(&root, "test"));

    // Deletion is irreversible: rolling back restores nothing.
    transaction.rollback().unwrap();
    assert!(!path_exists(&root, "test"));
}

#[test]
fn test_delete_dir_success() {
    let tmp_root_dir = tempfile::TempDir::new().unwrap();
    let root = open_dir(tmp_root_dir.path());
    root.create_dir("tree").unwrap();
    write_file(&root, "tree/a", b"doomed");

    let mut transaction =
        FilesystemTransaction::new(tmp_root_dir.path().to_str().unwrap()).unwrap();
    transaction.delete_path("tree");
    transaction.commit().unwrap();

    assert!(!path_exists(&root, "tree"));
}

#[test]
fn test_change_file_owner_permissions() {
    let tmp_root_dir = tempfile::TempDir::new().unwrap();
    let root = open_dir(tmp_root_dir.path());
    write_file(&root, "test", b"test");
    let initial_mode = root.metadata("test").unwrap().mode();
    let initial_uid = root.metadata("test").unwrap().uid();
    let initial_gid = root.metadata("test").unwrap().gid();

    // Fully unchanged permissions change nothing.
    let mut transaction =
        FilesystemTransaction::new(tmp_root_dir.path().to_str().unwrap()).unwrap();
    transaction.change_owner_permissions("test", None, None, Some(Permissions::default()));
    transaction.commit().unwrap();
    assert_eq!(root.metadata("test").unwrap().mode(), initial_mode);

    transaction.rollback().unwrap();
    assert_eq!(root.metadata("test").unwrap().mode(), initial_mode);

    // Setting the owner and group to the current names changes
    // nothing; the check runs only where the ids resolve to names.
    let user = nix::unistd::User::from_uid(nix::unistd::Uid::from_raw(initial_uid)).unwrap();
    let group = nix::unistd::Group::from_gid(nix::unistd::Gid::from_raw(initial_gid)).unwrap();
    if let (Some(user), Some(group)) = (user, group) {
        let mut transaction =
            FilesystemTransaction::new(tmp_root_dir.path().to_str().unwrap()).unwrap();
        transaction.change_owner_permissions(
            "test",
            Some(user.name.as_str()),
            Some(group.name.as_str()),
            None,
        );
        transaction.commit().unwrap();
        assert_eq!(root.metadata("test").unwrap().uid(), initial_uid);
        assert_eq!(root.metadata("test").unwrap().gid(), initial_gid);
    }

    // Each permission bit set alone applies exactly, and rolling back
    // restores the pre-commit mode each time.
    let single_bits = [0o400, 0o200, 0o100, 0o040, 0o020, 0o010, 0o004, 0o002, 0o001];
    for bit in single_bits {
        let mut transaction =
            FilesystemTransaction::new(tmp_root_dir.path().to_str().unwrap()).unwrap();
        transaction.change_owner_permissions("test", None, None, Some(Permissions::from_mode(bit)));
        transaction.commit().unwrap();
        assert_eq!(root.metadata("test").unwrap().mode() & 0o777, bit);

        transaction.rollback().unwrap();
        assert_eq!(root.metadata("test").unwrap().mode(), initial_mode);
    }

    // All bits at once, and one more full change with rollback.
    let mut transaction =
        FilesystemTransaction::new(tmp_root_dir.path().to_str().unwrap()).unwrap();
    transaction.change_owner_permissions("test", None, None, Some(Permissions::from_mode(0o777)));
    transaction.commit().unwrap();
    assert_eq!(root.metadata("test").unwrap().mode() & 0o777, 0o777);

    transaction.rollback().unwrap();
    assert_eq!(root.metadata("test").unwrap().mode(), initial_mode);

    let mut transaction =
        FilesystemTransaction::new(tmp_root_dir.path().to_str().unwrap()).unwrap();
    transaction.change_owner_permissions("test", None, None, Some(Permissions::from_mode(0o400)));
    transaction.commit().unwrap();
    assert_eq!(root.metadata("test").unwrap().mode() & 0o777, 0o400);

    transaction.rollback().unwrap();
    assert_eq!(root.metadata("test").unwrap().mode(), initial_mode);
}

#[test]
fn test_partial_permission_edit_keeps_other_bits() {
    let tmp_root_dir = tempfile::TempDir::new().unwrap();
    let root = open_dir(tmp_root_dir.path());
    write_file(&root, "test", b"test");
    root.set_permissions("test", cap_std::fs::Permissions::from_mode(0o644)).unwrap();

    // Only the user-execute bit is touched; every other bit keeps its
    // current value through the tri-state merge.
    let mut edit = Permissions::default();
    edit.user.execute = publish::transactions::Permission::Enabled;

    let mut transaction =
        FilesystemTransaction::new(tmp_root_dir.path().to_str().unwrap()).unwrap();
    transaction.change_owner_permissions("test", None, None, Some(edit));
    transaction.commit().unwrap();

    assert_eq!(root.metadata("test").unwrap().mode() & 0o777, 0o744);
}

#[test]
fn test_batched_classes_execute_in_order() {
    // copy, delete of the copy's own source inside the root, then a
    // directory creation: three classification changes, three batches.
    let tmp_source_dir = tempfile::TempDir::new().unwrap();
    let tmp_root_dir = tempfile::TempDir::new().unwrap();
    let source = open_dir(tmp_source_dir.path());
    let root = open_dir(tmp_root_dir.path());
    write_file(&source, "a", b"payload");
    write_file(&root, "old", b"stale");

    let mut transaction =
        FilesystemTransaction::new(tmp_root_dir.path().to_str().unwrap()).unwrap();
    let source_file = tmp_source_dir.path().join("a");
    transaction.copy_path(source_file.to_str().unwrap(), "a");
    transaction.delete_path("old");
    transaction.create_directory("fresh");
    transaction.commit().unwrap();

    assert_eq!(read_file(&root, "a"), b"payload".to_vec());
    assert!(!path_exists(&root, "old"));
    assert!(path_exists(&root, "fresh"));

    transaction.rollback().unwrap();
    assert!(!path_exists(&root, "a"));
    assert!(!path_exists(&root, "old"));
    assert!(!path_exists(&root, "fresh"));
}

#[test]
fn test_move_source_without_file_name_fails() {
    let tmp_root_dir = tempfile::TempDir::new().unwrap();

    let mut transaction =
        FilesystemTransaction::new(tmp_root_dir.path().to_str().unwrap()).unwrap();
    transaction.move_path("/", "test");

    let err = transaction.commit().unwrap_err();
    match err {
        publish::Error::Commit(inner) => {
            assert!(matches!(*inner, publish::Error::SourcePathInvalid(_)));
        }
        other => panic!("unexpected error {:?}", other),
    }
}

#[test]
fn test_delete_missing_path_fails_commit() {
    let tmp_root_dir = tempfile::TempDir::new().unwrap();

    let mut transaction =
        FilesystemTransaction::new(tmp_root_dir.path().to_str().unwrap()).unwrap();
    transaction.delete_path("missing");

    // The OS's not-found error surfaces, wrapped as a commit failure.
    let err = transaction.commit().unwrap_err();
    match err {
        publish::Error::Commit(inner) => {
            assert!(matches!(*inner, publish::Error::IO(_)));
        }
        other => panic!("unexpected error {:?}", other),
    }
}

#[test]
fn test_new_fails_on_missing_root() {
    let tmp_root_dir = tempfile::TempDir::new().unwrap();
    let missing = tmp_root_dir.path().join("missing");
    let result = FilesystemTransaction::new(missing.to_str().unwrap());
    assert!(matches!(result, Err(publish::Error::IO(_))));
}

#[test]
fn test_copy_dirs_success() {
    let tmp_source_dir = tempfile::TempDir::new().unwrap();
    let tmp_target_dir = tempfile::TempDir::new().unwrap();
    let source = open_dir(tmp_source_dir.path());
    let target = open_dir(tmp_target_dir.path());
    let dir_names = ["tree1", "tree2", "tree3"];

    let mut transaction =
        FilesystemTransaction::new(tmp_target_dir.path().to_str().unwrap()).unwrap();
    for dir_name in &dir_names {
        source.create_dir(dir_name).unwrap();
        write_file(&source, format!("{}/a", dir_name).as_str(), b"alpha");
        let source_tree = tmp_source_dir.path().join(dir_name);
        transaction.copy_path(source_tree.to_str().unwrap(), dir_name);
    }
    transaction.commit().unwrap();

    for dir_name in &dir_names {
        assert_eq!(read_file(&target, format!("{}/a", dir_name).as_str()), b"alpha".to_vec());
    }

    transaction.rollback().unwrap();
    for dir_name in &dir_names {
        assert!(!path_exists(&target, dir_name));
        assert!(path_exists(&source, format!("{}/a", dir_name).as_str()));
    }
}

#[test]
fn test_move_dirs_success() {
    let tmp_source_dir = tempfile::TempDir::new().unwrap();
    let tmp_target_dir = tempfile::TempDir::new().unwrap();
    let source = open_dir(tmp_source_dir.path());
    let target = open_dir(tmp_target_dir.path());
    let dir_names = ["tree1", "tree2", "tree3"];

    let mut transaction =
        FilesystemTransaction::new(tmp_target_dir.path().to_str().unwrap()).unwrap();
    for dir_name in &dir_names {
        source.create_dir(dir_name).unwrap();
        write_file(&source, format!("{}/a", dir_name).as_str(), b"alpha");
        let source_tree = tmp_source_dir.path().join(dir_name);
        transaction.move_path(source_tree.to_str().unwrap(), dir_name);
    }
    transaction.commit().unwrap();

    for dir_name in &dir_names {
        assert!(!path_exists(&source, dir_name));
        assert_eq!(read_file(&target, format!("{}/a", dir_name).as_str()), b"alpha".to_vec());
    }

    transaction.rollback().unwrap();
    for dir_name in &dir_names {
        assert!(!path_exists(&target, dir_name));
        assert_eq!(read_file(&source, format!("{}/a", dir_name).as_str()), b"alpha".to_vec());
    }
}

#[test]
fn test_move_dir_failure_invalid_target_dir() {
    let tmp_source_dir = tempfile::TempDir::new().unwrap();
    let tmp_target_dir = tempfile::TempDir::new().unwrap();
    let source = open_dir(tmp_source_dir.path());
    source.create_dir("tree").unwrap();
    write_file(&source, "tree/a", b"alpha");

    let mut transaction =
        FilesystemTransaction::new(tmp_target_dir.path().to_str().unwrap()).unwrap();
    let source_tree = tmp_source_dir.path().join("tree");
    transaction.move_path(source_tree.to_str().unwrap(), "../escape");

    assert!(transaction.commit().is_err());
    assert!(path_exists(&source, "tree/a"));
}

#[test]
fn test_unix_hard_link_files_success() {
    let tmp_root_dir = tempfile::TempDir::new().unwrap();
    let root = open_dir(tmp_root_dir.path());
    let file_names = ["test1", "test2", "test3"];

    let mut transaction =
        FilesystemTransaction::new(tmp_root_dir.path().to_str().unwrap()).unwrap();
    for file_name in &file_names {
        write_file(&root, file_name, b"linked");
        transaction.hard_link_path(file_name, format!("{}-link", file_name).as_str());
    }
    transaction.commit().unwrap();

    for file_name in &file_names {
        assert_eq!(read_file(&root, format!("{}-link", file_name).as_str()), b"linked".to_vec());
    }

    transaction.rollback().unwrap();
    for file_name in &file_names {
        assert!(!path_exists(&root, format!("{}-link", file_name).as_str()));
        assert!(path_exists(&root, file_name));
    }
}

#[test]
fn test_soft_link_files_success() {
    let tmp_root_dir = tempfile::TempDir::new().unwrap();
    let root = open_dir(tmp_root_dir.path());
    let file_names = ["test1", "test2", "test3"];

    let mut transaction =
        FilesystemTransaction::new(tmp_root_dir.path().to_str().unwrap()).unwrap();
    for file_name in &file_names {
        write_file(&root, file_name, b"pointed at");
        transaction.soft_link_path(file_name, format!("{}-link", file_name).as_str());
    }
    transaction.commit().unwrap();

    for file_name in &file_names {
        assert_eq!(
            read_file(&root, format!("{}-link", file_name).as_str()),
            b"pointed at".to_vec()
        );
    }

    transaction.rollback().unwrap();
    for file_name in &file_names {
        assert!(!path_exists(&root, format!("{}-link", file_name).as_str()));
        assert!(path_exists(&root, file_name));
    }
}

#[test]
fn test_soft_link_file_failure_invalid_target_dir() {
    let tmp_root_dir = tempfile::TempDir::new().unwrap();
    let root = open_dir(tmp_root_dir.path());
    write_file(&root, "test", b"pointed at");

    let mut transaction =
        FilesystemTransaction::new(tmp_root_dir.path().to_str().unwrap()).unwrap();
    transaction.soft_link_path("test", "../escape");

    assert!(transaction.commit().is_err());
    assert!(!path_exists(&root, "../escape"));
}

#[test]
fn test_soft_link_dirs_success() {
    let tmp_root_dir = tempfile::TempDir::new().unwrap();
    let root = open_dir(tmp_root_dir.path());
    let dir_names = ["tree1", "tree2", "tree3"];

    let mut transaction =
        FilesystemTransaction::new(tmp_root_dir.path().to_str().unwrap()).unwrap();
    for dir_name in &dir_names {
        root.create_dir(dir_name).unwrap();
        write_file(&root, format!("{}/a", dir_name).as_str(), b"alpha");
        transaction.soft_link_path(dir_name, format!("{}-link", dir_name).as_str());
    }
    transaction.commit().unwrap();

    for dir_name in &dir_names {
        assert_eq!(read_file(&root, format!("{}-link/a", dir_name).as_str()), b"alpha".to_vec());
    }

    transaction.rollback().unwrap();
    for dir_name in &dir_names {
        assert!(!path_exists(&root, format!("{}-link", dir_name).as_str()));
        assert!(path_exists(&root, format!("{}/a", dir_name).as_str()));
    }
}

#[test]
fn test_soft_link_dir_failure_invalid_target_dir() {
    let tmp_root_dir = tempfile::TempDir::new().unwrap();
    let root = open_dir(tmp_root_dir.path());
    root.create_dir("tree").unwrap();

    let mut transaction =
        FilesystemTransaction::new(tmp_root_dir.path().to_str().unwrap()).unwrap();
    transaction.soft_link_path("tree", "../escape");

    assert!(transaction.commit().is_err());
    assert!(path_exists(&root, "tree"));
}

#[test]
fn test_rollback_of_uncommitted_actions_is_benign() {
    // A stage can fail before its transaction ever commits; the runner
    // still replays the rollback list, whose entries then point at work
    // that never happened. Nothing may fail and nothing may change.
    let tmp_source_dir = tempfile::TempDir::new().unwrap();
    let tmp_root_dir = tempfile::TempDir::new().unwrap();
    let source = open_dir(tmp_source_dir.path());
    let root = open_dir(tmp_root_dir.path());
    write_file(&source, "kept", b"untouched");

    let mut transaction =
        FilesystemTransaction::new(tmp_root_dir.path().to_str().unwrap()).unwrap();
    let source_file = tmp_source_dir.path().join("kept");
    transaction.copy_path(source_file.to_str().unwrap(), "copied");
    transaction.move_path(source_file.to_str().unwrap(), "moved");
    transaction.create_directory("made");

    transaction.rollback().unwrap();

    assert_eq!(read_file(&source, "kept"), b"untouched".to_vec());
    assert!(!path_exists(&root, "copied"));
    assert!(!path_exists(&root, "moved"));
    assert!(!path_exists(&root, "made"));
}

#[test]
fn test_commit_then_rollback_restores_all_but_deletes() {
    // One transaction holding every kind of action: after a successful
    // commit, replaying the synthesized rollback list restores the root
    // to its pre-commit file set and metadata, except the explicitly
    // deleted path, which stays gone.
    let tmp_source_dir = tempfile::TempDir::new().unwrap();
    let tmp_root_dir = tempfile::TempDir::new().unwrap();
    let source = open_dir(tmp_source_dir.path());
    let root = open_dir(tmp_root_dir.path());

    write_file(&source, "to-copy", b"copy me");
    write_file(&source, "to-move", b"move me");
    write_file(&root, "linkable", b"link me");
    write_file(&root, "doomed", b"delete me");
    write_file(&root, "chmodded", b"restyle me");
    root.set_permissions("chmodded", cap_std::fs::Permissions::from_mode(0o640)).unwrap();

    let mut transaction =
        FilesystemTransaction::new(tmp_root_dir.path().to_str().unwrap()).unwrap();
    let copy_source = tmp_source_dir.path().join("to-copy");
    let move_source = tmp_source_dir.path().join("to-move");
    transaction.copy_path(copy_source.to_str().unwrap(), "copied");
    transaction.move_path(move_source.to_str().unwrap(), "moved");
    transaction.hard_link_path("linkable", "hard-linked");
    transaction.soft_link_path("linkable", "soft-linked");
    transaction.create_directory("created");
    transaction.delete_path("doomed");
    transaction.change_owner_permissions(
        "chmodded",
        None,
        None,
        Some(Permissions::from_mode(0o400)),
    );
    transaction.commit().unwrap();

    assert!(path_exists(&root, "copied"));
    assert!(path_exists(&root, "moved"));
    assert!(path_exists(&root, "hard-linked"));
    assert!(path_exists(&root, "soft-linked"));
    assert!(path_exists(&root, "created"));
    assert!(!path_exists(&root, "doomed"));
    assert_eq!(root.metadata("chmodded").unwrap().mode() & 0o777, 0o400);

    transaction.rollback().unwrap();

    assert!(!path_exists(&root, "copied"));
    assert!(!path_exists(&root, "moved"));
    assert!(!path_exists(&root, "hard-linked"));
    assert!(!path_exists(&root, "soft-linked"));
    assert!(!path_exists(&root, "created"));
    assert_eq!(read_file(&source, "to-copy"), b"copy me".to_vec());
    assert_eq!(read_file(&source, "to-move"), b"move me".to_vec());
    assert_eq!(read_file(&root, "linkable"), b"link me".to_vec());
    assert_eq!(root.metadata("chmodded").unwrap().mode() & 0o777, 0o640);

    // The delete is irreversible by contract.
    assert!(!path_exists(&root, "doomed"));
}
