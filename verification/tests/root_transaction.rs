use publish::transactions::{ChildTransaction, LogTransaction, RootTransaction, SharedLog};
use publish::transactions::Transaction;

#[test]
fn test_add_children_sequential() {
    let log = SharedLog::new();

    let transaction_a = LogTransaction::new(1, log.clone());
    let transaction_b = LogTransaction::new(2, log.clone());
    let transaction_c = LogTransaction::new(3, log.clone());

    let mut root_transaction = RootTransaction::new();
    root_transaction.add_child(ChildTransaction::Log(transaction_a));
    root_transaction.add_child(ChildTransaction::Log(transaction_b));
    root_transaction.add_child(ChildTransaction::Log(transaction_c));

    root_transaction.commit().unwrap();

    assert_eq!(log.snapshot(), vec![1, 2, 3]);

    root_transaction.rollback().unwrap();

    assert!(log.snapshot().is_empty());
}

#[test]
fn test_add_children_parallel() {
    let log = SharedLog::new();

    let transaction_a = LogTransaction::new(1, log.clone());
    let transaction_b = LogTransaction::new(2, log.clone());
    let transaction_c = LogTransaction::new(3, log.clone());

    let mut root_transaction = RootTransaction::new();
    root_transaction.add_child_parallel(ChildTransaction::Log(transaction_a));
    root_transaction.add_child_parallel(ChildTransaction::Log(transaction_b));
    root_transaction.add_child_parallel(ChildTransaction::Log(transaction_c));

    root_transaction.commit().unwrap();

    let mut markers = log.snapshot();
    markers.sort_unstable();
    assert_eq!(markers, vec![1, 2, 3]);

    root_transaction.rollback().unwrap();

    assert!(log.snapshot().is_empty());
}

#[test]
fn test_nested_root_transaction() {
    let log = SharedLog::new();

    let mut inner = RootTransaction::new();
    inner.add_child(ChildTransaction::Log(LogTransaction::new(2, log.clone())));
    inner.add_child(ChildTransaction::Log(LogTransaction::new(3, log.clone())));

    let mut root_transaction = RootTransaction::new();
    root_transaction.add_child(ChildTransaction::Log(LogTransaction::new(1, log.clone())));
    root_transaction.add_child(ChildTransaction::Root(inner));

    root_transaction.commit().unwrap();

    assert_eq!(log.snapshot(), vec![1, 2, 3]);

    root_transaction.rollback().unwrap();

    assert!(log.snapshot().is_empty());
}

#[test]
fn test_empty_root_transaction_commits() {
    let mut root_transaction = RootTransaction::new();
    assert!(root_transaction.commit().is_ok());
    assert!(root_transaction.rollback().is_ok());
}

#[test]
fn test_commit_collects_child_errors() {
    // A filesystem child whose copy source does not exist fails its
    // commit; the root transaction aggregates the failure instead of
    // panicking or dropping it.
    let tmp_root_dir = tempfile::TempDir::new().unwrap();
    let log = SharedLog::new();

    let mut fs_transaction =
        publish::transactions::FilesystemTransaction::new(tmp_root_dir.path().to_str().unwrap())
            .unwrap();
    let missing_source = tmp_root_dir.path().join("missing");
    fs_transaction.copy_path(missing_source.to_str().unwrap(), "copied");

    let mut root_transaction = RootTransaction::new();
    root_transaction.add_child(ChildTransaction::Filesystem(fs_transaction));
    root_transaction.add_child(ChildTransaction::Log(LogTransaction::new(7, log.clone())));

    let err = root_transaction.commit().unwrap_err();
    match err {
        publish::Error::RootTransaction(errors) => {
            assert_eq!(errors.len(), 1);
            assert!(matches!(errors[0], publish::Error::Transaction(_)));
        }
        other => panic!("unexpected error {:?}", other),
    }

    // The later group still ran: errors are collected, not short-circuited.
    assert_eq!(log.snapshot(), vec![7]);
}
