use std::io::{Read, Write};

use publish::transactions::{ChildTransaction, FilesystemTransaction, Permissions, RootTransaction};
use publish::{Context, Error, Publish, Value};

struct TestPublish;

impl Publish for TestPublish {
    fn pre_publish(
        &self,
        _transaction: &mut RootTransaction,
        context: Context,
    ) -> Result<Context, Error> {
        let mut context = context;
        context.set("test", Value::Integer(1));
        Ok(context)
    }

    fn publish(
        &self,
        _transaction: &mut RootTransaction,
        context: Context,
    ) -> Result<Context, Error> {
        let mut context = context;
        context.set("test", Value::Integer(2));
        Ok(context)
    }

    fn post_publish(
        &self,
        _transaction: &mut RootTransaction,
        context: Context,
    ) -> Result<Context, Error> {
        let mut context = context;
        context.set("test", Value::Integer(3));
        Ok(context)
    }
}

#[test]
fn test_runner_success() {
    let test_publish = TestPublish;

    let result = publish::run(&test_publish).unwrap();

    assert_eq!(result.get("test").unwrap(), &Value::Integer(3));
}

struct MinimalPublish;

impl Publish for MinimalPublish {
    fn publish(
        &self,
        _transaction: &mut RootTransaction,
        context: Context,
    ) -> Result<Context, Error> {
        let mut context = context;
        context.set("done", Value::Boolean(true));
        Ok(context)
    }
}

#[test]
fn test_runner_default_stages_are_identity() {
    let result = publish::run(&MinimalPublish).unwrap();
    assert_eq!(result.get("done").unwrap(), &Value::Boolean(true));
    assert_eq!(result.len(), 1);
}

struct StagedFilesystemPublish {
    root: String,
    source: String,
}

impl Publish for StagedFilesystemPublish {
    fn pre_publish(
        &self,
        transaction: &mut RootTransaction,
        context: Context,
    ) -> Result<Context, Error> {
        let mut t = FilesystemTransaction::new(self.root.as_str())?;
        t.create_directory("out");
        transaction.add_child(ChildTransaction::Filesystem(t));
        Ok(context)
    }

    fn publish(
        &self,
        transaction: &mut RootTransaction,
        context: Context,
    ) -> Result<Context, Error> {
        let mut t = FilesystemTransaction::new(self.root.as_str())?;
        t.copy_path(self.source.as_str(), "out/a.txt");
        transaction.add_child(ChildTransaction::Filesystem(t));
        Ok(context)
    }

    fn post_publish(
        &self,
        transaction: &mut RootTransaction,
        _context: Context,
    ) -> Result<Context, Error> {
        let mut t = FilesystemTransaction::new(self.root.as_str())?;
        t.change_owner_permissions("out/a.txt", None, None, Some(Permissions::from_mode(0o400)));
        transaction.add_child(ChildTransaction::Filesystem(t));
        Err(Error::new_publish("the final stage decided to fail", None))
    }
}

#[test]
fn test_failed_stage_rolls_back_committed_stages() {
    let tmp_root_dir = tempfile::TempDir::new().unwrap();
    let tmp_source_dir = tempfile::TempDir::new().unwrap();
    let root =
        cap_std::fs::Dir::open_ambient_dir(tmp_root_dir.path(), cap_std::ambient_authority())
            .unwrap();
    let source_dir =
        cap_std::fs::Dir::open_ambient_dir(tmp_source_dir.path(), cap_std::ambient_authority())
            .unwrap();
    let mut f = source_dir.create("a.txt").unwrap();
    f.write_all(b"artifact").unwrap();

    let staged = StagedFilesystemPublish {
        root: tmp_root_dir.path().to_str().unwrap().to_string(),
        source: tmp_source_dir.path().join("a.txt").to_str().unwrap().to_string(),
    };

    let err = publish::run(&staged).unwrap_err();

    // The original stage error surfaces, not a rollback error, since
    // every rollback succeeded.
    assert!(matches!(err, Error::Publish { .. }));

    // The copy into out/ and the directory creation are both undone.
    assert!(root.metadata("out/a.txt").is_err());
    assert!(root.metadata("out").is_err());

    // The source file is untouched.
    let mut bytes = Vec::new();
    source_dir.open("a.txt").unwrap().read_to_end(&mut bytes).unwrap();
    assert_eq!(bytes, b"artifact".to_vec());
}

struct FailingPublish;

impl Publish for FailingPublish {
    fn publish(
        &self,
        _transaction: &mut RootTransaction,
        _context: Context,
    ) -> Result<Context, Error> {
        Err(Error::new_publish("nothing to publish", None))
    }
}

#[test]
fn test_stage_error_is_propagated() {
    let err = publish::run(&FailingPublish).unwrap_err();
    match err {
        Error::Publish { message, source } => {
            assert_eq!(message, "nothing to publish");
            assert!(source.is_none());
        }
        other => panic!("unexpected error {:?}", other),
    }
}
