//! The error taxonomy of the publish pipeline.
//!
//! Stage failures (`Publish`), rollback failures (`Rollback`, which always
//! carries the error that triggered the rollback), commit failures and
//! aggregated child failures are kept apart so a caller can tell "your
//! stage logic failed" from "the environment failed to undo it".

use vstd::prelude::*;

verus! {

/// The `std::io::Error` values returned by the filesystem calls are
/// carried inside [`Error::IO`]; the type itself stays opaque.
#[verifier::external_type_specification]
#[verifier::external_body]
pub struct ExIoError(std::io::Error);

/// An error of the publish pipeline.
#[derive(Debug)]
pub enum Error {
    /// A publish stage function failed, with an optional wrapped cause.
    Publish { message: String, source: Option<Box<Error>> },
    /// A rollback attempt itself failed; wraps both the original error
    /// that triggered the rollback (`source`) and, when the undo failed
    /// too, the rollback's own error.
    Rollback { message: String, source: Box<Error>, rollback_err: Option<Box<Error>> },
    /// A transaction commit failed; wraps the underlying cause.
    Commit(Box<Error>),
    /// A child transaction of a [`crate::transactions::RootTransaction`]
    /// failed; wraps the child's error.
    Transaction(Box<Error>),
    /// Every child error collected by one commit or rollback pass of a
    /// [`crate::transactions::RootTransaction`].
    RootTransaction(Vec<Error>),
    /// A runtime failure described by a message.
    Runtime(String),
    /// An OS-level failure, the lowest level of the taxonomy.
    IO(std::io::Error),
    /// A permission set still had an undecided bit at mode-conversion
    /// time.
    InvalidPermission,
    /// A source path lacked a parent or file-name component required for
    /// the operation.
    SourcePathInvalid(String),
    /// A target path lacked a file-name component required for the
    /// operation.
    TargetPathInvalid(String),
    /// A path is neither a regular file nor a directory.
    InvalidMetadata(String),
}

impl Error {
    /// Build a stage-failure error.
    pub fn new_publish(message: &str, source: Option<Box<Error>>) -> (r: Self)
        ensures
            r matches Error::Publish { message: m, source: s } && m@ == message@ && s == source,
    {
        Self::Publish { message: message.to_owned(), source }
    }

    /// Build a rollback-failure error around the original error.
    pub fn new_rollback(
        message: &str,
        source: Box<Error>,
        rollback_err: Option<Box<Error>>,
    ) -> (r: Self)
        ensures
            r matches Error::Rollback { message: m, source: s, rollback_err: e } && m@ == message@
                && s == source && e == rollback_err,
    {
        Self::Rollback { message: message.to_owned(), source, rollback_err }
    }

    /// Build a runtime error from a message.
    pub fn new_runtime(message: &str) -> (r: Self)
        ensures
            r matches Error::Runtime(m) && m@ == message@,
    {
        Self::Runtime(message.to_owned())
    }

    /// Wrap an OS-level error.
    pub fn new_io(err: std::io::Error) -> (r: Self)
        ensures
            r matches Error::IO(e) && e == err,
    {
        Self::IO(err)
    }
}

} // verus!
