//! Transactions: the heart of a publish.
//!
//! A publish is a collection of transactions plus transformations of the
//! context data. A committed transaction can be rolled back when a later
//! stage fails (with the documented exception of deletions, which are
//! irreversible).

mod filesystem_transaction;
mod fs_caps;
pub mod fs_model;
mod paths;
mod permissions;
mod root_transaction;

pub use filesystem_transaction::{
    classify_spec, cop_actions, cop_capture_matches, cop_path, enqueue_rollback, is_captured_cop,
    Action, FilesystemAction, FilesystemActionType, FilesystemTransaction,
};
pub use permissions::{
    lemma_from_mode_resolved, lemma_mode_round_trip, lemma_overwrite_identity,
    lemma_overwrite_preserves_resolved, Permission, Permissions, ScopedPermissions,
};
pub use root_transaction::{ChildTransaction, LogTransaction, RootTransaction, SharedLog};

use vstd::prelude::*;

verus! {

/// The transaction interface.
///
/// Committing applies the recorded actions to durable state; rolling
/// back undoes a previous commit using synthesized inverse actions. A
/// deleted path cannot be restored, so rollback is best effort by
/// design.
pub trait Transaction {
    /// Commit the transaction.
    fn commit(&mut self) -> Result<(), crate::error::Error>;

    /// Roll the transaction back.
    fn rollback(&mut self) -> Result<(), crate::error::Error>;
}

} // verus!
