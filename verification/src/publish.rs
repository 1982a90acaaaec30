//! The publish stage contract.
//!
//! A publish is defined by three stage functions. Each one receives a
//! fresh [`crate::transactions::RootTransaction`] to populate with child
//! transactions and the previous stage's context, and returns the next
//! context. Only the main stage carries real work by obligation; the
//! other two default to the identity on the context.

use vstd::prelude::*;

use crate::context::Context;
use crate::error::Error;
use crate::transactions::RootTransaction;

verus! {

/// The publish interface.
///
/// A publish describes a staged workflow — publishing an asset, an
/// animation cache, and the like. The implementing type should not need
/// any state of its own: the context carries all of the information a
/// stage needs, and each stage records its side effects in the
/// transaction it is handed, so that the runner can undo them if a
/// later stage fails.
pub trait Publish {
    /// The pre-publish stage: prepare the main publish, for example by
    /// creating and unlocking the publish directory. Defaults to the
    /// identity on the context.
    fn pre_publish(&self, transaction: &mut RootTransaction, context: Context) -> Result<
        Context,
        Error,
    > {
        Ok(context)
    }

    /// The publish stage: the main work, made durable through the
    /// transaction.
    fn publish(&self, transaction: &mut RootTransaction, context: Context) -> Result<
        Context,
        Error,
    >;

    /// The post-publish stage: finalize the publish, for example by
    /// writing metadata about the published files. Defaults to the
    /// identity on the context.
    fn post_publish(&self, transaction: &mut RootTransaction, context: Context) -> Result<
        Context,
        Error,
    > {
        Ok(context)
    }
}

} // verus!
