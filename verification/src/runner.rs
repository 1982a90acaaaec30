//! The stage runner.
//!
//! Runs the three publish stages in order, committing each stage's
//! transaction right after its stage function returns. On any stage or
//! commit failure the runner rolls back the failing stage's transaction
//! and then every previously committed one, in reverse commit order, and
//! surfaces the original error — a failure during the rollback itself
//! never replaces it, but is attached beside it.

use vstd::prelude::*;

use crate::context::Context;
use crate::error::Error;
use crate::publish::Publish;
use crate::transactions::RootTransaction;

verus! {

/// Unwind after a failure: roll back the failing stage's transaction,
/// then every previously committed transaction in reverse commit order,
/// stopping at the first rollback failure.
///
/// The returned error is the original `error` when every rollback
/// succeeds; when one fails, a rollback error that carries the original
/// error as its source and the failed undo's error beside it. The
/// original error is never dropped, and a rollback error is built only
/// when an undo actually failed.
fn unwind(
    current: &mut RootTransaction,
    committed: &mut Vec<RootTransaction>,
    error: Error,
) -> (r: Error)
    ensures
        r == error || (r matches Error::Rollback { source, rollback_err, .. } && *source == error
            && rollback_err is Some),
{
    match current.rollback() {
        Ok(()) => (),
        Err(rollback_err) => {
            return Error::new_rollback(
                "error while rolling back the failing stage",
                Box::new(error),
                Some(Box::new(rollback_err)),
            );
        },
    }
    while committed.len() > 0
        decreases committed@.len(),
    {
        let mut transaction = committed.pop().unwrap();
        match transaction.rollback() {
            Ok(()) => (),
            Err(rollback_err) => {
                return Error::new_rollback(
                    "error while rolling back a committed stage",
                    Box::new(error),
                    Some(Box::new(rollback_err)),
                );
            },
        }
    }
    error
}

/// Run a publish.
///
/// Each stage receives a fresh root transaction and the previous
/// stage's context; the transaction is committed as soon as the stage
/// function returns successfully. If a stage function or a commit
/// fails, the runner rolls back the current and all previously
/// committed transactions in reverse order and returns the original
/// error (wrapped together with the rollback error if the rollback
/// itself failed). On success, the final context is returned.
///
/// The result itself carries no contract: every outcome here is decided
/// by the stage methods, which are user implementations without
/// contracts, and by the commits' filesystem calls. The protocol's one
/// provable law — the original error is returned unchanged, or inside a
/// rollback error that names it as its source and holds the failed
/// undo's error beside it — is stated and proved on [`unwind`], through
/// which every failure returned here passes.
pub fn run<P: Publish>(publish: &P) -> Result<Context, Error> {
    let context = Context::default();
    let mut committed: Vec<RootTransaction> = Vec::new();

    let mut transaction = RootTransaction::new();
    let context = match publish.pre_publish(&mut transaction, context) {
        Ok(c) => c,
        Err(err) => return Err(unwind(&mut transaction, &mut committed, err)),
    };
    match transaction.commit() {
        Ok(()) => committed.push(transaction),
        Err(err) => return Err(unwind(&mut transaction, &mut committed, err)),
    }

    let mut transaction = RootTransaction::new();
    let context = match publish.publish(&mut transaction, context) {
        Ok(c) => c,
        Err(err) => return Err(unwind(&mut transaction, &mut committed, err)),
    };
    match transaction.commit() {
        Ok(()) => committed.push(transaction),
        Err(err) => return Err(unwind(&mut transaction, &mut committed, err)),
    }

    let mut transaction = RootTransaction::new();
    let context = match publish.post_publish(&mut transaction, context) {
        Ok(c) => c,
        Err(err) => return Err(unwind(&mut transaction, &mut committed, err)),
    };
    match transaction.commit() {
        Ok(()) => committed.push(transaction),
        Err(err) => return Err(unwind(&mut transaction, &mut committed, err)),
    }

    Ok(context)
}

} // verus!
