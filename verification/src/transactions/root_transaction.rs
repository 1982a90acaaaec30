//! The group-structured transaction aggregator.
//!
//! A [`RootTransaction`] owns an ordered list of groups of child
//! transactions. Groups run strictly in insertion order; the children of
//! one group are peers with no ordering guarantee among themselves.
//! Committing or rolling back never stops at a failing child or group:
//! every child of every group is processed and every child error is
//! collected into one aggregate, so a caller sees the complete failure
//! set before deciding what to unwind.

use vstd::prelude::*;

use crate::error::Error;
use crate::transactions::filesystem_transaction::FilesystemTransaction;

verus! {

/// Child transactions nest at most this many root-transaction levels.
pub const MAX_NESTING: u64 = 1000000;

/// Shared lists of log markers are `std::sync::Mutex<Vec<u64>>` values;
/// the type itself stays opaque.
#[verifier::external_type_specification]
#[verifier::external_body]
#[verifier::reject_recursive_types(T)]
pub struct ExMutex<T: ?Sized>(std::sync::Mutex<T>);

/// A shared, lock-guarded list of markers.
///
/// Clones share one underlying list, so concurrent tasks (or the
/// children of one transaction group) can record events side by side.
#[derive(Clone)]
pub struct SharedLog {
    inner: std::sync::Arc<std::sync::Mutex<Vec<u64>>>,
}

impl SharedLog {
    /// Relies on `std::sync::Arc::new` and `std::sync::Mutex::new`: an
    /// empty shared list.
    #[verifier::external_body]
    pub fn new() -> Self {
        SharedLog { inner: std::sync::Arc::new(std::sync::Mutex::new(Vec::new())) }
    }

    /// Relies on `std::sync::Mutex::lock` and `Vec::push`: appends a
    /// marker to the shared list.
    #[verifier::external_body]
    pub fn append(&self, value: u64) {
        if let Ok(mut values) = self.inner.lock() {
            values.push(value);
        }
    }

    /// Relies on `std::sync::Mutex::lock` and `Vec::clone`: the markers
    /// currently in the shared list, in append order.
    #[verifier::external_body]
    pub fn snapshot(&self) -> (r: Vec<u64>) {
        match self.inner.lock() {
            Ok(values) => values.clone(),
            Err(_) => Vec::new(),
        }
    }

    /// Relies on `std::sync::Mutex::lock` and `Vec::remove`: removes the
    /// marker at `index`; an index beyond the current length (the list
    /// is shared and may have changed) removes nothing.
    #[verifier::external_body]
    pub fn remove_at(&self, index: usize) {
        if let Ok(mut values) = self.inner.lock() {
            if index < values.len() {
                values.remove(index);
            }
        }
    }
}

/// A transaction that records its commit in a shared log and removes
/// the record again on rollback: the observable used to check in what
/// order a group of children ran.
pub struct LogTransaction {
    /// The marker this transaction appends.
    pub value: u64,
    /// The log it appends to.
    pub log: SharedLog,
}

impl LogTransaction {
    /// A log transaction appending `value` to `log`.
    pub fn new(value: u64, log: SharedLog) -> (r: Self)
        ensures
            r.value == value,
    {
        LogTransaction { value, log }
    }

    /// Append the marker to the shared log.
    pub fn commit(&mut self) -> (r: Result<(), Error>)
        ensures
            r is Ok,
            *final(self) == *old(self),
    {
        self.log.append(self.value);
        Ok(())
    }

    /// Remove the first occurrence of the marker from the shared log,
    /// if any.
    pub fn rollback(&mut self) -> (r: Result<(), Error>)
        ensures
            r is Ok,
            *final(self) == *old(self),
    {
        let values = self.log.snapshot();
        let mut i: usize = 0;
        while i < values.len()
            invariant
                i <= values@.len(),
            decreases values@.len() - i,
        {
            if values[i] == self.value {
                self.log.remove_at(i);
                return Ok(());
            }
            i = i + 1;
        }
        Ok(())
    }
}

/// One child of a root transaction: the closed set of transaction
/// kinds, so children of any kind, including nested root transactions,
/// can stand in one group.
pub enum ChildTransaction {
    /// A filesystem transaction.
    Filesystem(FilesystemTransaction),
    /// A nested root transaction.
    Root(RootTransaction),
    /// A log transaction.
    Log(LogTransaction),
}

/// Every child of every group is a log transaction; log transactions
/// cannot fail, so committing or rolling back such a tree always
/// succeeds.
pub open spec fn all_log_children(groups: Seq<Seq<ChildTransaction>>) -> bool {
    forall|g: int, c: int|
        0 <= g < groups.len() && 0 <= c < groups[g].len() ==> (#[trigger] groups[g][c]) is Log
}

/// The tree aggregator: a sequence of groups of child transactions.
///
/// `add_child` opens a new group (a sequential barrier on both sides);
/// `add_child_parallel` appends to the last group. On commit and on
/// rollback the groups run in insertion order, the children of a group
/// concurrently among themselves, and every child error is collected
/// (never short-circuiting, not even across groups) into one
/// [`Error::RootTransaction`] aggregate.
pub struct RootTransaction {
    children: Vec<Vec<ChildTransaction>>,
}

impl View for RootTransaction {
    type V = Seq<Seq<ChildTransaction>>;

    closed spec fn view(&self) -> Seq<Seq<ChildTransaction>> {
        self.children@.map_values(|group: Vec<ChildTransaction>| group@)
    }
}

impl RootTransaction {
    /// An empty root transaction.
    pub fn new() -> (r: Self)
        ensures
            r@.len() == 0,
    {
        let r = RootTransaction { children: Vec::new() };
        proof {
            assert(r@ =~= Seq::<Seq<ChildTransaction>>::empty());
        }
        r
    }

    /// Append a new group holding exactly this child: a sequential
    /// barrier stands before and after it relative to its siblings.
    pub fn add_child(&mut self, child: ChildTransaction)
        ensures
            final(self)@ == old(self)@.push(seq![child]),
    {
        let mut group: Vec<ChildTransaction> = Vec::new();
        group.push(child);
        self.children.push(group);
        proof {
            assert(self@ =~= old(self)@.push(seq![child]));
        }
    }

    /// Append this child to the last group, creating one if none
    /// exists; siblings of one group run concurrently.
    pub fn add_child_parallel(&mut self, child: ChildTransaction)
        ensures
            old(self)@.len() == 0 ==> final(self)@ == seq![seq![child]],
            old(self)@.len() > 0 ==> final(self)@ == old(self)@.update(
                old(self)@.len() - 1,
                old(self)@.last().push(child),
            ),
    {
        if self.children.len() == 0 {
            let mut group: Vec<ChildTransaction> = Vec::new();
            group.push(child);
            self.children.push(group);
            proof {
                assert(self@ =~= seq![seq![child]]);
            }
        } else {
            let last = self.children.len() - 1;
            let mut group = self.children.swap_remove(last);
            group.push(child);
            self.children.push(group);
            proof {
                assert(self@ =~= old(self)@.update(
                    old(self)@.len() - 1,
                    old(self)@.last().push(child),
                ));
            }
        }
    }

    /// Commit every child, group by group.
    ///
    /// Groups run in insertion order; a group's children run
    /// concurrently among themselves and all of them finish before the
    /// next group starts. Child errors are collected, never
    /// short-circuited: the aggregate holds one entry per failed child,
    /// across all groups. The group structure itself is unchanged.
    pub fn commit(&mut self) -> (r: Result<(), Error>)
        ensures
            final(self)@.len() == old(self)@.len(),
            forall|g: int|
                0 <= g < old(self)@.len() ==> #[trigger] final(self)@[g].len() == old(
                    self,
                )@[g].len(),
            old(self)@.len() == 0 ==> r is Ok,
            all_log_children(old(self)@) ==> r is Ok,
            r matches Err(e) ==> (e matches Error::RootTransaction(errors) && errors@.len() > 0
                && forall|k: int| 0 <= k < errors@.len() ==> #[trigger] errors@[k] is Transaction),
    {
        self.commit_with_fuel(MAX_NESTING)
    }

    /// Roll every child back, group by group, with the same ordering
    /// and error collection as [`RootTransaction::commit`].
    pub fn rollback(&mut self) -> (r: Result<(), Error>)
        ensures
            final(self)@.len() == old(self)@.len(),
            forall|g: int|
                0 <= g < old(self)@.len() ==> #[trigger] final(self)@[g].len() == old(
                    self,
                )@[g].len(),
            old(self)@.len() == 0 ==> r is Ok,
            all_log_children(old(self)@) ==> r is Ok,
            r matches Err(e) ==> (e matches Error::RootTransaction(errors) && errors@.len() > 0
                && forall|k: int| 0 <= k < errors@.len() ==> #[trigger] errors@[k] is Transaction),
    {
        self.rollback_with_fuel(MAX_NESTING)
    }

    /// The commit walk, with a bound on transaction-tree nesting.
    fn commit_with_fuel(&mut self, fuel: u64) -> (r: Result<(), Error>)
        ensures
            final(self)@.len() == old(self)@.len(),
            forall|g: int|
                0 <= g < old(self)@.len() ==> #[trigger] final(self)@[g].len() == old(
                    self,
                )@[g].len(),
            all_log_children(old(self)@) ==> r is Ok,
            r matches Err(e) ==> (e matches Error::RootTransaction(errors) && errors@.len() > 0
                && forall|k: int| 0 <= k < errors@.len() ==> #[trigger] errors@[k] is Transaction),
        decreases fuel, 1int,
    {
        let mut groups_done: Vec<Vec<ChildTransaction>> = Vec::new();
        let mut errors: Vec<Error> = Vec::new();
        proof {
            assert(old(self)@.skip(0) =~= old(self)@);
        }
        while self.children.len() > 0
            invariant
                groups_done@.len() + self.children@.len() == old(self)@.len(),
                self.children@.map_values(|group: Vec<ChildTransaction>| group@) == old(
                    self,
                )@.skip(groups_done@.len() as int),
                forall|g: int|
                    0 <= g < groups_done@.len() ==> #[trigger] groups_done@[g]@.len() == old(
                        self,
                    )@[g].len(),
                forall|k: int| 0 <= k < errors@.len() ==> #[trigger] errors@[k] is Transaction,
                all_log_children(old(self)@) ==> errors@.len() == 0,
            decreases self.children@.len(),
        {
            let ghost prev_children = self.children@;
            let ghost prev_done = groups_done@.len() as int;
            let mut group = self.children.remove(0);
            let ghost original_group = old(self)@[prev_done];
            proof {
                assert(prev_children.map_values(|group: Vec<ChildTransaction>| group@)[0]
                    == old(self)@.skip(prev_done)[0]);
                assert(group@ == original_group);
                assert(original_group.skip(0) =~= original_group);
            }
            let mut group_done: Vec<ChildTransaction> = Vec::new();
            while group.len() > 0
                invariant
                    group_done@.len() + group@.len() == original_group.len(),
                    group@ == original_group.skip(group_done@.len() as int),
                    forall|k: int| 0 <= k < errors@.len() ==> #[trigger] errors@[k] is Transaction,
                    all_log_children(old(self)@) ==> errors@.len() == 0,
                    0 <= prev_done < old(self)@.len(),
                    original_group == old(self)@[prev_done],
                decreases group@.len(),
            {
                let ghost walked = group_done@.len() as int;
                let ghost prev_group = group@;
                let mut child = group.remove(0);
                proof {
                    assert(child == prev_group[0]);
                    assert(group@ =~= prev_group.skip(1));
                    assert(group@ =~= original_group.skip(walked + 1));
                    if all_log_children(old(self)@) {
                        assert(original_group[walked] is Log);
                        assert(child is Log);
                    }
                }
                match child.commit_with_fuel(fuel) {
                    Ok(()) => (),
                    Err(err) => errors.push(Error::Transaction(Box::new(err))),
                }
                group_done.push(child);
            }
            groups_done.push(group_done);
            proof {
                assert forall|g: int| 0 <= g < self.children@.len() implies (
                #[trigger] self.children@[g])@ == old(self)@.skip(prev_done + 1)[g] by {
                    assert(self.children@[g] == prev_children[g + 1]);
                    assert(prev_children.map_values(|group: Vec<ChildTransaction>| group@)[g + 1]
                        == old(self)@.skip(prev_done)[g + 1]);
                }
                assert(self.children@.map_values(|group: Vec<ChildTransaction>| group@)
                    =~= old(self)@.skip(prev_done + 1));
            }
        }
        self.children = groups_done;
        if errors.is_empty() {
            Ok(())
        } else {
            Err(Error::RootTransaction(errors))
        }
    }

    /// The rollback walk, with a bound on transaction-tree nesting.
    fn rollback_with_fuel(&mut self, fuel: u64) -> (r: Result<(), Error>)
        ensures
            final(self)@.len() == old(self)@.len(),
            forall|g: int|
                0 <= g < old(self)@.len() ==> #[trigger] final(self)@[g].len() == old(
                    self,
                )@[g].len(),
            all_log_children(old(self)@) ==> r is Ok,
            r matches Err(e) ==> (e matches Error::RootTransaction(errors) && errors@.len() > 0
                && forall|k: int| 0 <= k < errors@.len() ==> #[trigger] errors@[k] is Transaction),
        decreases fuel, 1int,
    {
        let mut groups_done: Vec<Vec<ChildTransaction>> = Vec::new();
        let mut errors: Vec<Error> = Vec::new();
        proof {
            assert(old(self)@.skip(0) =~= old(self)@);
        }
        while self.children.len() > 0
            invariant
                groups_done@.len() + self.children@.len() == old(self)@.len(),
                self.children@.map_values(|group: Vec<ChildTransaction>| group@) == old(
                    self,
                )@.skip(groups_done@.len() as int),
                forall|g: int|
                    0 <= g < groups_done@.len() ==> #[trigger] groups_done@[g]@.len() == old(
                        self,
                    )@[g].len(),
                forall|k: int| 0 <= k < errors@.len() ==> #[trigger] errors@[k] is Transaction,
                all_log_children(old(self)@) ==> errors@.len() == 0,
            decreases self.children@.len(),
        {
            let ghost prev_children = self.children@;
            let ghost prev_done = groups_done@.len() as int;
            let mut group = self.children.remove(0);
            let ghost original_group = old(self)@[prev_done];
            proof {
                assert(prev_children.map_values(|group: Vec<ChildTransaction>| group@)[0]
                    == old(self)@.skip(prev_done)[0]);
                assert(group@ == original_group);
                assert(original_group.skip(0) =~= original_group);
            }
            let mut group_done: Vec<ChildTransaction> = Vec::new();
            while group.len() > 0
                invariant
                    group_done@.len() + group@.len() == original_group.len(),
                    group@ == original_group.skip(group_done@.len() as int),
                    forall|k: int| 0 <= k < errors@.len() ==> #[trigger] errors@[k] is Transaction,
                    all_log_children(old(self)@) ==> errors@.len() == 0,
                    0 <= prev_done < old(self)@.len(),
                    original_group == old(self)@[prev_done],
                decreases group@.len(),
            {
                let ghost walked = group_done@.len() as int;
                let ghost prev_group = group@;
                let mut child = group.remove(0);
                proof {
                    assert(child == prev_group[0]);
                    assert(group@ =~= prev_group.skip(1));
                    assert(group@ =~= original_group.skip(walked + 1));
                    if all_log_children(old(self)@) {
                        assert(original_group[walked] is Log);
                        assert(child is Log);
                    }
                }
                match child.rollback_with_fuel(fuel) {
                    Ok(()) => (),
                    Err(err) => errors.push(Error::Transaction(Box::new(err))),
                }
                group_done.push(child);
            }
            groups_done.push(group_done);
            proof {
                assert forall|g: int| 0 <= g < self.children@.len() implies (
                #[trigger] self.children@[g])@ == old(self)@.skip(prev_done + 1)[g] by {
                    assert(self.children@[g] == prev_children[g + 1]);
                    assert(prev_children.map_values(|group: Vec<ChildTransaction>| group@)[g + 1]
                        == old(self)@.skip(prev_done)[g + 1]);
                }
                assert(self.children@.map_values(|group: Vec<ChildTransaction>| group@)
                    =~= old(self)@.skip(prev_done + 1));
            }
        }
        self.children = groups_done;
        if errors.is_empty() {
            Ok(())
        } else {
            Err(Error::RootTransaction(errors))
        }
    }
}

impl ChildTransaction {
    /// Commit this child; a nested root transaction spends one unit of
    /// nesting fuel.
    fn commit_with_fuel(&mut self, fuel: u64) -> (r: Result<(), Error>)
        ensures
            *old(self) is Log ==> r is Ok,
        decreases fuel, 0int,
    {
        match self {
            ChildTransaction::Filesystem(t) => t.commit(),
            ChildTransaction::Root(t) => {
                if fuel == 0 {
                    Err(Error::new_runtime("transaction tree is nested too deeply"))
                } else {
                    t.commit_with_fuel(fuel - 1)
                }
            },
            ChildTransaction::Log(t) => t.commit(),
        }
    }

    /// Roll this child back; a nested root transaction spends one unit
    /// of nesting fuel.
    fn rollback_with_fuel(&mut self, fuel: u64) -> (r: Result<(), Error>)
        ensures
            *old(self) is Log ==> r is Ok,
        decreases fuel, 0int,
    {
        match self {
            ChildTransaction::Filesystem(t) => t.rollback(),
            ChildTransaction::Root(t) => {
                if fuel == 0 {
                    Err(Error::new_runtime("transaction tree is nested too deeply"))
                } else {
                    t.rollback_with_fuel(fuel - 1)
                }
            },
            ChildTransaction::Log(t) => t.rollback(),
        }
    }
}

impl crate::transactions::Transaction for RootTransaction {
    fn commit(&mut self) -> Result<(), Error> {
        RootTransaction::commit(self)
    }

    fn rollback(&mut self) -> Result<(), Error> {
        RootTransaction::rollback(self)
    }
}

impl crate::transactions::Transaction for LogTransaction {
    fn commit(&mut self) -> Result<(), Error> {
        LogTransaction::commit(self)
    }

    fn rollback(&mut self) -> Result<(), Error> {
        LogTransaction::rollback(self)
    }
}

} // verus!
