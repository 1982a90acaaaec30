//! The filesystem transaction engine.
//!
//! A [`FilesystemTransaction`] records intended filesystem actions against
//! a sandboxed root directory. Builders only enqueue; every check runs at
//! commit time. Committing walks the action list once, batching runs of
//! same-classification actions and flushing the batch whenever the
//! classification changes, so that a later class never overtakes an
//! earlier one. Each enqueued action synthesizes its inverse into the
//! rollback list (at enqueue time, except ownership/permission changes,
//! whose inverse needs the pre-commit state and is captured during the
//! commit walk); rolling back replays that list with the same batching.

use vstd::prelude::*;

use crate::error::Error;
use crate::transactions::fs_caps::{
    copy_file_bytes, dir_chown, dir_create_dir, dir_create_dir_all, dir_create_file,
    dir_entry_names, dir_metadata, dir_open_ambient, dir_open_file, dir_remove_dir_all,
    dir_remove_file, dir_rename, dir_set_mode, dir_symlink, dir_hard_link, lookup_group_id,
    lookup_user_id, PathKind,
};
use crate::transactions::fs_caps::{lookup_group_name, lookup_user_name};
use crate::transactions::fs_model::{enqueue_rollback_all, lemma_enqueue_rollback_all_push};
use crate::transactions::paths::{file_name_spec, is_absolute_path, join_path, split_path};
use crate::transactions::permissions::{
    lemma_from_mode_resolved, lemma_overwrite_preserves_resolved, Permissions,
};

verus! {

/// The mathematical model of one filesystem action: paths as character
/// sequences.
pub ghost enum Action {
    /// Copy `src` (an ambient path) to `dst` (relative to the root).
    Copy { src: Seq<char>, dst: Seq<char> },
    /// Move `src` (an ambient path) to `dst` (relative to the root).
    Move { src: Seq<char>, dst: Seq<char> },
    /// The synthesized reverse of a move: bring `dst` back to `src`.
    RollbackMove { src: Seq<char>, dst: Seq<char> },
    /// Create the symlink `dst` reading `src`.
    SoftLink { src: Seq<char>, dst: Seq<char> },
    /// Hard-link `src` to `dst`, both relative to the root.
    HardLink { src: Seq<char>, dst: Seq<char> },
    /// Create the directory `path` relative to the root.
    CreateDirectory { path: Seq<char> },
    /// Delete `path` relative to the root; irreversible.
    Delete { path: Seq<char> },
    /// Change owner, group and/or permission bits of `path`.
    ChangeOwnerPermissions {
        path: Seq<char>,
        user: Option<Seq<char>>,
        group: Option<Seq<char>>,
        permissions: Option<Permissions>,
    },
}

/// One recorded filesystem action.
pub enum FilesystemAction {
    /// Copy a path into the root.
    Copy(String, String),
    /// Move a path into the root.
    Move(String, String),
    /// The synthesized reverse of a move; never user-constructible.
    RollbackMove(String, String),
    /// Create a symlink inside the root.
    SoftLink(String, String),
    /// Create a hard link inside the root.
    HardLink(String, String),
    /// Create a directory inside the root.
    CreateDirectory(String),
    /// Delete a path inside the root.
    Delete(String),
    /// Change owner, group and/or permission bits of a path.
    ChangeOwnerPermissions {
        path: String,
        user: Option<String>,
        group: Option<String>,
        permissions: Option<Permissions>,
    },
}

impl View for FilesystemAction {
    type V = Action;

    open spec fn view(&self) -> Action {
        match self {
            FilesystemAction::Copy(src, dst) => Action::Copy { src: src@, dst: dst@ },
            FilesystemAction::Move(src, dst) => Action::Move { src: src@, dst: dst@ },
            FilesystemAction::RollbackMove(src, dst) => Action::RollbackMove {
                src: src@,
                dst: dst@,
            },
            FilesystemAction::SoftLink(src, dst) => Action::SoftLink { src: src@, dst: dst@ },
            FilesystemAction::HardLink(src, dst) => Action::HardLink { src: src@, dst: dst@ },
            FilesystemAction::CreateDirectory(path) => Action::CreateDirectory { path: path@ },
            FilesystemAction::Delete(path) => Action::Delete { path: path@ },
            FilesystemAction::ChangeOwnerPermissions { path, user, group, permissions } => {
                Action::ChangeOwnerPermissions {
                    path: path@,
                    user: match user {
                        Some(u) => Some(u@),
                        None => None,
                    },
                    group: match group {
                        Some(g) => Some(g@),
                        None => None,
                    },
                    permissions: *permissions,
                }
            },
        }
    }
}

/// The classification used for batching: consecutive actions of one
/// class may run concurrently; a class change is a barrier.
///
/// Copy, move and hard link share a class because they all produce new
/// content at their target; deletes and symlinks never run interleaved
/// with them.
#[derive(Debug, Clone, Copy, PartialEq, Eq, Structural)]
pub enum FilesystemActionType {
    /// No action walked yet.
    Invalid,
    /// Owner/permission changes.
    ChangeOwnerPermissions,
    /// Directory creation.
    CreateDirectory,
    /// Copy, move (in either direction) and hard link.
    CopyMoveHardLink,
    /// Symlink creation.
    SoftLink,
    /// Deletion.
    Delete,
}

/// The classification of an action.
pub open spec fn classify_spec(action: Action) -> FilesystemActionType {
    match action {
        Action::Copy { .. } => FilesystemActionType::CopyMoveHardLink,
        Action::Move { .. } => FilesystemActionType::CopyMoveHardLink,
        Action::RollbackMove { .. } => FilesystemActionType::CopyMoveHardLink,
        Action::HardLink { .. } => FilesystemActionType::CopyMoveHardLink,
        Action::SoftLink { .. } => FilesystemActionType::SoftLink,
        Action::CreateDirectory { .. } => FilesystemActionType::CreateDirectory,
        Action::Delete { .. } => FilesystemActionType::Delete,
        Action::ChangeOwnerPermissions { .. } => FilesystemActionType::ChangeOwnerPermissions,
    }
}

/// Classify an action for batching.
pub fn classify(action: &FilesystemAction) -> (t: FilesystemActionType)
    ensures
        t == classify_spec(action@),
{
    match action {
        FilesystemAction::Copy(..) => FilesystemActionType::CopyMoveHardLink,
        FilesystemAction::Move(..) => FilesystemActionType::CopyMoveHardLink,
        FilesystemAction::RollbackMove(..) => FilesystemActionType::CopyMoveHardLink,
        FilesystemAction::HardLink(..) => FilesystemActionType::CopyMoveHardLink,
        FilesystemAction::SoftLink(..) => FilesystemActionType::SoftLink,
        FilesystemAction::CreateDirectory(..) => FilesystemActionType::CreateDirectory,
        FilesystemAction::Delete(..) => FilesystemActionType::Delete,
        FilesystemAction::ChangeOwnerPermissions { .. } => {
            FilesystemActionType::ChangeOwnerPermissions
        },
    }
}

/// Every target the action creates, edits or removes is a confined,
/// root-relative path: none is absolute. A commit that returns `Ok`
/// guarantees this of every recorded action — the capability refuses an
/// absolute target outright. (Relative escapes through `..` or through
/// symlinks are refused by the capability at run time as well, but
/// stating that would take a model of on-disk path resolution.)
pub open spec fn confined_targets(a: Action) -> bool {
    match a {
        Action::Copy { dst, .. } => !is_absolute_path(dst),
        Action::Move { dst, .. } => !is_absolute_path(dst),
        Action::RollbackMove { .. } => true,
        Action::SoftLink { dst, .. } => !is_absolute_path(dst),
        Action::HardLink { dst, .. } => !is_absolute_path(dst),
        Action::CreateDirectory { path } => !is_absolute_path(path),
        Action::Delete { path } => !is_absolute_path(path),
        Action::ChangeOwnerPermissions { path, permissions, .. } => {
            permissions is Some ==> !is_absolute_path(path)
        },
    }
}

/// The errors a filesystem action can fail with: an OS-level failure,
/// a runtime limit, a path with unusable metadata, or a path missing a
/// component the operation needs. Notably an owner/permission change
/// never fails with [`Error::InvalidPermission`]: the requested bits
/// are merged over the current, fully decided mode.
pub open spec fn is_action_error(e: Error) -> bool {
    ||| e is IO
    ||| e is Runtime
    ||| e is InvalidMetadata
    ||| e is SourcePathInvalid
    ||| e is TargetPathInvalid
}

/// The rollback entries a builder synthesizes when it enqueues `action`:
/// copies, links and directory creations are undone by deleting their
/// target, a move by the reverse move; a delete is irreversible and an
/// owner/permission change is captured at commit time instead.
pub open spec fn enqueue_rollback(action: Action) -> Seq<Action> {
    match action {
        Action::Copy { src, dst } => seq![Action::Delete { path: dst }],
        Action::Move { src, dst } => seq![Action::RollbackMove { src, dst }],
        Action::RollbackMove { .. } => seq![],
        Action::SoftLink { src, dst } => seq![Action::Delete { path: dst }],
        Action::HardLink { src, dst } => seq![Action::Delete { path: dst }],
        Action::CreateDirectory { path } => seq![Action::Delete { path }],
        Action::Delete { .. } => seq![],
        Action::ChangeOwnerPermissions { .. } => seq![],
    }
}

/// The owner/permission-change actions of a list, in order.
pub open spec fn cop_actions(actions: Seq<Action>) -> Seq<Action>
    decreases actions.len(),
{
    if actions.len() == 0 {
        Seq::empty()
    } else if actions.last() is ChangeOwnerPermissions {
        cop_actions(actions.drop_last()).push(actions.last())
    } else {
        cop_actions(actions.drop_last())
    }
}

/// The path of an owner/permission-change action.
pub open spec fn cop_path(action: Action) -> Seq<char> {
    match action {
        Action::ChangeOwnerPermissions { path, .. } => path,
        _ => Seq::empty(),
    }
}

/// A rollback entry captured at commit time: it restores the walked
/// action's path to a fully decided permission set.
pub open spec fn is_captured_cop(entry: Action) -> bool {
    &&& entry is ChangeOwnerPermissions
    &&& entry matches Action::ChangeOwnerPermissions { permissions, .. } && permissions matches Some(
        p,
    ) && p.is_resolved()
}

/// The captured entries correspond one to one, in order and by path, to
/// the owner/permission changes of the committed list.
pub open spec fn cop_capture_matches(commits: Seq<Action>, captured: Seq<Action>) -> bool {
    let cops = cop_actions(commits);
    &&& captured.len() == cops.len()
    &&& forall|j: int|
        0 <= j < cops.len() ==> #[trigger] cop_path(captured[j]) == cop_path(cops[j])
}

/// The ghost state of a filesystem transaction: its pending commit
/// actions and the synthesized rollback actions.
pub ghost struct FilesystemTransactionState {
    /// The recorded actions, in enqueue order.
    pub commit_actions: Seq<Action>,
    /// The synthesized inverse actions, in synthesis order.
    pub rollback_actions: Seq<Action>,
}

/// The filesystem transaction: records actions against a confining root
/// directory, applies them at commit, undoes them at rollback.
///
/// All of the actions except deletion can be rolled back. Permission and
/// ownership metadata roll back to their values at the point of the
/// commit.
///
/// Consecutive actions of one classification form a batch that may run
/// concurrently; a classification change forces every earlier action to
/// finish first. So copy, copy, delete runs the two copies side by side
/// before the delete, while copy, delete, copy runs all three one after
/// another.
pub struct FilesystemTransaction {
    commit_actions: Vec<FilesystemAction>,
    rollback_actions: Vec<FilesystemAction>,
    root_dir: cap_std::fs::Dir,
}

impl View for FilesystemTransaction {
    type V = FilesystemTransactionState;

    closed spec fn view(&self) -> FilesystemTransactionState {
        FilesystemTransactionState {
            commit_actions: self.commit_actions@.map_values(|a: FilesystemAction| a@),
            rollback_actions: self.rollback_actions@.map_values(|a: FilesystemAction| a@),
        }
    }
}

impl FilesystemTransaction {
    /// No recorded action is a synthesized reverse move: those exist only
    /// in the rollback list.
    pub open spec fn wf(self) -> bool {
        forall|i: int|
            0 <= i < self@.commit_actions.len() ==> !(#[trigger] self@.commit_actions[i]
                is RollbackMove)
    }

    /// Create a new filesystem transaction confined to `root_dir`.
    ///
    /// The root directory is opened once, as a capability; every action
    /// path is later resolved through it, so an action whose target
    /// escapes the root fails at commit time. A path that cannot be
    /// opened as a directory fails here.
    pub fn new(root_dir: &str) -> (r: Result<Self, Error>)
        ensures
            r matches Ok(t) ==> t@.commit_actions.len() == 0 && t@.rollback_actions.len() == 0
                && t.wf() && t@.rollback_actions == enqueue_rollback_all(t@.commit_actions),
            r is Err ==> r->Err_0 is IO,
    {
        let dir = match dir_open_ambient(root_dir) {
            Ok(dir) => dir,
            Err(err) => return Err(err),
        };
        let t = FilesystemTransaction {
            commit_actions: Vec::new(),
            rollback_actions: Vec::new(),
            root_dir: dir,
        };
        proof {
            assert(t@.commit_actions =~= Seq::<Action>::empty());
            assert(t@.rollback_actions =~= Seq::<Action>::empty());
            assert(enqueue_rollback_all(t@.commit_actions) =~= Seq::<Action>::empty());
        }
        Ok(t)
    }

    /// Copy a path into the root directory.
    ///
    /// Rolling back this action deletes the target path.
    pub fn copy_path(&mut self, source_path: &str, target_path: &str)
        ensures
            final(self)@.commit_actions == old(self)@.commit_actions.push(
                Action::Copy { src: source_path@, dst: target_path@ },
            ),
            final(self)@.rollback_actions == old(self)@.rollback_actions + enqueue_rollback(
                Action::Copy { src: source_path@, dst: target_path@ },
            ),
            old(self)@.rollback_actions == enqueue_rollback_all(old(self)@.commit_actions)
                ==> final(self)@.rollback_actions == enqueue_rollback_all(
                final(self)@.commit_actions,
            ),
            old(self).wf() ==> final(self).wf(),
    {
        self.commit_actions.push(
            FilesystemAction::Copy(source_path.to_owned(), target_path.to_owned()),
        );
        self.rollback_actions.push(FilesystemAction::Delete(target_path.to_owned()));
        proof {
            lemma_enqueue_rollback_all_push(
                old(self)@.commit_actions,
                self@.commit_actions.last(),
            );
            assert(self@.commit_actions =~= old(self)@.commit_actions.push(
                Action::Copy { src: source_path@, dst: target_path@ },
            ));
            assert(self@.rollback_actions =~= old(self)@.rollback_actions + enqueue_rollback(
                Action::Copy { src: source_path@, dst: target_path@ },
            ));
        }
    }

    /// Move a path into the root directory.
    ///
    /// Rolling back this action moves the path back to its original
    /// location.
    pub fn move_path(&mut self, source_path: &str, target_path: &str)
        ensures
            final(self)@.commit_actions == old(self)@.commit_actions.push(
                Action::Move { src: source_path@, dst: target_path@ },
            ),
            final(self)@.rollback_actions == old(self)@.rollback_actions + enqueue_rollback(
                Action::Move { src: source_path@, dst: target_path@ },
            ),
            old(self)@.rollback_actions == enqueue_rollback_all(old(self)@.commit_actions)
                ==> final(self)@.rollback_actions == enqueue_rollback_all(
                final(self)@.commit_actions,
            ),
            old(self).wf() ==> final(self).wf(),
    {
        self.commit_actions.push(
            FilesystemAction::Move(source_path.to_owned(), target_path.to_owned()),
        );
        self.rollback_actions.push(
            FilesystemAction::RollbackMove(source_path.to_owned(), target_path.to_owned()),
        );
        proof {
            lemma_enqueue_rollback_all_push(
                old(self)@.commit_actions,
                self@.commit_actions.last(),
            );
            assert(self@.commit_actions =~= old(self)@.commit_actions.push(
                Action::Move { src: source_path@, dst: target_path@ },
            ));
            assert(self@.rollback_actions =~= old(self)@.rollback_actions + enqueue_rollback(
                Action::Move { src: source_path@, dst: target_path@ },
            ));
        }
    }

    /// Hard link a path inside the root directory.
    ///
    /// The source and target are both relative to the root, which is
    /// treated as a self-contained package. Rolling back this action
    /// deletes the target path.
    pub fn hard_link_path(&mut self, source_path: &str, target_path: &str)
        ensures
            final(self)@.commit_actions == old(self)@.commit_actions.push(
                Action::HardLink { src: source_path@, dst: target_path@ },
            ),
            final(self)@.rollback_actions == old(self)@.rollback_actions + enqueue_rollback(
                Action::HardLink { src: source_path@, dst: target_path@ },
            ),
            old(self)@.rollback_actions == enqueue_rollback_all(old(self)@.commit_actions)
                ==> final(self)@.rollback_actions == enqueue_rollback_all(
                final(self)@.commit_actions,
            ),
            old(self).wf() ==> final(self).wf(),
    {
        self.commit_actions.push(
            FilesystemAction::HardLink(source_path.to_owned(), target_path.to_owned()),
        );
        self.rollback_actions.push(FilesystemAction::Delete(target_path.to_owned()));
        proof {
            lemma_enqueue_rollback_all_push(
                old(self)@.commit_actions,
                self@.commit_actions.last(),
            );
            assert(self@.commit_actions =~= old(self)@.commit_actions.push(
                Action::HardLink { src: source_path@, dst: target_path@ },
            ));
            assert(self@.rollback_actions =~= old(self)@.rollback_actions + enqueue_rollback(
                Action::HardLink { src: source_path@, dst: target_path@ },
            ));
        }
    }

    /// Create a symlink inside the root directory.
    ///
    /// Rolling back this action deletes the link.
    pub fn soft_link_path(&mut self, source_path: &str, target_path: &str)
        ensures
            final(self)@.commit_actions == old(self)@.commit_actions.push(
                Action::SoftLink { src: source_path@, dst: target_path@ },
            ),
            final(self)@.rollback_actions == old(self)@.rollback_actions + enqueue_rollback(
                Action::SoftLink { src: source_path@, dst: target_path@ },
            ),
            old(self)@.rollback_actions == enqueue_rollback_all(old(self)@.commit_actions)
                ==> final(self)@.rollback_actions == enqueue_rollback_all(
                final(self)@.commit_actions,
            ),
            old(self).wf() ==> final(self).wf(),
    {
        self.commit_actions.push(
            FilesystemAction::SoftLink(source_path.to_owned(), target_path.to_owned()),
        );
        self.rollback_actions.push(FilesystemAction::Delete(target_path.to_owned()));
        proof {
            lemma_enqueue_rollback_all_push(
                old(self)@.commit_actions,
                self@.commit_actions.last(),
            );
            assert(self@.commit_actions =~= old(self)@.commit_actions.push(
                Action::SoftLink { src: source_path@, dst: target_path@ },
            ));
            assert(self@.rollback_actions =~= old(self)@.rollback_actions + enqueue_rollback(
                Action::SoftLink { src: source_path@, dst: target_path@ },
            ));
        }
    }

    /// Create a directory (with its missing parents) inside the root.
    ///
    /// Rolling back this action deletes the directory.
    pub fn create_directory(&mut self, path: &str)
        ensures
            final(self)@.commit_actions == old(self)@.commit_actions.push(
                Action::CreateDirectory { path: path@ },
            ),
            final(self)@.rollback_actions == old(self)@.rollback_actions + enqueue_rollback(
                Action::CreateDirectory { path: path@ },
            ),
            old(self)@.rollback_actions == enqueue_rollback_all(old(self)@.commit_actions)
                ==> final(self)@.rollback_actions == enqueue_rollback_all(
                final(self)@.commit_actions,
            ),
            old(self).wf() ==> final(self).wf(),
    {
        self.commit_actions.push(FilesystemAction::CreateDirectory(path.to_owned()));
        self.rollback_actions.push(FilesystemAction::Delete(path.to_owned()));
        proof {
            lemma_enqueue_rollback_all_push(
                old(self)@.commit_actions,
                self@.commit_actions.last(),
            );
            assert(self@.commit_actions =~= old(self)@.commit_actions.push(
                Action::CreateDirectory { path: path@ },
            ));
            assert(self@.rollback_actions =~= old(self)@.rollback_actions + enqueue_rollback(
                Action::CreateDirectory { path: path@ },
            ));
        }
    }

    /// Delete a path inside the root.
    ///
    /// This action cannot be rolled back: no rollback entry is
    /// synthesized.
    pub fn delete_path(&mut self, path: &str)
        ensures
            final(self)@.commit_actions == old(self)@.commit_actions.push(
                Action::Delete { path: path@ },
            ),
            final(self)@.rollback_actions == old(self)@.rollback_actions,
            old(self)@.rollback_actions == enqueue_rollback_all(old(self)@.commit_actions)
                ==> final(self)@.rollback_actions == enqueue_rollback_all(
                final(self)@.commit_actions,
            ),
            old(self).wf() ==> final(self).wf(),
    {
        self.commit_actions.push(FilesystemAction::Delete(path.to_owned()));
        proof {
            lemma_enqueue_rollback_all_push(
                old(self)@.commit_actions,
                self@.commit_actions.last(),
            );
            assert(self@.commit_actions =~= old(self)@.commit_actions.push(
                Action::Delete { path: path@ },
            ));
            assert(self@.rollback_actions =~= old(self)@.rollback_actions + Seq::<Action>::empty());
        }
    }

    /// Change the owner and/or permissions of a path inside the root.
    ///
    /// Rolling back this action restores the owner, group and full mode
    /// the path had at the point of the commit; the rollback entry is
    /// synthesized during the commit walk, since the inverse needs the
    /// pre-commit state.
    pub fn change_owner_permissions(
        &mut self,
        path: &str,
        user: Option<&str>,
        group: Option<&str>,
        permissions: Option<Permissions>,
    )
        ensures
            final(self)@.commit_actions == old(self)@.commit_actions.push(
                Action::ChangeOwnerPermissions {
                    path: path@,
                    user: match user {
                        Some(u) => Some(u@),
                        None => None,
                    },
                    group: match group {
                        Some(g) => Some(g@),
                        None => None,
                    },
                    permissions,
                },
            ),
            final(self)@.rollback_actions == old(self)@.rollback_actions,
            old(self)@.rollback_actions == enqueue_rollback_all(old(self)@.commit_actions)
                ==> final(self)@.rollback_actions == enqueue_rollback_all(
                final(self)@.commit_actions,
            ),
            old(self).wf() ==> final(self).wf(),
    {
        let user_string: Option<String> = match user {
            Some(u) => Some(u.to_owned()),
            None => None,
        };
        let group_string: Option<String> = match group {
            Some(g) => Some(g.to_owned()),
            None => None,
        };
        self.commit_actions.push(
            FilesystemAction::ChangeOwnerPermissions {
                path: path.to_owned(),
                user: user_string,
                group: group_string,
                permissions,
            },
        );
        proof {
            lemma_enqueue_rollback_all_push(
                old(self)@.commit_actions,
                self@.commit_actions.last(),
            );
            assert(self@.commit_actions =~= old(self)@.commit_actions.push(
                Action::ChangeOwnerPermissions {
                    path: path@,
                    user: match user {
                        Some(u) => Some(u@),
                        None => None,
                    },
                    group: match group {
                        Some(g) => Some(g@),
                        None => None,
                    },
                    permissions,
                },
            ));
            assert(self@.rollback_actions =~= old(self)@.rollback_actions);
        }
    }

    /// Commit the recorded actions.
    ///
    /// The walk batches consecutive same-classification actions and
    /// flushes the batch at every classification change; the first
    /// failing action aborts the commit. Owner/permission changes
    /// capture their inverse (the pre-commit owner, group and mode)
    /// here, appending it to the rollback list just before the action is
    /// buffered. A commit that fails mid-way leaves rollback entries for
    /// actions that never executed; replaying them treats a missing
    /// target as already undone.
    ///
    /// A transaction is meant to be committed once (its stage's root
    /// transaction commits it right after the stage function returns);
    /// committing the same recorded actions again would append a second
    /// set of ownership captures to the rollback list.
    pub fn commit(&mut self) -> (r: Result<(), Error>)
        ensures
            final(self)@.commit_actions == old(self)@.commit_actions,
            old(self)@.rollback_actions.is_prefix_of(final(self)@.rollback_actions),
            forall|k: int|
                old(self)@.rollback_actions.len() <= k < final(self)@.rollback_actions.len()
                    ==> is_captured_cop(#[trigger] final(self)@.rollback_actions[k]),
            r is Ok ==> cop_capture_matches(
                old(self)@.commit_actions,
                final(self)@.rollback_actions.skip(old(self)@.rollback_actions.len() as int),
            ),
            old(self).wf() ==> final(self).wf(),
            old(self)@.commit_actions.len() == 0 ==> r is Ok,
            r is Ok ==> forall|i: int|
                0 <= i < old(self)@.commit_actions.len() ==> confined_targets(
                    #[trigger] old(self)@.commit_actions[i],
                ),
            r matches Err(e) ==> (e matches Error::Commit(cause) && is_action_error(*cause)),
    {
        let ghost initial_rollback = self@.rollback_actions;
        let mut last_action_type = FilesystemActionType::Invalid;
        // The buffered batch is commit_actions[batch_start .. i].
        let mut batch_start: usize = 0;
        let mut i: usize = 0;
        while i < self.commit_actions.len()
            invariant
                batch_start <= i <= self.commit_actions.len(),
                self@.commit_actions == old(self)@.commit_actions,
                initial_rollback == old(self)@.rollback_actions,
                initial_rollback.is_prefix_of(self@.rollback_actions),
                forall|k: int|
                    initial_rollback.len() <= k < self@.rollback_actions.len() ==> is_captured_cop(
                        #[trigger] self@.rollback_actions[k],
                    ),
                cop_capture_matches(
                    self@.commit_actions.take(i as int),
                    self@.rollback_actions.skip(initial_rollback.len() as int),
                ),
                forall|j: int|
                    0 <= j < batch_start ==> confined_targets(
                        #[trigger] self@.commit_actions[j],
                    ),
                old(self).wf() ==> self.wf(),
            decreases self.commit_actions.len() - i,
        {
            let action_type = classify(&self.commit_actions[i]);
            if action_type != last_action_type {
                // Flush the buffered batch before the class changes.
                match run_actions(
                    &self.root_dir,
                    &self.commit_actions,
                    batch_start,
                    i,
                    false,
                ) {
                    Ok(()) => (),
                    Err(err) => return Err(Error::Commit(Box::new(err))),
                }
                batch_start = i;
                last_action_type = action_type;
            }
            let captured_path: Option<String> = match &self.commit_actions[i] {
                FilesystemAction::ChangeOwnerPermissions { path, .. } => Some(path.clone()),
                _ => None,
            };
            if let Some(path) = captured_path {
                let ghost rollback_before = self@.rollback_actions;
                let (current_user, current_group, current_permissions) =
                    match get_current_owner_and_permissions(&self.root_dir, path.as_str()) {
                    Ok(r) => r,
                    Err(err) => return Err(Error::Commit(Box::new(err))),
                };
                self.rollback_actions.push(
                    FilesystemAction::ChangeOwnerPermissions {
                        path,
                        user: current_user,
                        group: current_group,
                        permissions: Some(current_permissions),
                    },
                );
                proof {
                    let commits = self@.commit_actions;
                    let a = commits[i as int];
                    assert(a == self.commit_actions@[i as int]@);
                    assert(a is ChangeOwnerPermissions);
                    let entry = self.rollback_actions@.last()@;
                    assert(self@.rollback_actions =~= rollback_before.push(entry));
                    assert(is_captured_cop(entry));
                    assert(cop_path(entry) == cop_path(a));
                    lemma_cop_actions_take_step(commits, i as int);
                    let skip_at = initial_rollback.len() as int;
                    let cap_old = rollback_before.skip(skip_at);
                    let cap_new = self@.rollback_actions.skip(skip_at);
                    assert(cap_new =~= cap_old.push(entry));
                    let cops_old = cop_actions(commits.take(i as int));
                    let cops_new = cop_actions(commits.take(i + 1));
                    assert(cops_new == cops_old.push(a));
                    assert forall|j: int| 0 <= j < cops_new.len() implies cop_path(
                        #[trigger] cap_new[j],
                    ) == cop_path(cops_new[j]) by {
                        if j < cops_new.len() - 1 {
                            assert(cap_new[j] == cap_old[j]);
                            assert(cops_new[j] == cops_old[j]);
                        } else {
                            assert(cap_new[j] == entry);
                            assert(cops_new[j] == a);
                        }
                    }
                    assert(cop_capture_matches(commits.take(i + 1), cap_new));
                }
            } else {
                proof {
                    let commits = self@.commit_actions;
                    let a = commits[i as int];
                    assert(a == self.commit_actions@[i as int]@);
                    assert(!(a is ChangeOwnerPermissions));
                    lemma_cop_actions_take_step(commits, i as int);
                }
            }
            i = i + 1;
        }
        // Flush whatever is still buffered.
        match run_actions(
            &self.root_dir,
            &self.commit_actions,
            batch_start,
            self.commit_actions.len(),
            false,
        ) {
            Ok(()) => (),
            Err(err) => return Err(Error::Commit(Box::new(err))),
        }
        proof {
            assert(self@.commit_actions.take(self@.commit_actions.len() as int)
                =~= self@.commit_actions);
        }
        Ok(())
    }

    /// Roll the transaction back.
    ///
    /// Replays the synthesized rollback list with the same batching as
    /// the commit walk. A delete or reverse move whose target no longer
    /// exists counts as already undone, so a rollback after a partially
    /// failed (or never attempted) commit does not trip over actions
    /// that never executed.
    pub fn rollback(&mut self) -> (r: Result<(), Error>)
        ensures
            final(self)@ == old(self)@,
            old(self)@.rollback_actions.len() == 0 ==> r is Ok,
            r is Err ==> is_action_error(r->Err_0),
    {
        let mut last_action_type = FilesystemActionType::Invalid;
        // The buffered batch is rollback_actions[batch_start .. i].
        let mut batch_start: usize = 0;
        let mut i: usize = 0;
        while i < self.rollback_actions.len()
            invariant
                batch_start <= i <= self.rollback_actions.len(),
                self@ == old(self)@,
            decreases self.rollback_actions.len() - i,
        {
            let action_type = classify(&self.rollback_actions[i]);
            if action_type != last_action_type {
                match run_actions(
                    &self.root_dir,
                    &self.rollback_actions,
                    batch_start,
                    i,
                    true,
                ) {
                    Ok(()) => (),
                    Err(err) => return Err(err),
                }
                batch_start = i;
                last_action_type = action_type;
            }
            i = i + 1;
        }
        match run_actions(
            &self.root_dir,
            &self.rollback_actions,
            batch_start,
            self.rollback_actions.len(),
            true,
        ) {
            Ok(()) => (),
            Err(err) => return Err(err),
        }
        Ok(())
    }
}

impl crate::transactions::Transaction for FilesystemTransaction {
    fn commit(&mut self) -> Result<(), Error> {
        FilesystemTransaction::commit(self)
    }

    fn rollback(&mut self) -> Result<(), Error> {
        FilesystemTransaction::rollback(self)
    }
}

/// One walk step extends the owner/permission-change filter of the taken
/// prefix by the walked action exactly when that action is one.
proof fn lemma_cop_actions_take_step(actions: Seq<Action>, i: int)
    requires
        0 <= i < actions.len(),
    ensures
        actions[i] is ChangeOwnerPermissions ==> cop_actions(actions.take(i + 1))
            == cop_actions(actions.take(i)).push(actions[i]),
        !(actions[i] is ChangeOwnerPermissions) ==> cop_actions(actions.take(i + 1))
            == cop_actions(actions.take(i)),
{
    assert(actions.take(i + 1).drop_last() =~= actions.take(i));
    assert(actions.take(i + 1).last() == actions[i]);
}

/// Execute the actions `actions[start .. end]`: one flushed batch.
///
/// Every action runs to completion in order; the first error aborts the
/// flush. During a rollback replay (`tolerate_missing_delete`), deleting
/// a path that does not exist counts as success.
fn run_actions(
    root_dir: &cap_std::fs::Dir,
    actions: &Vec<FilesystemAction>,
    start: usize,
    end: usize,
    tolerate_missing_delete: bool,
) -> (r: Result<(), Error>)
    requires
        start <= end <= actions@.len(),
    ensures
        start == end ==> r is Ok,
        r is Ok ==> forall|j: int|
            start <= j < end ==> confined_targets(#[trigger] actions@[j]@),
        r is Err ==> is_action_error(r->Err_0),
{
    let mut j: usize = start;
    while j < end
        invariant
            start <= j <= end <= actions@.len(),
            forall|k: int| start <= k < j ==> confined_targets(#[trigger] actions@[k]@),
        decreases end - j,
    {
        match run_action(root_dir, &actions[j], tolerate_missing_delete) {
            Ok(()) => (),
            Err(err) => return Err(err),
        }
        j = j + 1;
    }
    Ok(())
}

/// Execute one action.
fn run_action(
    root_dir: &cap_std::fs::Dir,
    action: &FilesystemAction,
    tolerate_missing_delete: bool,
) -> (r: Result<(), Error>)
    ensures
        r is Ok ==> confined_targets(action@),
        r is Err ==> is_action_error(r->Err_0),
{
    match action {
        FilesystemAction::Copy(source_path, target_path) => {
            run_copy_action(root_dir, source_path.as_str(), target_path.as_str())
        },
        FilesystemAction::Move(source_path, target_path) => {
            run_move_action(root_dir, source_path.as_str(), target_path.as_str())
        },
        FilesystemAction::RollbackMove(source_path, target_path) => {
            run_rollback_move_action(
                root_dir,
                source_path.as_str(),
                target_path.as_str(),
                tolerate_missing_delete,
            )
        },
        FilesystemAction::SoftLink(source_path, target_path) => {
            run_soft_link_action(root_dir, source_path.as_str(), target_path.as_str())
        },
        FilesystemAction::HardLink(source_path, target_path) => {
            run_hard_link_action(root_dir, source_path.as_str(), target_path.as_str())
        },
        FilesystemAction::CreateDirectory(path) => {
            run_create_directory_action(root_dir, path.as_str())
        },
        FilesystemAction::Delete(path) => {
            run_delete_action(root_dir, path.as_str(), tolerate_missing_delete)
        },
        FilesystemAction::ChangeOwnerPermissions { path, user, group, permissions } => {
            run_change_owner_permissions_action(root_dir, path.as_str(), user, group, permissions)
        },
    }
}

/// Copy a file or a directory tree into the root.
///
/// The source is resolved through its own parent directory; the target
/// through the confining root.
fn run_copy_action(root_dir: &cap_std::fs::Dir, source_path: &str, target_path: &str) -> (r:
    Result<(), Error>)
    ensures
        file_name_spec(source_path@) is None <==> (r matches Err(e) && e matches
            Error::SourcePathInvalid(p) && p@ == source_path@),
        is_absolute_path(target_path@) ==> r is Err,
        r is Err ==> is_action_error(r->Err_0),
{
    let (parent, name_opt) = split_path(source_path);
    let name = match name_opt {
        Some(n) => n,
        None => return Err(Error::SourcePathInvalid(source_path.to_owned())),
    };
    let source_dir = match dir_open_ambient(parent.as_str()) {
        Ok(d) => d,
        Err(err) => return Err(err),
    };
    let meta = match dir_metadata(&source_dir, name.as_str()) {
        Ok(Some(m)) => m,
        Ok(None) => return Err(Error::InvalidMetadata(source_path.to_owned())),
        Err(err) => return Err(err),
    };
    match meta.kind {
        PathKind::File => copy_file(root_dir, &source_dir, name.as_str(), target_path),
        PathKind::Directory => copy_directory(root_dir, source_path, target_path),
        PathKind::Other => Err(Error::InvalidMetadata(source_path.to_owned())),
    }
}

/// Copy one regular file.
fn copy_file(
    root_dir: &cap_std::fs::Dir,
    source_dir: &cap_std::fs::Dir,
    source_name: &str,
    target_path: &str,
) -> (r: Result<(), Error>)
    ensures
        is_absolute_path(target_path@) ==> r is Err,
        r is Err ==> r->Err_0 is IO,
{
    let mut input = match dir_open_file(source_dir, source_name) {
        Ok(f) => f,
        Err(err) => return Err(err),
    };
    let mut output = match dir_create_file(root_dir, target_path) {
        Ok(f) => f,
        Err(err) => return Err(err),
    };
    copy_file_bytes(&mut input, &mut output)
}

/// Copy a directory tree: create the target directory, then copy every
/// entry, recursing into subdirectories through an explicit worklist.
/// Any entry that is neither a file nor a directory fails the copy, and
/// so does an entry whose name is not UTF-8: paths are UTF-8 strings
/// throughout the engine.
fn copy_directory(root_dir: &cap_std::fs::Dir, source_path: &str, target_path: &str) -> (r: Result<
    (),
    Error,
>)
    ensures
        is_absolute_path(target_path@) ==> r is Err,
        r is Err ==> r->Err_0 is IO || r->Err_0 is Runtime || r->Err_0 is InvalidMetadata,
{
    let mut worklist: Vec<(String, String)> = Vec::new();
    worklist.push((source_path.to_owned(), target_path.to_owned()));
    let mut fuel: u64 = u64::MAX;
    while worklist.len() > 0
        invariant
            is_absolute_path(target_path@) ==> (worklist@.len() == 1 && worklist@[0].1@
                == target_path@),
        decreases fuel,
    {
        if fuel == 0 {
            return Err(Error::new_runtime("directory tree has too many directories"));
        }
        fuel = fuel - 1;
        let (spath, tpath) = worklist.pop().unwrap();
        match dir_create_dir(root_dir, tpath.as_str()) {
            Ok(()) => (),
            Err(err) => return Err(err),
        }
        let source_dir = match dir_open_ambient(spath.as_str()) {
            Ok(d) => d,
            Err(err) => return Err(err),
        };
        let names = match dir_entry_names(&source_dir) {
            Ok(n) => n,
            Err(err) => return Err(err),
        };
        let mut k: usize = 0;
        while k < names.len()
            invariant
                k <= names@.len(),
            decreases names@.len() - k,
        {
            let name = &names[k];
            let meta = match dir_metadata(&source_dir, name.as_str()) {
                Ok(Some(m)) => m,
                Ok(None) => return Err(Error::InvalidMetadata(spath.clone())),
                Err(err) => return Err(err),
            };
            let child_source = join_path(spath.as_str(), name.as_str());
            let child_target = join_path(tpath.as_str(), name.as_str());
            match meta.kind {
                PathKind::File => {
                    match copy_file(root_dir, &source_dir, name.as_str(), child_target.as_str()) {
                        Ok(()) => (),
                        Err(err) => return Err(err),
                    }
                },
                PathKind::Directory => {
                    worklist.push((child_source, child_target));
                },
                PathKind::Other => {
                    return Err(Error::InvalidMetadata(child_source));
                },
            }
            k = k + 1;
        }
    }
    Ok(())
}

/// Move a path into the root: the source's parent directory is opened as
/// its own capability and the file name renamed through it.
fn run_move_action(root_dir: &cap_std::fs::Dir, source_path: &str, target_path: &str) -> (r:
    Result<(), Error>)
    ensures
        file_name_spec(source_path@) is None <==> (r matches Err(e) && e matches
            Error::SourcePathInvalid(p) && p@ == source_path@),
        is_absolute_path(target_path@) ==> r is Err,
        r is Err ==> r->Err_0 is IO || r->Err_0 is SourcePathInvalid,
{
    let (parent, name_opt) = split_path(source_path);
    let source_name = match name_opt {
        Some(n) => n,
        None => return Err(Error::SourcePathInvalid(source_path.to_owned())),
    };
    let source_dir = match dir_open_ambient(parent.as_str()) {
        Ok(d) => d,
        Err(err) => return Err(err),
    };
    dir_rename(&source_dir, source_name.as_str(), root_dir, target_path)
}

/// The reverse of a move: rename the target (by its file name, relative
/// to the root) back into the source's parent directory under the
/// source's file name. A rollback replay treats a target that does not
/// exist — a move that was recorded but never executed — as already
/// undone.
fn run_rollback_move_action(
    root_dir: &cap_std::fs::Dir,
    source_path: &str,
    target_path: &str,
    tolerate_missing: bool,
) -> (r: Result<(), Error>)
    ensures
        file_name_spec(source_path@) is None <==> (r matches Err(e) && e matches
            Error::SourcePathInvalid(p) && p@ == source_path@),
        file_name_spec(source_path@) is Some && file_name_spec(target_path@) is None <==> (r
            matches Err(e) && e matches Error::TargetPathInvalid(p) && p@ == target_path@),
        r is Err ==> r->Err_0 is IO || r->Err_0 is SourcePathInvalid || r->Err_0
            is TargetPathInvalid,
{
    let (parent, name_opt) = split_path(source_path);
    let source_name = match name_opt {
        Some(n) => n,
        None => return Err(Error::SourcePathInvalid(source_path.to_owned())),
    };
    let (_, target_name_opt) = split_path(target_path);
    let target_name = match target_name_opt {
        Some(n) => n,
        None => return Err(Error::TargetPathInvalid(target_path.to_owned())),
    };
    if tolerate_missing {
        match dir_metadata(root_dir, target_name.as_str()) {
            Ok(Some(_)) => (),
            Ok(None) => return Ok(()),
            Err(err) => return Err(err),
        }
    }
    let source_dir = match dir_open_ambient(parent.as_str()) {
        Ok(d) => d,
        Err(err) => return Err(err),
    };
    dir_rename(root_dir, target_name.as_str(), &source_dir, source_name.as_str())
}

/// Create a hard link: the source is addressed by its file name relative
/// to the root, the target by its full path relative to the root.
fn run_hard_link_action(root_dir: &cap_std::fs::Dir, source_path: &str, target_path: &str) -> (r:
    Result<(), Error>)
    ensures
        file_name_spec(source_path@) is None <==> (r matches Err(e) && e matches
            Error::SourcePathInvalid(p) && p@ == source_path@),
        is_absolute_path(target_path@) ==> r is Err,
        r is Err ==> r->Err_0 is IO || r->Err_0 is SourcePathInvalid,
{
    let (_, name_opt) = split_path(source_path);
    let source_name = match name_opt {
        Some(n) => n,
        None => return Err(Error::SourcePathInvalid(source_path.to_owned())),
    };
    dir_hard_link(root_dir, source_name.as_str(), target_path)
}

/// Create a symlink whose content is the source path as given.
fn run_soft_link_action(root_dir: &cap_std::fs::Dir, source_path: &str, target_path: &str) -> (r:
    Result<(), Error>)
    ensures
        is_absolute_path(target_path@) ==> r is Err,
        r is Err ==> r->Err_0 is IO,
{
    dir_symlink(root_dir, source_path, target_path)
}

/// Create a directory with any missing parents.
fn run_create_directory_action(root_dir: &cap_std::fs::Dir, path: &str) -> (r: Result<(), Error>)
    ensures
        is_absolute_path(path@) ==> r is Err,
        r is Err ==> r->Err_0 is IO,
{
    dir_create_dir_all(root_dir, path)
}

/// Delete a file or a directory tree. A path that exists but is
/// neither is rejected with `InvalidMetadata`; a path that does not
/// exist surfaces the OS error from the removal, unless a rollback
/// replay is tolerating already-undone work.
fn run_delete_action(root_dir: &cap_std::fs::Dir, path: &str, tolerate_missing: bool) -> (r:
    Result<(), Error>)
    ensures
        is_absolute_path(path@) ==> r is Err,
        r is Err ==> r->Err_0 is IO || r->Err_0 is InvalidMetadata,
{
    match dir_metadata(root_dir, path) {
        Ok(Some(meta)) => match meta.kind {
            PathKind::File => dir_remove_file(root_dir, path),
            PathKind::Directory => dir_remove_dir_all(root_dir, path),
            PathKind::Other => Err(Error::InvalidMetadata(path.to_owned())),
        },
        Ok(None) => {
            if tolerate_missing {
                Ok(())
            } else {
                dir_remove_file(root_dir, path)
            }
        },
        Err(err) => Err(err),
    }
}

/// Apply an owner/permission change.
///
/// The requested permissions are merged over the path's current mode, so
/// an `Unchanged` bit keeps its current value; the merge is always fully
/// decided, so the conversion to a mode cannot fail. User and group
/// names resolve to numeric ids; an unknown name leaves that side
/// unchanged, matching a by-id change of `None`.
fn run_change_owner_permissions_action(
    root_dir: &cap_std::fs::Dir,
    path: &str,
    user: &Option<String>,
    group: &Option<String>,
    permissions: &Option<Permissions>,
) -> (r: Result<(), Error>)
    ensures
        user is None && group is None && permissions is None ==> r is Ok,
        permissions is Some && is_absolute_path(path@) ==> r is Err,
        r is Err ==> r->Err_0 is IO || r->Err_0 is InvalidMetadata,
{
    match permissions {
        Some(perms) => {
            let meta = match dir_metadata(root_dir, path) {
                Ok(Some(m)) => m,
                Ok(None) => return Err(Error::InvalidMetadata(path.to_owned())),
                Err(err) => return Err(err),
            };
            let current = Permissions::from_mode(meta.mode);
            let merged = current.overwrite(perms);
            proof {
                lemma_from_mode_resolved(meta.mode);
                lemma_overwrite_preserves_resolved(current, *perms);
            }
            let mode = merged.as_mode().unwrap();
            match dir_set_mode(root_dir, path, mode) {
                Ok(()) => (),
                Err(err) => return Err(err),
            }
        },
        None => (),
    }
    if user.is_none() && group.is_none() {
        return Ok(());
    }
    let uid = match user {
        Some(u) => {
            match lookup_user_id(u.as_str()) {
                Ok(id) => id,
                Err(err) => return Err(err),
            }
        },
        None => None,
    };
    let gid = match group {
        Some(g) => {
            match lookup_group_id(g.as_str()) {
                Ok(id) => id,
                Err(err) => return Err(err),
            }
        },
        None => None,
    };
    dir_chown(root_dir, path, uid, gid)
}

/// Read the owner name, group name and current permissions of a path:
/// the material of a synthesized owner/permission rollback entry.
fn get_current_owner_and_permissions(root_dir: &cap_std::fs::Dir, path: &str) -> (r: Result<
    (Option<String>, Option<String>, Permissions),
    Error,
>)
    ensures
        r matches Ok(t) ==> t.2.is_resolved(),
        r is Err ==> r->Err_0 is IO || r->Err_0 is InvalidMetadata,
{
    let meta = match dir_metadata(root_dir, path) {
        Ok(Some(m)) => m,
        Ok(None) => return Err(Error::InvalidMetadata(path.to_owned())),
        Err(err) => return Err(err),
    };
    let user = match lookup_user_name(meta.uid) {
        Ok(u) => u,
        Err(err) => return Err(err),
    };
    let group = match lookup_group_name(meta.gid) {
        Ok(g) => g,
        Err(err) => return Err(err),
    };
    let permissions = Permissions::from_mode(meta.mode);
    proof {
        lemma_from_mode_resolved(meta.mode);
    }
    Ok((user, group, permissions))
}

} // verus!
