//! A mathematical model of the filesystem and the rollback theorem.
//!
//! The filesystem is modelled as a map from paths to nodes carrying
//! data, a 9-bit mode and an owner and group name. Each recorded
//! [`Action`] has a meaning on that model, a footprint (the paths it
//! touches) and a success condition. The theorem at the end states the
//! transaction engine's central promise: for a list of actions that
//! fully succeeds and whose footprints are pairwise disjoint, replaying
//! the synthesized rollback list (the enqueue-time inverses followed by
//! the owner/permission captures) restores the pre-commit state exactly,
//! except for the paths removed by explicit deletes, which are
//! irreversible by contract.

use vstd::prelude::*;

use crate::transactions::filesystem_transaction::{enqueue_rollback, Action};
use crate::transactions::permissions::{lemma_from_mode_resolved, lemma_mode_round_trip, Permissions};

verus! {

/// What a node holds.
pub ghost enum FsData {
    /// A regular file's bytes.
    File(Seq<u8>),
    /// A directory.
    Directory,
    /// A symlink and its target text.
    Symlink(Seq<char>),
}

/// One filesystem object.
pub ghost struct FsNode {
    /// The node's content.
    pub data: FsData,
    /// The permission bits (9 bits; the model keeps no file-type bits).
    pub mode: u32,
    /// The owner's name, if resolvable.
    pub user: Option<Seq<char>>,
    /// The group's name, if resolvable.
    pub group: Option<Seq<char>>,
}

/// The filesystem: a map from paths to nodes.
pub type FsState = Map<Seq<char>, FsNode>;

/// Every mode of the state fits in 9 bits.
pub open spec fn wf_state(s: FsState) -> bool {
    forall|p: Seq<char>| s.dom().contains(p) ==> (#[trigger] s[p]).mode < 0o1000
}

/// The paths an action touches.
pub open spec fn footprint(a: Action) -> Set<Seq<char>> {
    match a {
        Action::Copy { src, dst } => set![src, dst],
        Action::Move { src, dst } => set![src, dst],
        Action::RollbackMove { src, dst } => set![src, dst],
        Action::SoftLink { src, dst } => set![dst],
        Action::HardLink { src, dst } => set![src, dst],
        Action::CreateDirectory { path } => set![path],
        Action::Delete { path } => set![path],
        Action::ChangeOwnerPermissions { path, .. } => set![path],
    }
}

/// When an action succeeds against a state: its sources exist, its
/// targets are fresh, the object it edits exists.
pub open spec fn action_ok(s: FsState, a: Action) -> bool {
    match a {
        Action::Copy { src, dst } => s.dom().contains(src) && !s.dom().contains(dst),
        Action::Move { src, dst } => s.dom().contains(src) && !s.dom().contains(dst),
        Action::RollbackMove { src, dst } => s.dom().contains(dst) && !s.dom().contains(src),
        Action::SoftLink { src, dst } => !s.dom().contains(dst),
        Action::HardLink { src, dst } => s.dom().contains(src) && !s.dom().contains(dst),
        Action::CreateDirectory { path } => !s.dom().contains(path),
        Action::Delete { path } => s.dom().contains(path),
        Action::ChangeOwnerPermissions { path, .. } => s.dom().contains(path),
    }
}

/// The node an owner/permission change leaves behind: requested
/// permission bits merged over the current mode, requested names over
/// the current names.
pub open spec fn cop_new_node(
    node: FsNode,
    user: Option<Seq<char>>,
    group: Option<Seq<char>>,
    permissions: Option<Permissions>,
) -> FsNode {
    FsNode {
        data: node.data,
        mode: match permissions {
            Some(p) => Permissions::from_mode_spec(node.mode).overwrite_spec(p).as_mode_spec(),
            None => node.mode,
        },
        user: match user {
            Some(u) => Some(u),
            None => node.user,
        },
        group: match group {
            Some(g) => Some(g),
            None => node.group,
        },
    }
}

/// A freshly created node (a directory or a symlink): default bits, no
/// recorded owner.
pub open spec fn fresh_node(data: FsData) -> FsNode {
    FsNode { data, mode: 0o777, user: None, group: None }
}

/// The meaning of one action on the model: an action that cannot
/// succeed (per [`action_ok`]) leaves the state unchanged.
pub open spec fn apply_action(s: FsState, a: Action) -> FsState {
    if action_ok(s, a) {
        apply_action_unchecked(s, a)
    } else {
        s
    }
}

/// The effect of a succeeding action.
pub open spec fn apply_action_unchecked(s: FsState, a: Action) -> FsState {
    match a {
        Action::Copy { src, dst } => s.insert(dst, s[src]),
        Action::Move { src, dst } => s.remove(src).insert(dst, s[src]),
        Action::RollbackMove { src, dst } => s.remove(dst).insert(src, s[dst]),
        Action::SoftLink { src, dst } => s.insert(dst, fresh_node(FsData::Symlink(src))),
        Action::HardLink { src, dst } => s.insert(dst, s[src]),
        Action::CreateDirectory { path } => s.insert(path, fresh_node(FsData::Directory)),
        Action::Delete { path } => s.remove(path),
        Action::ChangeOwnerPermissions { path, user, group, permissions } => s.insert(
            path,
            cop_new_node(s[path], user, group, permissions),
        ),
    }
}

/// Apply a list of actions, first to last.
pub open spec fn apply_all(s: FsState, actions: Seq<Action>) -> FsState
    decreases actions.len(),
{
    if actions.len() == 0 {
        s
    } else {
        apply_all(apply_action(s, actions.first()), actions.drop_first())
    }
}

/// The concatenated enqueue-time rollback entries of a list, in enqueue
/// order.
pub open spec fn enqueue_rollback_all(actions: Seq<Action>) -> Seq<Action>
    decreases actions.len(),
{
    if actions.len() == 0 {
        Seq::empty()
    } else {
        enqueue_rollback(actions.first()) + enqueue_rollback_all(actions.drop_first())
    }
}

/// The inverse of an owner/permission change, captured against `s`: it
/// restores the path's owner, group and exact mode as `s` holds them.
pub open spec fn inverse_cop(s: FsState, a: Action) -> Action {
    match a {
        Action::ChangeOwnerPermissions { path, .. } => Action::ChangeOwnerPermissions {
            path,
            user: s[path].user,
            group: s[path].group,
            permissions: Some(Permissions::from_mode_spec(s[path].mode)),
        },
        _ => a,
    }
}

/// The owner/permission rollback entries the commit walk captures, in
/// walk order, against the pre-commit state.
pub open spec fn cop_captures(s: FsState, actions: Seq<Action>) -> Seq<Action>
    decreases actions.len(),
{
    if actions.len() == 0 {
        Seq::empty()
    } else if actions.first() is ChangeOwnerPermissions {
        seq![inverse_cop(s, actions.first())] + cop_captures(s, actions.drop_first())
    } else {
        cop_captures(s, actions.drop_first())
    }
}

/// No two actions of the list touch a common path.
pub open spec fn disjoint_footprints(actions: Seq<Action>) -> bool {
    forall|i: int, j: int|
        0 <= i < j < actions.len() ==> footprint(actions[i]).disjoint(footprint(actions[j]))
}

/// Every action of the list succeeds against `s`. With disjoint
/// footprints this is exactly a commit in which every action succeeds,
/// since no action can disturb another's paths.
pub open spec fn all_ok(s: FsState, actions: Seq<Action>) -> bool {
    forall|i: int| 0 <= i < actions.len() ==> action_ok(s, #[trigger] actions[i])
}

/// The paths removed by the explicit deletes of the list.
pub open spec fn deleted_paths(actions: Seq<Action>) -> Set<Seq<char>> {
    Set::new(
        |p: Seq<char>|
            exists|i: int| 0 <= i < actions.len() && actions[i] == Action::Delete { path: p },
    )
}

/// The two states hold the same thing at `p`: both nothing, or both the
/// same node.
pub open spec fn agree_on(s1: FsState, s2: FsState, p: Seq<char>) -> bool {
    &&& s1.dom().contains(p) == s2.dom().contains(p)
    &&& s1.dom().contains(p) ==> s1[p] == s2[p]
}

/// States agreeing everywhere are equal.
proof fn lemma_state_eq(s1: FsState, s2: FsState)
    requires
        forall|p: Seq<char>| agree_on(s1, s2, p),
    ensures
        s1 == s2,
{
    assert forall|p: Seq<char>| s1.dom().contains(p) implies s2.dom().contains(p) by {
        assert(agree_on(s1, s2, p));
    }
    assert forall|p: Seq<char>| s2.dom().contains(p) implies s1.dom().contains(p) by {
        assert(agree_on(s1, s2, p));
    }
    assert forall|p: Seq<char>| s1.dom().contains(p) implies s1[p] == s2[p] by {
        assert(agree_on(s1, s2, p));
    }
    assert(s1 =~= s2);
}

/// An action changes nothing outside its footprint.
proof fn lemma_apply_local(s: FsState, a: Action, p: Seq<char>)
    requires
        !footprint(a).contains(p),
    ensures
        agree_on(apply_action(s, a), s, p),
{
    match a {
        Action::Copy { src, dst } => {
            assert(p != src && p != dst);
        },
        Action::Move { src, dst } => {
            assert(p != src && p != dst);
        },
        Action::RollbackMove { src, dst } => {
            assert(p != src && p != dst);
        },
        Action::SoftLink { src, dst } => {
            assert(p != dst);
        },
        Action::HardLink { src, dst } => {
            assert(p != src && p != dst);
        },
        Action::CreateDirectory { path } => {
            assert(p != path);
        },
        Action::Delete { path } => {
            assert(p != path);
        },
        Action::ChangeOwnerPermissions { path, .. } => {
            assert(p != path);
        },
    }
}

/// What an action leaves inside its footprint depends only on what the
/// state held inside its footprint.
proof fn lemma_apply_congruent(s1: FsState, s2: FsState, a: Action, p: Seq<char>)
    requires
        forall|q: Seq<char>| footprint(a).contains(q) ==> agree_on(s1, s2, q),
        footprint(a).contains(p),
    ensures
        agree_on(apply_action(s1, a), apply_action(s2, a), p),
{
    lemma_ok_congruent(s1, s2, a);
    if !action_ok(s1, a) {
        assert(agree_on(s1, s2, p));
        return ;
    }
    match a {
        Action::Copy { src, dst } => {
            assert(agree_on(s1, s2, src));
            assert(agree_on(s1, s2, dst));
        },
        Action::Move { src, dst } => {
            assert(agree_on(s1, s2, src));
            assert(agree_on(s1, s2, dst));
        },
        Action::RollbackMove { src, dst } => {
            assert(agree_on(s1, s2, src));
            assert(agree_on(s1, s2, dst));
        },
        Action::SoftLink { src, dst } => {
            assert(agree_on(s1, s2, dst));
        },
        Action::HardLink { src, dst } => {
            assert(agree_on(s1, s2, src));
            assert(agree_on(s1, s2, dst));
        },
        Action::CreateDirectory { path } => {
            assert(agree_on(s1, s2, path));
        },
        Action::Delete { path } => {
            assert(agree_on(s1, s2, path));
        },
        Action::ChangeOwnerPermissions { path, .. } => {
            assert(agree_on(s1, s2, path));
        },
    }
}

/// Whether an action succeeds depends only on what the state holds
/// inside its footprint.
proof fn lemma_ok_congruent(s1: FsState, s2: FsState, a: Action)
    requires
        forall|q: Seq<char>| footprint(a).contains(q) ==> agree_on(s1, s2, q),
    ensures
        action_ok(s1, a) == action_ok(s2, a),
{
    match a {
        Action::Copy { src, dst } => {
            assert(agree_on(s1, s2, src));
            assert(agree_on(s1, s2, dst));
        },
        Action::Move { src, dst } => {
            assert(agree_on(s1, s2, src));
            assert(agree_on(s1, s2, dst));
        },
        Action::RollbackMove { src, dst } => {
            assert(agree_on(s1, s2, src));
            assert(agree_on(s1, s2, dst));
        },
        Action::SoftLink { src, dst } => {
            assert(agree_on(s1, s2, dst));
        },
        Action::HardLink { src, dst } => {
            assert(agree_on(s1, s2, src));
            assert(agree_on(s1, s2, dst));
        },
        Action::CreateDirectory { path } => {
            assert(agree_on(s1, s2, path));
        },
        Action::Delete { path } => {
            assert(agree_on(s1, s2, path));
        },
        Action::ChangeOwnerPermissions { path, .. } => {
            assert(agree_on(s1, s2, path));
        },
    }
}

/// Two actions with disjoint footprints commute.
proof fn lemma_actions_commute(s: FsState, a: Action, b: Action)
    requires
        footprint(a).disjoint(footprint(b)),
    ensures
        apply_action(apply_action(s, a), b) == apply_action(apply_action(s, b), a),
{
    let left = apply_action(apply_action(s, a), b);
    let right = apply_action(apply_action(s, b), a);
    assert forall|p: Seq<char>| agree_on(left, right, p) by {
        if footprint(a).contains(p) {
            lemma_apply_local(s, b, p);
            assert forall|q: Seq<char>| footprint(a).contains(q) implies agree_on(
                apply_action(s, b),
                s,
                q,
            ) by {
                lemma_apply_local(s, b, q);
            }
            lemma_apply_congruent(apply_action(s, b), s, a, p);
            lemma_apply_local(apply_action(s, a), b, p);
        } else if footprint(b).contains(p) {
            lemma_apply_local(s, a, p);
            assert forall|q: Seq<char>| footprint(b).contains(q) implies agree_on(
                apply_action(s, a),
                s,
                q,
            ) by {
                lemma_apply_local(s, a, q);
            }
            lemma_apply_congruent(apply_action(s, a), s, b, p);
            lemma_apply_local(apply_action(s, b), a, p);
        } else {
            lemma_apply_local(s, a, p);
            lemma_apply_local(apply_action(s, a), b, p);
            lemma_apply_local(s, b, p);
            lemma_apply_local(apply_action(s, b), a, p);
        }
    }
    lemma_state_eq(left, right);
}

/// One action with a footprint disjoint from a whole list commutes past
/// the list.
proof fn lemma_action_commutes_with_list(s: FsState, a: Action, actions: Seq<Action>)
    requires
        forall|j: int|
            0 <= j < actions.len() ==> footprint(a).disjoint(footprint(#[trigger] actions[j])),
    ensures
        apply_all(apply_action(s, a), actions) == apply_action(apply_all(s, actions), a),
    decreases actions.len(),
{
    if actions.len() > 0 {
        let b = actions.first();
        lemma_actions_commute(s, a, b);
        assert forall|j: int| 0 <= j < actions.drop_first().len() implies footprint(a).disjoint(
            footprint(#[trigger] actions.drop_first()[j]),
        ) by {
            assert(actions.drop_first()[j] == actions[j + 1]);
        }
        lemma_action_commutes_with_list(apply_action(s, b), a, actions.drop_first());
    }
}

/// Applying a concatenation is applying the parts in order.
proof fn lemma_apply_all_append(s: FsState, first: Seq<Action>, second: Seq<Action>)
    ensures
        apply_all(s, first + second) == apply_all(apply_all(s, first), second),
    decreases first.len(),
{
    if first.len() == 0 {
        assert(first + second =~= second);
    } else {
        assert((first + second).first() == first.first());
        assert((first + second).drop_first() =~= first.drop_first() + second);
        lemma_apply_all_append(apply_action(s, first.first()), first.drop_first(), second);
    }
}

/// No synthesized reverse move stands in the list (commit lists never
/// hold one).
pub open spec fn no_rollback_moves(actions: Seq<Action>) -> bool {
    forall|i: int| 0 <= i < actions.len() ==> !(#[trigger] actions[i] is RollbackMove)
}

/// Every owner or group name that an owner/permission change sets has a
/// resolvable current value to capture: without it not even the real
/// system could restore the previous owner.
pub open spec fn captures_complete(s: FsState, actions: Seq<Action>) -> bool {
    forall|i: int|
        0 <= i < actions.len() ==> match #[trigger] actions[i] {
            Action::ChangeOwnerPermissions { path, user, group, .. } => {
                &&& (user is Some ==> s[path].user is Some)
                &&& (group is Some ==> s[path].group is Some)
            },
            _ => true,
        }
}

/// Some action of the list touches `p`.
pub open spec fn touches(actions: Seq<Action>, p: Seq<char>) -> bool {
    exists|j: int| 0 <= j < actions.len() && (#[trigger] footprint(actions[j])).contains(p)
}

/// The footprints of every enqueue-time rollback entry stay inside the
/// footprint of the action that synthesized it.
proof fn lemma_enqueue_footprint(a: Action)
    ensures
        forall|k: int|
            0 <= k < enqueue_rollback(a).len() ==> (#[trigger] footprint(
                enqueue_rollback(a)[k],
            )).subset_of(footprint(a)),
{
}

/// The deletes and owner/permission changes of one walk step.
pub open spec fn mid_step(s: FsState, a: Action) -> FsState {
    if a is Delete || a is ChangeOwnerPermissions {
        apply_action(s, a)
    } else {
        s
    }
}

/// The state the enqueue-time replay leaves behind: the deletes and the
/// owner/permission changes of the list applied to `s`, everything else
/// undone.
pub open spec fn mid_state(s: FsState, actions: Seq<Action>) -> FsState
    decreases actions.len(),
{
    if actions.len() == 0 {
        s
    } else {
        mid_state(mid_step(s, actions.first()), actions.drop_first())
    }
}

/// The walk of deletes and owner changes never touches a path outside
/// the list's footprints.
proof fn lemma_mid_local(s: FsState, actions: Seq<Action>, p: Seq<char>)
    requires
        !touches(actions, p),
    ensures
        agree_on(mid_state(s, actions), s, p),
    decreases actions.len(),
{
    if actions.len() > 0 {
        let a = actions.first();
        assert(!footprint(a).contains(p));
        lemma_apply_local(s, a, p);
        assert forall|j: int|
            0 <= j < actions.drop_first().len() implies !(#[trigger] footprint(
            actions.drop_first()[j],
        )).contains(p) by {
            assert(actions.drop_first()[j] == actions[j + 1]);
            assert(!footprint(actions[j + 1]).contains(p));
        }
        lemma_mid_local(mid_step(s, a), actions.drop_first(), p);
    }
}

/// The walk of deletes and owner changes is congruent on states that
/// agree outside one untouched path.
proof fn lemma_mid_congruent(s1: FsState, s2: FsState, actions: Seq<Action>, p: Seq<char>)
    requires
        forall|q: Seq<char>| q != p ==> agree_on(s1, s2, q),
        !touches(actions, p),
    ensures
        forall|q: Seq<char>| q != p ==> agree_on(mid_state(s1, actions), mid_state(s2, actions), q),
    decreases actions.len(),
{
    if actions.len() > 0 {
        let a = actions.first();
        assert(!footprint(a).contains(p));
        assert forall|q: Seq<char>| q != p implies agree_on(
            mid_step(s1, a),
            mid_step(s2, a),
            q,
        ) by {
            if footprint(a).contains(q) {
                assert forall|w: Seq<char>| footprint(a).contains(w) implies agree_on(
                    s1,
                    s2,
                    w,
                ) by {
                    assert(w != p);
                }
                lemma_apply_congruent(s1, s2, a, q);
            } else {
                lemma_apply_local(s1, a, q);
                lemma_apply_local(s2, a, q);
            }
        }
        assert forall|j: int|
            0 <= j < actions.drop_first().len() implies !(#[trigger] footprint(
            actions.drop_first()[j],
        )).contains(p) by {
            assert(actions.drop_first()[j] == actions[j + 1]);
            assert(!footprint(actions[j + 1]).contains(p));
        }
        lemma_mid_congruent(mid_step(s1, a), mid_step(s2, a), actions.drop_first(), p);
        assert(mid_state(s1, actions) == mid_state(mid_step(s1, a), actions.drop_first()));
        assert(mid_state(s2, actions) == mid_state(mid_step(s2, a), actions.drop_first()));
    }
}

/// Success of every action, capture completeness and the capture list
/// itself carry over to a state that differs only at a path no action
/// of the list touches.
proof fn lemma_list_facts_agree(s1: FsState, s2: FsState, actions: Seq<Action>, p: Seq<char>)
    requires
        forall|q: Seq<char>| q != p ==> agree_on(s1, s2, q),
        !touches(actions, p),
        all_ok(s1, actions),
    ensures
        all_ok(s2, actions),
        captures_complete(s1, actions) == captures_complete(s2, actions),
        cop_captures(s1, actions) == cop_captures(s2, actions),
    decreases actions.len(),
{
    assert forall|i: int| 0 <= i < actions.len() implies action_ok(s2, #[trigger] actions[i]) by {
        assert(!footprint(actions[i]).contains(p));
        assert forall|w: Seq<char>| footprint(actions[i]).contains(w) implies agree_on(
            s1,
            s2,
            w,
        ) by {
            assert(w != p);
        }
        lemma_ok_congruent(s1, s2, actions[i]);
        assert(action_ok(s1, actions[i]));
    }
    assert forall|i: int|
        0 <= i < actions.len() && actions[i] is ChangeOwnerPermissions implies agree_on(
        s1,
        s2,
        cop_path_of(#[trigger] actions[i]),
    ) && s1.dom().contains(cop_path_of(actions[i])) && s1[cop_path_of(actions[i])]
        == s2[cop_path_of(actions[i])] by {
        assert(footprint(actions[i]).contains(cop_path_of(actions[i])));
        assert(!footprint(actions[i]).contains(p));
        assert(cop_path_of(actions[i]) != p);
        assert(agree_on(s1, s2, cop_path_of(actions[i])));
        assert(action_ok(s1, actions[i]));
    }
    assert(captures_complete(s1, actions) == captures_complete(s2, actions)) by {
        if captures_complete(s1, actions) {
            assert forall|i: int| 0 <= i < actions.len() implies match #[trigger] actions[i] {
                Action::ChangeOwnerPermissions { path, user, group, .. } => {
                    &&& (user is Some ==> s2[path].user is Some)
                    &&& (group is Some ==> s2[path].group is Some)
                },
                _ => true,
            } by {
                if actions[i] is ChangeOwnerPermissions {
                    assert(s1[cop_path_of(actions[i])] == s2[cop_path_of(actions[i])]);
                }
            }
        }
        if captures_complete(s2, actions) {
            assert forall|i: int| 0 <= i < actions.len() implies match #[trigger] actions[i] {
                Action::ChangeOwnerPermissions { path, user, group, .. } => {
                    &&& (user is Some ==> s1[path].user is Some)
                    &&& (group is Some ==> s1[path].group is Some)
                },
                _ => true,
            } by {
                if actions[i] is ChangeOwnerPermissions {
                    assert(s1[cop_path_of(actions[i])] == s2[cop_path_of(actions[i])]);
                }
            }
        }
    }
    if actions.len() > 0 {
        assert forall|j: int|
            0 <= j < actions.drop_first().len() implies !(#[trigger] footprint(
            actions.drop_first()[j],
        )).contains(p) by {
            assert(actions.drop_first()[j] == actions[j + 1]);
            assert(!footprint(actions[j + 1]).contains(p));
        }
        assert forall|j: int| 0 <= j < actions.drop_first().len() implies action_ok(
            s1,
            #[trigger] actions.drop_first()[j],
        ) by {
            assert(actions.drop_first()[j] == actions[j + 1]);
        }
        lemma_list_facts_agree(s1, s2, actions.drop_first(), p);
        if actions.first() is ChangeOwnerPermissions {
            assert(actions.first() == actions[0]);
            assert(s1[cop_path_of(actions[0])] == s2[cop_path_of(actions[0])]);
            assert(inverse_cop(s1, actions.first()) == inverse_cop(s2, actions.first()));
        }
        assert(cop_captures(s1, actions) =~= cop_captures(s2, actions));
    }
}

/// The path an owner/permission change edits.
pub open spec fn cop_path_of(a: Action) -> Seq<char> {
    match a {
        Action::ChangeOwnerPermissions { path, .. } => path,
        _ => Seq::empty(),
    }
}

/// Applying the enqueue-time inverse right after its action restores the
/// state (deletes and owner/permission changes synthesize none).
proof fn lemma_enqueue_inverts(s: FsState, a: Action)
    requires
        action_ok(s, a),
        !(a is RollbackMove),
        !(a is Delete),
        !(a is ChangeOwnerPermissions),
    ensures
        apply_all(apply_action(s, a), enqueue_rollback(a)) == s,
{
    let applied = apply_action(s, a);
    let inverses = enqueue_rollback(a);
    match a {
        Action::Copy { src, dst } => {
            assert(inverses.len() == 1);
            assert(inverses.drop_first() =~= Seq::<Action>::empty());
            let inverse = inverses.first();
            let step = apply_action(applied, inverse);
            assert(apply_all(step, inverses.drop_first()) == step);
            assert(apply_all(applied, inverses) == apply_all(step, inverses.drop_first()));
            assert(action_ok(applied, inverse));
            lemma_state_eq(step, s);
        },
        Action::Move { src, dst } => {
            assert(inverses.len() == 1);
            assert(inverses.drop_first() =~= Seq::<Action>::empty());
            let inverse = inverses.first();
            let step = apply_action(applied, inverse);
            assert(apply_all(step, inverses.drop_first()) == step);
            assert(apply_all(applied, inverses) == apply_all(step, inverses.drop_first()));
            assert(action_ok(applied, inverse));
            lemma_state_eq(step, s);
        },
        Action::SoftLink { src, dst } => {
            assert(inverses.len() == 1);
            assert(inverses.drop_first() =~= Seq::<Action>::empty());
            let inverse = inverses.first();
            let step = apply_action(applied, inverse);
            assert(apply_all(step, inverses.drop_first()) == step);
            assert(apply_all(applied, inverses) == apply_all(step, inverses.drop_first()));
            assert(action_ok(applied, inverse));
            lemma_state_eq(step, s);
        },
        Action::HardLink { src, dst } => {
            assert(inverses.len() == 1);
            assert(inverses.drop_first() =~= Seq::<Action>::empty());
            let inverse = inverses.first();
            let step = apply_action(applied, inverse);
            assert(apply_all(step, inverses.drop_first()) == step);
            assert(apply_all(applied, inverses) == apply_all(step, inverses.drop_first()));
            assert(action_ok(applied, inverse));
            lemma_state_eq(step, s);
        },
        Action::CreateDirectory { path } => {
            assert(inverses.len() == 1);
            assert(inverses.drop_first() =~= Seq::<Action>::empty());
            let inverse = inverses.first();
            let step = apply_action(applied, inverse);
            assert(apply_all(step, inverses.drop_first()) == step);
            assert(apply_all(applied, inverses) == apply_all(step, inverses.drop_first()));
            assert(action_ok(applied, inverse));
            lemma_state_eq(step, s);
        },
        _ => {},
    }
}

/// Applying a captured owner/permission inverse restores the edited
/// path's node exactly, in any state that still holds the node the
/// change left behind.
proof fn lemma_capture_inverts(s: FsState, x: FsState, a: Action)
    requires
        wf_state(s),
        a is ChangeOwnerPermissions,
        action_ok(s, a),
        match a {
            Action::ChangeOwnerPermissions { path, user, group, .. } => {
                &&& (user is Some ==> s[path].user is Some)
                &&& (group is Some ==> s[path].group is Some)
                &&& x.dom().contains(path)
                &&& x[path] == apply_action(s, a)[path]
            },
            _ => false,
        },
    ensures
        apply_action(x, inverse_cop(s, a)) == x.insert(cop_path_of(a), s[cop_path_of(a)]),
{
    match a {
        Action::ChangeOwnerPermissions { path, user, group, permissions } => {
            let node = s[path];
            let inverse = inverse_cop(s, a);
            assert(action_ok(x, inverse));
            let changed = x[path];
            assert(changed == cop_new_node(node, user, group, permissions));
            let restored = cop_new_node(changed, node.user, node.group, Some(
                Permissions::from_mode_spec(node.mode),
            ));
            lemma_from_mode_resolved(node.mode);
            crate::transactions::permissions::lemma_overwrite_resolved_right(
                Permissions::from_mode_spec(changed.mode),
                Permissions::from_mode_spec(node.mode),
            );

            lemma_mode_round_trip(node.mode);
            assert(restored.mode == node.mode);
            assert(restored.user == node.user);
            assert(restored.group == node.group);
            assert(restored.data == node.data);
            assert(apply_action(x, inverse) == x.insert(path, restored));
            assert(restored == node);
        },
        _ => {},
    }
}

/// Every list-level hypothesis carries to the tail of the list, and the
/// head's footprint is untouched by the tail.
proof fn lemma_tail_facts(s: FsState, actions: Seq<Action>)
    requires
        actions.len() > 0,
        all_ok(s, actions),
        disjoint_footprints(actions),
        no_rollback_moves(actions),
    ensures
        all_ok(s, actions.drop_first()),
        disjoint_footprints(actions.drop_first()),
        no_rollback_moves(actions.drop_first()),
        action_ok(s, actions.first()),
        forall|p: Seq<char>|
            footprint(actions.first()).contains(p) ==> !touches(actions.drop_first(), p),
{
    let rest = actions.drop_first();
    assert forall|j: int| 0 <= j < rest.len() implies action_ok(s, #[trigger] rest[j]) by {
        assert(rest[j] == actions[j + 1]);
    }
    assert forall|i: int, j: int| 0 <= i < j < rest.len() implies footprint(rest[i]).disjoint(
        footprint(rest[j]),
    ) by {
        assert(rest[i] == actions[i + 1]);
        assert(rest[j] == actions[j + 1]);
        assert(footprint(actions[i + 1]).disjoint(footprint(actions[j + 1])));
    }
    assert forall|j: int| 0 <= j < rest.len() implies !(#[trigger] rest[j] is RollbackMove) by {
        assert(rest[j] == actions[j + 1]);
    }
    assert(actions.first() == actions[0]);
    assert forall|p: Seq<char>|
        footprint(actions.first()).contains(p) implies !touches(rest, p) by {
        assert forall|j: int| 0 <= j < rest.len() implies !(#[trigger] footprint(
            rest[j],
        )).contains(p) by {
            assert(rest[j] == actions[j + 1]);
            assert(footprint(actions[0]).disjoint(footprint(actions[j + 1])));
        }
    }
}

/// A deleted node keeps the state well formed; an owner/permission
/// change does too, since a merged mode is always 9 bits.
proof fn lemma_step_wf(s: FsState, a: Action)
    requires
        wf_state(s),
    ensures
        wf_state(apply_action(s, a)),
        wf_state(mid_step(s, a)),
{
    if action_ok(s, a) {
        match a {
            Action::ChangeOwnerPermissions { path, user, group, permissions } => {
                match permissions {
                    Some(p) => {
                        crate::transactions::permissions::lemma_as_mode_bounded(
                            Permissions::from_mode_spec(s[path].mode).overwrite_spec(p),
                        );
                    },
                    None => {},
                }
                assert(cop_new_node(s[path], user, group, permissions).mode < 0o1000);
                assert forall|q: Seq<char>|
                    apply_action(s, a).dom().contains(q) implies (#[trigger] apply_action(
                    s,
                    a,
                )[q]).mode < 0o1000 by {
                    if q != path {
                        assert(apply_action(s, a)[q] == s[q]);
                    }
                }
            },
            _ => {},
        }
    }
}

/// Replaying the enqueue-time rollback entries after the whole commit
/// undoes every action but the deletes and the owner/permission
/// changes.
proof fn lemma_enqueue_phase(s: FsState, actions: Seq<Action>)
    requires
        wf_state(s),
        all_ok(s, actions),
        disjoint_footprints(actions),
        no_rollback_moves(actions),
    ensures
        apply_all(apply_all(s, actions), enqueue_rollback_all(actions)) == mid_state(s, actions),
    decreases actions.len(),
{
    if actions.len() == 0 {
        assert(apply_all(s, actions) == s);
        assert(enqueue_rollback_all(actions) =~= Seq::<Action>::empty());
    } else {
        let a = actions.first();
        let rest = actions.drop_first();
        lemma_tail_facts(s, actions);
        let s1 = apply_action(s, a);
        assert(apply_all(s, actions) == apply_all(s1, rest));
        lemma_apply_all_append(
            apply_all(s1, rest),
            enqueue_rollback(a),
            enqueue_rollback_all(rest),
        );
        if a is Delete || a is ChangeOwnerPermissions {
            assert(enqueue_rollback(a) =~= Seq::<Action>::empty());
            assert(apply_all(apply_all(s1, rest), enqueue_rollback(a)) == apply_all(s1, rest));
            lemma_step_wf(s, a);
            let p = cop_path_of_any(a);
            assert(footprint(a).contains(p));
            assert forall|q: Seq<char>| q != p implies agree_on(s1, s, q) by {
                lemma_apply_local(s, a, q);
            }
            lemma_list_facts_agree(s, s1, rest, p);
            lemma_enqueue_phase(s1, rest);
            assert(mid_state(s, actions) == mid_state(mid_step(s, a), rest));
            assert(mid_step(s, a) == s1);
        } else {
            let inverses = enqueue_rollback(a);
            assert(inverses.len() == 1);
            let e = inverses.first();
            lemma_enqueue_footprint(a);
            assert(footprint(e).subset_of(footprint(a)));
            assert forall|j: int| 0 <= j < rest.len() implies footprint(e).disjoint(
                footprint(#[trigger] rest[j]),
            ) by {
                assert(rest[j] == actions[j + 1]);
                assert(footprint(actions[0]).disjoint(footprint(actions[j + 1])));
            }
            let after_rest = apply_all(s1, rest);
            let step = apply_action(after_rest, e);
            assert(apply_all(step, inverses.drop_first()) == step);
            assert(apply_all(after_rest, inverses) == apply_all(step, inverses.drop_first()));
            lemma_action_commutes_with_list(s1, e, rest);
            assert(step == apply_all(apply_action(s1, e), rest));
            lemma_enqueue_inverts(s, a);
            assert(apply_all(apply_action(s1, e), inverses.drop_first()) == apply_action(s1, e));
            assert(apply_all(s1, inverses) == apply_all(
                apply_action(s1, e),
                inverses.drop_first(),
            ));
            assert(apply_action(s1, e) == s);
            assert(step == apply_all(s, rest));
            lemma_enqueue_phase(s, rest);
            assert(mid_state(s, actions) == mid_state(mid_step(s, a), rest));
            assert(mid_step(s, a) == s);
        }
    }
}

/// The single path a delete or an owner/permission change touches; the
/// first footprint element otherwise.
pub open spec fn cop_path_of_any(a: Action) -> Seq<char> {
    match a {
        Action::Delete { path } => path,
        Action::ChangeOwnerPermissions { path, .. } => path,
        _ => Seq::empty(),
    }
}

/// Capture completeness carries to the tail of the list.
proof fn lemma_captures_complete_tail(s: FsState, actions: Seq<Action>)
    requires
        actions.len() > 0,
        captures_complete(s, actions),
    ensures
        captures_complete(s, actions.drop_first()),
{
    let rest = actions.drop_first();
    assert forall|i: int| 0 <= i < rest.len() implies match #[trigger] rest[i] {
        Action::ChangeOwnerPermissions { path, user, group, .. } => {
            &&& (user is Some ==> s[path].user is Some)
            &&& (group is Some ==> s[path].group is Some)
        },
        _ => true,
    } by {
        assert(rest[i] == actions[i + 1]);
        assert(match actions[i + 1] {
            Action::ChangeOwnerPermissions { path, user, group, .. } => {
                &&& (user is Some ==> s[path].user is Some)
                &&& (group is Some ==> s[path].group is Some)
            },
            _ => true,
        });
    }
}

/// One step of the walk either adds the head's deleted path or leaves
/// the deleted set alone.
proof fn lemma_deleted_step(actions: Seq<Action>)
    requires
        actions.len() > 0,
    ensures
        actions.first() matches Action::Delete { path } ==> deleted_paths(actions)
            == deleted_paths(actions.drop_first()).insert(path),
        !(actions.first() is Delete) ==> deleted_paths(actions) == deleted_paths(
            actions.drop_first(),
        ),
{
    let rest = actions.drop_first();
    match actions.first() {
        Action::Delete { path } => {
            assert forall|p: Seq<char>|
                deleted_paths(actions).contains(p) implies deleted_paths(rest).insert(
                p,
            ).contains(p) by {}
            assert forall|p: Seq<char>| #[trigger]
                deleted_paths(rest).insert(path).contains(p) implies deleted_paths(
                actions,
            ).contains(p) by {
                if p == path {
                    assert(actions[0] == Action::Delete { path: p });
                } else {
                    assert(deleted_paths(rest).contains(p));
                    let i = choose|i: int|
                        0 <= i < rest.len() && rest[i] == Action::Delete { path: p };
                    assert(actions[i + 1] == Action::Delete { path: p });
                }
            }
            assert forall|p: Seq<char>| #[trigger]
                deleted_paths(actions).contains(p) implies deleted_paths(rest).contains(p) || p
                == path by {
                let i = choose|i: int|
                    0 <= i < actions.len() && actions[i] == Action::Delete { path: p };
                if i > 0 {
                    assert(rest[i - 1] == Action::Delete { path: p });
                }
            }
            assert(deleted_paths(actions) =~= deleted_paths(rest).insert(path));
        },
        _ => {
            assert forall|p: Seq<char>| #[trigger]
                deleted_paths(actions).contains(p) implies deleted_paths(rest).contains(p) by {
                let i = choose|i: int|
                    0 <= i < actions.len() && actions[i] == Action::Delete { path: p };
                assert(i > 0);
                assert(rest[i - 1] == Action::Delete { path: p });
            }
            assert forall|p: Seq<char>| #[trigger]
                deleted_paths(rest).contains(p) implies deleted_paths(actions).contains(p) by {
                let i = choose|i: int| 0 <= i < rest.len() && rest[i] == Action::Delete { path: p };
                assert(actions[i + 1] == Action::Delete { path: p });
            }
            assert(deleted_paths(actions) =~= deleted_paths(rest));
        },
    }
}

/// Removing one key first or together with the rest is the same.
proof fn lemma_remove_keys_insert(s: FsState, keys: Set<Seq<char>>, p: Seq<char>)
    ensures
        s.remove_keys(keys.insert(p)) == s.remove(p).remove_keys(keys),
{
    assert(s.remove_keys(keys.insert(p)) =~= s.remove(p).remove_keys(keys));
}

/// Replaying the captured owner/permission inverses after the
/// enqueue-time replay restores the original state except for the
/// explicitly deleted paths.
proof fn lemma_capture_phase(s: FsState, actions: Seq<Action>)
    requires
        wf_state(s),
        all_ok(s, actions),
        disjoint_footprints(actions),
        no_rollback_moves(actions),
        captures_complete(s, actions),
    ensures
        apply_all(mid_state(s, actions), cop_captures(s, actions)) == s.remove_keys(
            deleted_paths(actions),
        ),
    decreases actions.len(),
{
    if actions.len() == 0 {
        assert(cop_captures(s, actions) =~= Seq::<Action>::empty());
        assert(deleted_paths(actions) =~= Set::<Seq<char>>::empty());
        assert(s.remove_keys(deleted_paths(actions)) =~= s);
    } else {
        let a = actions.first();
        let rest = actions.drop_first();
        lemma_tail_facts(s, actions);
        lemma_captures_complete_tail(s, actions);
        lemma_deleted_step(actions);
        match a {
            Action::Delete { path } => {
                let pruned = s.remove(path);
                assert(mid_step(s, a) == pruned);
                assert(mid_state(s, actions) == mid_state(pruned, rest));
                assert(cop_captures(s, actions) == cop_captures(s, rest));
                assert forall|q: Seq<char>| q != path implies agree_on(pruned, s, q) by {}
                lemma_list_facts_agree(s, pruned, rest, path);
                lemma_step_wf(s, a);
                lemma_capture_phase(pruned, rest);
                assert(cop_captures(pruned, rest) == cop_captures(s, rest));
                lemma_remove_keys_insert(s, deleted_paths(rest), path);
            },
            Action::ChangeOwnerPermissions { path, user, group, permissions } => {
                let s1 = apply_action(s, a);
                assert(mid_step(s, a) == s1);
                assert(mid_state(s, actions) == mid_state(s1, rest));
                let m = mid_state(s1, rest);
                let n = mid_state(s, rest);
                let captures = cop_captures(s, actions);
                let inverse = inverse_cop(s, a);
                assert(captures == seq![inverse] + cop_captures(s, rest));
                lemma_apply_all_append(m, seq![inverse], cop_captures(s, rest));
                let once = apply_all(m, seq![inverse]);
                assert(seq![inverse].drop_first() =~= Seq::<Action>::empty());
                assert(apply_all(apply_action(m, inverse), seq![inverse].drop_first())
                    == apply_action(m, inverse));
                assert(once == apply_action(m, inverse));
                lemma_mid_local(s1, rest, path);
                assert(agree_on(m, s1, path));
                assert(s1.dom().contains(path));
                assert(m[path] == s1[path]);
                lemma_capture_inverts(s, m, a);
                assert(once == m.insert(path, s[path]));
                assert forall|q: Seq<char>| q != path implies agree_on(s1, s, q) by {
                    lemma_apply_local(s, a, q);
                }
                lemma_mid_congruent(s1, s, rest, path);
                lemma_mid_local(s, rest, path);
                assert forall|q: Seq<char>| agree_on(m.insert(path, s[path]), n, q) by {
                    if q == path {
                        assert(agree_on(n, s, path));
                    } else {
                        assert(agree_on(m, n, q));
                    }
                }
                lemma_state_eq(m.insert(path, s[path]), n);
                assert forall|q: Seq<char>| q != path implies agree_on(s, s1, q) by {
                    lemma_apply_local(s, a, q);
                }
                lemma_list_facts_agree(s, s1, rest, path);
                lemma_capture_phase(s, rest);
            },
            _ => {
                assert(mid_step(s, a) == s);
                assert(mid_state(s, actions) == mid_state(s, rest));
                assert(cop_captures(s, actions) == cop_captures(s, rest));
                lemma_capture_phase(s, rest);
            },
        }
    }
}

/// The rollback theorem: a commit whose actions all succeed and touch
/// pairwise disjoint paths is undone exactly by replaying its
/// synthesized rollback list — the enqueue-time inverses followed by
/// the owner/permission captures, in synthesis order. The pre-commit
/// state comes back in full, except for the paths removed by explicit
/// deletes, which are irreversible by contract. Owner and group names
/// that a change sets must be capturable (resolvable before the
/// commit), or not even the real system could restore them.
pub proof fn lemma_rollback_restores(s: FsState, actions: Seq<Action>)
    requires
        wf_state(s),
        all_ok(s, actions),
        disjoint_footprints(actions),
        no_rollback_moves(actions),
        captures_complete(s, actions),
    ensures
        apply_all(
            apply_all(s, actions),
            enqueue_rollback_all(actions) + cop_captures(s, actions),
        ) == s.remove_keys(deleted_paths(actions)),
{
    lemma_apply_all_append(
        apply_all(s, actions),
        enqueue_rollback_all(actions),
        cop_captures(s, actions),
    );
    lemma_enqueue_phase(s, actions);
    lemma_capture_phase(s, actions);
}

/// The bookkeeping step of the builders: enqueueing one action extends
/// the concatenated enqueue-time inverses by that action's own.
pub proof fn lemma_enqueue_rollback_all_push(actions: Seq<Action>, a: Action)
    ensures
        enqueue_rollback_all(actions.push(a)) == enqueue_rollback_all(actions) + enqueue_rollback(
            a,
        ),
    decreases actions.len(),
{
    if actions.len() == 0 {
        assert(actions.push(a).drop_first() =~= Seq::<Action>::empty());
        assert(actions.push(a).first() == a);
        assert(enqueue_rollback_all(actions.push(a).drop_first()) =~= Seq::<Action>::empty());
        assert(enqueue_rollback_all(actions.push(a)) =~= enqueue_rollback(a));
        assert(enqueue_rollback_all(actions) + enqueue_rollback(a) =~= enqueue_rollback(a));
    } else {
        assert(actions.push(a).first() == actions.first());
        assert(actions.push(a).drop_first() =~= actions.drop_first().push(a));
        lemma_enqueue_rollback_all_push(actions.drop_first(), a);
        assert(enqueue_rollback(actions.first()) + (enqueue_rollback_all(actions.drop_first())
            + enqueue_rollback(a)) =~= (enqueue_rollback(actions.first())
            + enqueue_rollback_all(actions.drop_first())) + enqueue_rollback(a));
    }
}

} // verus!
