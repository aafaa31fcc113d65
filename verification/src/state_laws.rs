use vstd::prelude::*;

use crate::project::{Project, ProjectView};
use crate::session::SessionView;
use crate::state::{
    orphan_view, orphans_added, other_than, project_has_worktree_named, reconciled, session_removed, session_submitted,
    AppState,
};

verus! {

proof fn lemma_filter_other_than_absent(s: Seq<u128>, id: u128)
    requires
        !s.contains(id),
    ensures
        s.filter(other_than(id)) == s,
    decreases s.len(),
{
    reveal_with_fuel(Seq::filter, 1);
    if s.len() > 0 {
        assert(!s.drop_last().contains(id)) by {
            if s.drop_last().contains(id) {
                let j = choose|j: int| 0 <= j < s.drop_last().len() && s.drop_last()[j] == id;
                assert(s[j] == id);
            }
        }
        lemma_filter_other_than_absent(s.drop_last(), id);
        assert(s.last() != id) by {
            assert(s[s.len() - 1] == s.last());
        }
        assert(s.drop_last().push(s.last()) =~= s);
    }
}

proof fn lemma_filter_other_than_drops(s: Seq<u128>, id: u128)
    ensures
        !s.filter(other_than(id)).contains(id),
    decreases s.len(),
{
    reveal_with_fuel(Seq::filter, 1);
    if s.len() > 0 {
        lemma_filter_other_than_drops(s.drop_last(), id);
        if s.last() != id {
            let f = s.drop_last().filter(other_than(id));
            assert(s.filter(other_than(id)) == f.push(s.last()));
            if f.push(s.last()).contains(id) {
                let j = choose|j: int| 0 <= j < f.push(s.last()).len() && f.push(s.last())[j] == id;
                if j < f.len() {
                    assert(f[j] == id);
                }
            }
        }
    }
}

/// A removed session is gone, and its project no longer lists it.
pub proof fn lemma_removed_session_is_gone(old: AppState, new: AppState, s: SessionView)
    requires
        session_removed(old, new, s),
    ensures
        !new.sessions@.contains_key(s.id),
        s.project_id is Some && new.projects@.contains_key(s.project_id->0) ==> !new.projects@[s.project_id->0]@.sessions.contains(s.id),
{
    if s.project_id is Some && new.projects@.contains_key(s.project_id->0) {
        lemma_filter_other_than_drops(old.projects@[s.project_id->0]@.sessions, s.id);
    }
}

/// Removing a session just submitted gives back the sessions and the project's list, when
/// the session was new and its project did not list it.
pub proof fn lemma_submit_then_remove(a: AppState, b: AppState, c: AppState, s: SessionView)
    requires
        !a.sessions@.contains_key(s.id),
        s.project_id is Some && a.projects@.contains_key(s.project_id->0) ==> !a.projects@[s.project_id->0]@.sessions.contains(s.id),
        session_submitted(a, b, s),
        session_removed(b, c, s),
    ensures
        c.sessions@ == a.sessions@,
        c.projects@.dom() == a.projects@.dom(),
        forall|k: u128| #[trigger] c.projects@.contains_key(k) ==> c.projects@[k]@ == a.projects@[k]@,
{
    assert(c.sessions@ =~= a.sessions@);
    assert forall|k: u128| #[trigger] c.projects@.contains_key(k) implies c.projects@[k]@ == a.projects@[k]@ by {
        if Some(k) == s.project_id {
            let old_list = a.projects@[k]@.sessions;
            lemma_filter_other_than_absent(old_list, s.id);
            reveal_with_fuel(Seq::filter, 1);
            assert(old_list.push(s.id).drop_last() =~= old_list);
            assert(old_list.push(s.id).filter(other_than(s.id)) == old_list.filter(other_than(s.id)));
        }
    }
}

/// After removing a project, no session belongs to it any more, and it is gone.
pub proof fn lemma_removed_project_has_no_sessions(old: AppState, new: AppState, pid: u128)
    requires
        new.projects@ == old.projects@.remove(pid),
        forall|k: u128| #[trigger] new.sessions@.contains_key(k) <==> (old.sessions@.contains_key(k)
            && !old.session_in_project(k, pid)),
        forall|k: u128| #[trigger] new.sessions@.contains_key(k) ==> new.sessions@[k] == old.sessions@[k],
    ensures
        !new.projects@.contains_key(pid),
        forall|k: u128| !new.session_in_project(k, pid),
{
}

/// Going through the running names: every name becomes known; every added session is
/// under one of `ids` with one of the names; and, when the ids differ from each other,
/// every name known at the end was known at the start or is the name of an added session.
pub proof fn lemma_orphans_added(known: Set<Seq<char>>, names: Seq<Seq<char>>, ids: Seq<u128>)
    requires
        ids.len() == names.len(),
    ensures
        ({
            let (added, kn) = orphans_added(known, names, ids);
            &&& forall|i: int| 0 <= i < names.len() ==> kn.contains(#[trigger] names[i])
            &&& forall|n: Seq<char>| known.contains(n) ==> kn.contains(n)
            &&& forall|k: u128| #[trigger] added.contains_key(k) ==> ids.contains(k)
            &&& ids.no_duplicates() ==> forall|n: Seq<char>| #[trigger] kn.contains(n) ==> (known.contains(n)
                || exists|k: u128| added.contains_key(k) && #[trigger] added[k] == n)
        }),
    decreases names.len(),
{
    if names.len() > 0 {
        let m = names.len() - 1;
        let ids0 = ids.take(m);
        lemma_orphans_added(known, names.drop_last(), ids0);
        let (added0, kn0) = orphans_added(known, names.drop_last(), ids0);
        let (added, kn) = orphans_added(known, names, ids);
        assert forall|i: int| 0 <= i < names.len() implies kn.contains(#[trigger] names[i]) by {
            if i < m {
                assert(names.drop_last()[i] == names[i]);
            }
        }
        assert forall|k: u128| #[trigger] added.contains_key(k) implies ids.contains(k) by {
            if added0.contains_key(k) {
                let j = choose|j: int| 0 <= j < ids0.len() && ids0[j] == k;
                assert(ids[j] == k);
            } else {
                assert(ids[m] == k);
            }
        }
        if ids.no_duplicates() {
            assert(ids0.no_duplicates());
            assert forall|n: Seq<char>| #[trigger] kn.contains(n) implies (known.contains(n)
                || exists|k: u128| added.contains_key(k) && #[trigger] added[k] == n) by {
                if !kn0.contains(names.last()) && n == names.last() {
                    assert(added[ids[m]] == n);
                } else if !known.contains(n) {
                    assert(kn0.contains(n));
                    let k = choose|k: u128| added0.contains_key(k) && #[trigger] added0[k] == n;
                    if !kn0.contains(names.last()) {
                        assert(ids0.contains(k));
                        let j = choose|j: int| 0 <= j < ids0.len() && ids0[j] == k;
                        assert(ids[j] == k);
                        assert(k != ids[m]);
                    }
                    assert(added.contains_key(k) && added[k] == n);
                }
            }
        }
    }
}

/// When every name is already known, going through the names adds nothing.
pub proof fn lemma_orphans_none_when_known(known: Set<Seq<char>>, names: Seq<Seq<char>>, ids: Seq<u128>)
    requires
        forall|i: int| 0 <= i < names.len() ==> known.contains(#[trigger] names[i]),
    ensures
        orphans_added(known, names, ids) == (Map::<u128, Seq<char>>::empty(), known),
    decreases names.len(),
{
    if names.len() > 0 {
        assert forall|i: int| 0 <= i < names.drop_last().len() implies known.contains(#[trigger] names.drop_last()[i]) by {
            assert(names.drop_last()[i] == names[i]);
        }
        lemma_orphans_none_when_known(known, names.drop_last(), ids.take(names.len() - 1));
        assert(known.contains(names[names.len() - 1]));
    }
}

/// After bringing the sessions in line with the running tmux sessions `names`, with new
/// ids that differ from each other and from the ids in use, every running session is one
/// that a session is known under.
pub proof fn lemma_reconcile_knows_every_running_session(a: AppState, b: AppState, names: Seq<Seq<char>>, ids: Seq<u128>)
    requires
        ids.len() == names.len(),
        ids.no_duplicates(),
        forall|i: int| 0 <= i < ids.len() ==> !a.sessions@.contains_key(#[trigger] ids[i]),
        reconciled(a, b, names, ids),
    ensures
        forall|i: int| 0 <= i < names.len() ==> b.known_tmux_names().contains(#[trigger] names[i]),
{
    lemma_orphans_added(a.known_tmux_names(), names, ids);
    let (added, kn) = orphans_added(a.known_tmux_names(), names, ids);
    assert forall|i: int| 0 <= i < names.len() implies b.known_tmux_names().contains(#[trigger] names[i]) by {
        let n = names[i];
        assert(kn.contains(n));
        if a.known_tmux_names().contains(n) {
            let k = choose|k: u128| #[trigger] a.sessions@.contains_key(k) && a.known_tmux_name(a.sessions@[k]) == Some(n);
            if added.contains_key(k) {
                assert(ids.contains(k));
                let j = choose|j: int| 0 <= j < ids.len() && ids[j] == k;
                assert(!a.sessions@.contains_key(ids[j]));
            }
            assert(names.contains(n));
            assert(a.keeps_session(a.sessions@[k], names));
            assert(b.sessions@.contains_key(k));
            assert(b.sessions@[k] == a.sessions@[k]);
            assert(b.known_tmux_name(b.sessions@[k]) == Some(n));
        } else {
            let k = choose|k: u128| added.contains_key(k) && #[trigger] added[k] == n;
            assert(b.sessions@.contains_key(k));
            assert(b.sessions@[k]@ == orphan_view(k, n));
            assert(b.known_tmux_name(b.sessions@[k]) == Some(n));
        }
    }
}

/// After bringing the sessions in line with the running tmux sessions `names`, every
/// session that has a project is known under a running name.
pub proof fn lemma_reconcile_keeps_only_running(a: AppState, b: AppState, names: Seq<Seq<char>>, ids: Seq<u128>)
    requires
        reconciled(a, b, names, ids),
    ensures
        forall|k: u128| #[trigger] b.sessions@.contains_key(k) && b.sessions@[k].project_id is Some ==> {
            &&& b.known_tmux_name(b.sessions@[k]) is Some
            &&& names.contains(b.known_tmux_name(b.sessions@[k])->0)
        },
{
    let (added, _) = orphans_added(a.known_tmux_names(), names, ids);
    assert forall|k: u128| #[trigger] b.sessions@.contains_key(k) && b.sessions@[k].project_id is Some implies {
        &&& b.known_tmux_name(b.sessions@[k]) is Some
        &&& names.contains(b.known_tmux_name(b.sessions@[k])->0)
    } by {
        if added.contains_key(k) {
            assert(b.sessions@[k]@ == orphan_view(k, added[k]));
        } else {
            assert(b.sessions@[k] == a.sessions@[k]);
        }
    }
}

/// Bringing the sessions in line with the same running tmux sessions a second time
/// changes nothing, when the first time used new ids that differ from each other and from
/// the ids in use.
pub proof fn lemma_reconcile_twice(a: AppState, b: AppState, c: AppState, names: Seq<Seq<char>>, ids1: Seq<u128>, ids2: Seq<u128>)
    requires
        ids1.len() == names.len(),
        ids1.no_duplicates(),
        forall|i: int| 0 <= i < ids1.len() ==> !a.sessions@.contains_key(#[trigger] ids1[i]),
        reconciled(a, b, names, ids1),
        reconciled(b, c, names, ids2),
    ensures
        c.sessions@ == b.sessions@,
        c.projects@ == b.projects@,
{
    lemma_reconcile_knows_every_running_session(a, b, names, ids1);
    lemma_reconcile_keeps_only_running(a, b, names, ids1);
    lemma_orphans_none_when_known(b.known_tmux_names(), names, ids2);
    assert forall|k: u128| #[trigger] b.sessions@.contains_key(k) implies b.keeps_session(b.sessions@[k], names) by {
        if b.sessions@[k].project_id is Some {
        }
    }
    assert(c.sessions@ =~= b.sessions@);
}

/// A project just inserted is what a session naming it finds.
pub proof fn lemma_inserted_project_found(a: AppState, b: AppState, p: Project)
    requires
        b.projects@ == a.projects@.insert(p.id, p),
    ensures
        b.project_for(Some(p.id)) == Ok::<Option<crate::project::ProjectView>, crate::state::AppError>(Some(p@)),
{
}


/// A project has a worktree on branch `name` exactly when one of the worktrees in its
/// list, at whatever position, is on that branch.
pub proof fn lemma_worktree_named_anywhere_in_list(p: ProjectView, name: Seq<char>, j: int)
    ensures
        0 <= j < p.worktrees.len() && p.worktrees[j].name == name ==> project_has_worktree_named(p, name),
        !project_has_worktree_named(p, name) ==> forall|k: int| 0 <= k < p.worktrees.len() ==> (#[trigger] p.worktrees[k]).name != name,
{
}

} // verus!
