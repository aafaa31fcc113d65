use std::collections::HashMap;
use vstd::prelude::*;
use vstd::std_specs::iter::IteratorSpec;

use crate::project::{Project, ProjectView};
use crate::session::{Session, SessionView};
use crate::tmux::{get_tmux_session_name, get_tmux_session_path, tmux_session_name, tmux_session_path};
use crate::worktree::{worktree_views, Worktree};

verus! {

broadcast use vstd::std_specs::hash::group_hash_axioms;

/// Why a request on the projects and sessions was refused.
#[derive(Clone, Copy, Debug, PartialEq, Eq, Structural)]
pub enum AppError {
    /// The session names a project that is not known.
    ProjectNotFound,
    /// The session is not known.
    SessionNotFound,
    /// The session has no directory to start in.
    NoPathForSession,
}

/// The projects and sessions, each keyed by its id.
pub struct AppState {
    pub projects: HashMap<u128, Project>,
    pub sessions: HashMap<u128, Session>,
}

/// The keys of `m`, each once.
pub fn keys_of<V>(m: &HashMap<u128, V>) -> (res: Vec<u128>)
    ensures
        res@.to_set() == m@.dom(),
        res@.no_duplicates(),
        forall|k: u128| res@.contains(k) <==> m@.contains_key(k),
{
    let mut res: Vec<u128> = Vec::new();
    let keys = m.keys();
    let ghost all = keys.remaining();
    for k in it: keys
        invariant
            it.seq() == all,
            all == vstd::std_specs::hash::spec_keys_iter(m).remaining(),
            res@ == it.seq().take(it.index() as int).map_values(|x: &u128| *x),
    {
        let ghost prev = res@;
        res.push(*k);
        assert(it.seq().take(it.index() + 1).map_values(|x: &u128| *x) =~= prev.push(*k));
    }
    assert(res@ =~= all.map_values(|x: &u128| *x));
    assert(all.map_values(|x: &u128| *x) =~= all.unref());
    assert forall|k: u128| res@.contains(k) <==> m@.contains_key(k) by {
        if res@.contains(k) {
            assert(res@.to_set().contains(k));
        }
        if m@.contains_key(k) {
            assert(res@.to_set().contains(k));
        }
    }
    res
}

impl AppState {
    /// Whether `pid` is the project of session `k`.
    pub open spec fn session_in_project(self, k: u128, pid: u128) -> bool {
        self.sessions@.contains_key(k) && self.sessions@[k].project_id == Some(pid)
    }

    /// The project of a session that names project `pid` (if any): none for no project, the
    /// project when it is known, an error otherwise.
    pub open spec fn project_for(self, pid: Option<u128>) -> Result<Option<ProjectView>, AppError> {
        match pid {
            None => Ok(None),
            Some(id) => if self.projects@.contains_key(id) {
                Ok(Some(self.projects@[id]@))
            } else {
                Err(AppError::ProjectNotFound)
            },
        }
    }

    /// No projects and no sessions.
    pub fn new() -> (res: AppState)
        ensures
            res.projects@ == Map::<u128, Project>::empty(),
            res.sessions@ == Map::<u128, Session>::empty(),
    {
        AppState { projects: HashMap::new(), sessions: HashMap::new() }
    }

    /// The project of `session`: none when it names no project, the project when it is
    /// known, and `ProjectNotFound` when it names an unknown project.
    pub fn get_session_project(&self, session: &Session) -> (res: Result<Option<&Project>, AppError>)
        ensures
            match session.project_id {
                None => res == Ok::<Option<&Project>, AppError>(None),
                Some(pid) => if self.projects@.contains_key(pid) {
                    res == Ok::<Option<&Project>, AppError>(Some(&self.projects@[pid]))
                } else {
                    res == Err::<Option<&Project>, AppError>(AppError::ProjectNotFound)
                },
            },
    {
        match session.project_id {
            None => Ok(None),
            Some(pid) => match self.projects.get(&pid) {
                Some(p) => Ok(Some(p)),
                None => Err(AppError::ProjectNotFound),
            },
        }
    }

    /// The keys of the sessions that belong to project `pid`, each once.
    pub fn project_session_keys(&self, pid: u128) -> (res: Vec<u128>)
        ensures
            res@.no_duplicates(),
            forall|k: u128| res@.contains(k) <==> self.session_in_project(k, pid),
    {
        let keys = keys_of(&self.sessions);
        let mut res: Vec<u128> = Vec::new();
        let mut i: usize = 0;
        while i < keys.len()
            invariant
                i <= keys.len(),
                keys@.no_duplicates(),
                forall|k: u128| keys@.contains(k) <==> self.sessions@.contains_key(k),
                res@.no_duplicates(),
                forall|k: u128|
                    res@.contains(k) <==> (keys@.take(i as int).contains(k) && self.session_in_project(k, pid)),
            decreases keys.len() - i,
        {
            let k = keys[i];
            let ghost t0 = keys@.take(i as int);
            let ghost t1 = keys@.take(i + 1);
            proof {
                assert(t1 =~= t0.push(k));
                assert(!t0.contains(k)) by {
                    if t0.contains(k) {
                        let j = choose|j: int| 0 <= j < i && #[trigger] t0[j] == k;
                        assert(keys@[j] == keys@[i as int]);
                    }
                }
            }
            assert(keys@.contains(k));
            match self.sessions.get(&k) {
                Some(s) => {
                    if s.project_id == Some(pid) {
                        let ghost prev = res@;
                        assert(!prev.contains(k));
                        res.push(k);
                        assert(res@ == prev.push(k));
                        assert(res@.no_duplicates()) by {
                            assert forall|a: int, b: int| 0 <= a < b < res@.len() implies res@[a] != res@[b] by {
                                if b == res@.len() - 1 {
                                    assert(prev[a] == res@[a]);
                                    assert(prev.contains(res@[a]));
                                } else {
                                    assert(prev[a] != prev[b]);
                                }
                            }
                        }
                        assert forall|x: u128| res@.contains(x) <==> (t1.contains(x) && self.session_in_project(x, pid)) by {
                            if x == k {
                                assert(res@[res@.len() - 1] == x);
                                assert(t1[i as int] == x);
                            } else {
                                if res@.contains(x) {
                                    let j = choose|j: int| 0 <= j < res@.len() && #[trigger] res@[j] == x;
                                    assert(prev[j] == x);
                                    assert(prev.contains(x));
                                    let jt = choose|jt: int| 0 <= jt < t0.len() && #[trigger] t0[jt] == x;
                                    assert(t1[jt] == x);
                                }
                                if t1.contains(x) && self.session_in_project(x, pid) {
                                    let j = choose|j: int| 0 <= j < i + 1 && #[trigger] t1[j] == x;
                                    assert(t0[j] == x);
                                    assert(t0.contains(x));
                                    assert(prev.contains(x));
                                    let jj = choose|jj: int| 0 <= jj < prev.len() && #[trigger] prev[jj] == x;
                                    assert(res@[jj] == x);
                                }
                            }
                        }
                    } else {
                        assert forall|x: u128| res@.contains(x) <==> (t1.contains(x) && self.session_in_project(x, pid)) by {
                            if x != k && t1.contains(x) {
                                let j = choose|j: int| 0 <= j < i + 1 && #[trigger] t1[j] == x;
                                assert(t0[j] == x);
                                assert(t0.contains(x));
                            }
                            if res@.contains(x) {
                                assert(t0.contains(x));
                                let jt = choose|jt: int| 0 <= jt < t0.len() && #[trigger] t0[jt] == x;
                                assert(t1[jt] == x);
                            }
                        }
                    }
                },
                None => {
                    assert(false);
                },
            }
            i = i + 1;
        }
        assert(keys@.take(keys.len() as int) =~= keys@);
        res
    }

    /// Adds `project`, or replaces the project with its id.
    pub fn insert_project(&mut self, project: Project)
        ensures
            final(self).projects@ == old(self).projects@.insert(project.id, project),
            final(self).sessions@ == old(self).sessions@,
    {
        self.projects.insert(project.id, project);
    }

    /// Replaces the worktrees of project `id`, if it is known.
    pub fn set_project_worktrees(&mut self, id: u128, worktrees: Vec<Worktree>)
        ensures
            final(self).sessions@ == old(self).sessions@,
            final(self).projects@.dom() == old(self).projects@.dom(),
            forall|k: u128| k != id && old(self).projects@.contains_key(k) ==> final(self).projects@[k] == old(self).projects@[k],
            old(self).projects@.contains_key(id) ==> final(self).projects@[id]@ == (ProjectView {
                worktrees: worktree_views(worktrees@),
                ..old(self).projects@[id]@
            }),
    {
        if let Some(mut p) = self.projects.remove(&id) {
            p.worktrees = worktrees;
            self.projects.insert(id, p);
            assert(self.projects@ =~= old(self).projects@.insert(id, self.projects@[id]));
        }
    }

    /// The tmux renames that giving project `project.id` the name of `project` takes: for
    /// each session of the project, from its name under the project's current name to its
    /// name under the new one; none when the name does not change. `ProjectNotFound` when
    /// the project is not known.
    pub fn plan_update_project(&self, project: &Project) -> (res: Result<Vec<(String, String)>, AppError>)
        ensures
            !self.projects@.contains_key(project.id) ==> res == Err::<Vec<(String, String)>, AppError>(AppError::ProjectNotFound),
            self.projects@.contains_key(project.id) ==> res is Ok && {
                let old_name = self.projects@[project.id].name@;
                let r = res->Ok_0@;
                if old_name == project.name@ {
                    r.len() == 0
                } else {
                    exists|ids: Seq<u128>| {
                        &&& ids.no_duplicates()
                        &&& ids.len() == r.len()
                        &&& (forall|k: u128| #[trigger] ids.contains(k) <==> self.session_in_project(k, project.id))
                        &&& forall|i: int| 0 <= i < r.len() ==> {
                            &&& (#[trigger] r[i]).0@ == tmux_session_name(self.sessions@[ids[i]].name@, Some(old_name))
                            &&& r[i].1@ == tmux_session_name(self.sessions@[ids[i]].name@, Some(project.name@))
                        }
                    }
                }
            },
    {
        let old_project = match self.projects.get(&project.id) {
            Some(p) => p,
            None => return Err(AppError::ProjectNotFound),
        };
        let mut renames: Vec<(String, String)> = Vec::new();
        if crate::text::str_eq(project.name.as_str(), old_project.name.as_str()) {
            return Ok(renames);
        }
        let ids = self.project_session_keys(project.id);
        let mut i: usize = 0;
        while i < ids.len()
            invariant
                i <= ids.len(),
                renames@.len() == i,
                self.projects@.contains_key(project.id),
                *old_project == self.projects@[project.id],
                forall|k: u128| ids@.contains(k) ==> self.sessions@.contains_key(k),
                forall|j: int| 0 <= j < i ==> {
                    &&& (#[trigger] renames@[j]).0@ == tmux_session_name(self.sessions@[ids@[j]].name@, Some(old_project.name@))
                    &&& renames@[j].1@ == tmux_session_name(self.sessions@[ids@[j]].name@, Some(project.name@))
                },
            decreases ids.len() - i,
        {
            assert(ids@.contains(ids@[i as int]));
            let s = match self.sessions.get(&ids[i]) {
                Some(s) => s,
                None => {
                    assert(false);
                    return Err(AppError::SessionNotFound);
                },
            };
            let from = get_tmux_session_name(s, Some(old_project));
            let to = get_tmux_session_name(s, Some(project));
            renames.push((from, to));
            i = i + 1;
        }
        Ok(renames)
    }

    /// The tmux sessions that removing `project` ends: for each session of the project, its
    /// name under `project`.
    pub fn plan_remove_project(&self, project: &Project) -> (res: Vec<String>)
        ensures
            exists|ids: Seq<u128>| {
                &&& ids.no_duplicates()
                &&& ids.len() == res@.len()
                &&& (forall|k: u128| #[trigger] ids.contains(k) <==> self.session_in_project(k, project.id))
                &&& forall|i: int| 0 <= i < res@.len() ==> (#[trigger] res@[i])@ == tmux_session_name(
                    self.sessions@[ids[i]].name@,
                    Some(project.name@),
                )
            },
    {
        let ids = self.project_session_keys(project.id);
        let mut names: Vec<String> = Vec::new();
        let mut i: usize = 0;
        while i < ids.len()
            invariant
                i <= ids.len(),
                names@.len() == i,
                forall|k: u128| ids@.contains(k) ==> self.sessions@.contains_key(k),
                forall|j: int| 0 <= j < i ==> (#[trigger] names@[j])@ == tmux_session_name(
                    self.sessions@[ids@[j]].name@,
                    Some(project.name@),
                ),
            decreases ids.len() - i,
        {
            assert(ids@.contains(ids@[i as int]));
            match self.sessions.get(&ids[i]) {
                Some(s) => {
                    names.push(get_tmux_session_name(s, Some(project)));
                },
                None => {
                    assert(false);
                },
            }
            i = i + 1;
        }
        names
    }

    /// Removes project `pid` and every session that belongs to it.
    pub fn remove_project(&mut self, pid: u128)
        ensures
            final(self).projects@ == old(self).projects@.remove(pid),
            forall|k: u128| #[trigger] final(self).sessions@.contains_key(k) <==> (old(self).sessions@.contains_key(k)
                && !old(self).session_in_project(k, pid)),
            forall|k: u128| #[trigger] final(self).sessions@.contains_key(k) ==> final(self).sessions@[k] == old(self).sessions@[k],
    {
        let ids = self.project_session_keys(pid);
        let ghost before = self.sessions@;
        let mut i: usize = 0;
        while i < ids.len()
            invariant
                i <= ids.len(),
                ids@.no_duplicates(),
                forall|k: u128| ids@.contains(k) <==> (before.contains_key(k) && before[k].project_id == Some(pid)),
                self.projects@ == old(self).projects@,
                forall|k: u128| #[trigger] self.sessions@.contains_key(k) <==> (before.contains_key(k)
                    && !ids@.take(i as int).contains(k)),
                forall|k: u128| #[trigger] self.sessions@.contains_key(k) ==> self.sessions@[k] == before[k],
            decreases ids.len() - i,
        {
            let k = ids[i];
            let ghost t0 = ids@.take(i as int);
            let ghost t1 = ids@.take(i + 1);
            assert(t1 =~= t0.push(k));
            self.sessions.remove(&k);
            assert forall|x: u128| #[trigger] self.sessions@.contains_key(x) <==> (before.contains_key(x) && !t1.contains(x)) by {
                if x != k && t1.contains(x) {
                    let j = choose|j: int| 0 <= j < t1.len() && #[trigger] t1[j] == x;
                    assert(t0[j] == x);
                }
                if t0.contains(x) {
                    let j = choose|j: int| 0 <= j < t0.len() && #[trigger] t0[j] == x;
                    assert(t1[j] == x);
                }
                if x == k {
                    assert(t1[i as int] == x);
                }
            }
            i = i + 1;
        }
        assert(ids@.take(ids.len() as int) =~= ids@);
        self.projects.remove(&pid);
    }

    /// What creating `session` takes: the worktree to add first when the session is made for
    /// a worktree its project does not have yet (the repository path, the branch name and
    /// the session's path), the tmux name, and the directory to start in (an error when it
    /// has none). `ProjectNotFound` when it names an unknown project.
    pub fn plan_submit_session(&self, session: &Session) -> (res: Result<SessionLaunch, AppError>)
        ensures
            match self.project_for(session.project_id) {
                Err(e) => res is Err && res->Err_0 == e,
                Ok(p) => res is Ok && {
                    let l = res->Ok_0;
                    &&& (l.create_worktree is Some) == (p is Some && session.path is Some
                        && session.worktree is Some && !project_has_worktree_named(
                        p->0,
                        session.worktree->0.name@,
                    ))
                    &&& (p is Some && session.worktree is Some && exists|j: int|
                        0 <= j < p->0.worktrees.len() && #[trigger] p->0.worktrees[j].name
                            == session.worktree->0.name@) ==> l.create_worktree is None
                    &&& l.create_worktree is Some ==> {
                        let (repo, branch, path) = l.create_worktree->0;
                        &&& repo@ == p->0.path
                        &&& branch@ == session.worktree->0.name@
                        &&& path@ == session.path->0@
                    }
                    &&& l.tmux_name@ == tmux_session_name(session.name@, project_name_of(p))
                    &&& match tmux_session_path(session@, p) {
                        Some(path) => l.tmux_path is Ok && l.tmux_path->Ok_0@ == path,
                        None => l.tmux_path == Err::<String, AppError>(AppError::NoPathForSession),
                    }
                }
            },
    {
        let project = match self.get_session_project(session) {
            Ok(p) => p,
            Err(e) => return Err(e),
        };
        let mut create_worktree: Option<(String, String, String)> = None;
        if let Some(p) = project {
            if let Some(path) = &session.path {
                if let Some(wt) = &session.worktree {
                    if !has_worktree_named(p, wt.name.as_str()) {
                        create_worktree = Some((p.path.clone(), wt.name.clone(), path.clone()));
                    }
                }
            }
        }
        let tmux_name = get_tmux_session_name(session, project);
        let tmux_path = match get_tmux_session_path(session, project) {
            Ok(path) => Ok(path),
            Err(_) => Err(AppError::NoPathForSession),
        };
        Ok(SessionLaunch { create_worktree, tmux_name, tmux_path })
    }

    /// Adds `session` (or replaces the session with its id) and lists it under its project
    /// when that project is known. Returns whether that project's worktrees should be read
    /// again: when the session was made for a worktree and the project has a path.
    pub fn submit_session(&mut self, session: Session) -> (refresh: bool)
        ensures
            session_submitted(*old(self), *final(self), session@),
            refresh == match session.project_id {
                Some(pid) => old(self).projects@.contains_key(pid) && session.worktree is Some
                    && old(self).projects@[pid].path@.len() > 0,
                None => false,
            },
    {
        let id = session.id;
        let project_id = session.project_id;
        let made_for_worktree = session.worktree.is_some();
        let ghost sv = session@;
        self.sessions.insert(id, session);
        let mut refresh = false;
        if let Some(pid) = project_id {
            if let Some(mut p) = self.projects.remove(&pid) {
                p.sessions.push(id);
                refresh = made_for_worktree && !p.path.as_str().is_empty();
                self.projects.insert(pid, p);
                assert(self.projects@ =~= old(self).projects@.insert(pid, self.projects@[pid]));
            }
        }
        assert(self.sessions@.dom() =~= old(self).sessions@.dom().insert(sv.id));
        assert(self.sessions@[sv.id]@ == sv);
        assert(forall|k: u128| k != sv.id && old(self).sessions@.contains_key(k) ==> self.sessions@[k] == old(self).sessions@[k]);
        assert(self.projects@.dom() =~= old(self).projects@.dom());
        refresh
    }

    /// The tmux rename that giving session `session.id` the name of `session` takes (from
    /// its current tmux name to the new one, both under its current project), or none when
    /// the name does not change. `SessionNotFound` when the session is not known.
    pub fn plan_update_session(&self, session: &Session) -> (res: Result<Option<(String, String)>, AppError>)
        ensures
            !self.sessions@.contains_key(session.id) ==> res == Err::<Option<(String, String)>, AppError>(AppError::SessionNotFound),
            self.sessions@.contains_key(session.id) ==> res is Ok && {
                let old = self.sessions@[session.id];
                let pname = match old.project_id {
                    Some(pid) => if self.projects@.contains_key(pid) {
                        Some(self.projects@[pid].name@)
                    } else {
                        None
                    },
                    None => None,
                };
                if old.name@ == session.name@ {
                    res->Ok_0 is None
                } else {
                    &&& res->Ok_0 is Some
                    &&& {
                        let (from, to) = res->Ok_0->0;
                        &&& from@ == tmux_session_name(old.name@, pname)
                        &&& to@ == tmux_session_name(session.name@, pname)
                    }
                }
            },
    {
        let old_session = match self.sessions.get(&session.id) {
            Some(s) => s,
            None => return Err(AppError::SessionNotFound),
        };
        let old_project: Option<&Project> = match old_session.project_id {
            Some(pid) => self.projects.get(&pid),
            None => None,
        };
        if crate::text::str_eq(old_session.name.as_str(), session.name.as_str()) {
            return Ok(None);
        }
        let from = get_tmux_session_name(old_session, old_project);
        let to = get_tmux_session_name(session, old_project);
        Ok(Some((from, to)))
    }

    /// Replaces the session with the id of `session`, or adds it.
    pub fn update_session(&mut self, session: Session)
        ensures
            final(self).sessions@ == old(self).sessions@.insert(session.id, session),
            final(self).projects@ == old(self).projects@,
    {
        self.sessions.insert(session.id, session);
    }

    /// The tmux name of `session` under its project, to attach to it or end it.
    /// `ProjectNotFound` when it names an unknown project.
    pub fn plan_session_target(&self, session: &Session) -> (res: Result<String, AppError>)
        ensures
            match self.project_for(session.project_id) {
                Err(e) => res == Err::<String, AppError>(e),
                Ok(p) => res is Ok && res->Ok_0@ == tmux_session_name(session.name@, project_name_of(p)),
            },
    {
        match self.get_session_project(session) {
            Ok(p) => Ok(get_tmux_session_name(session, p)),
            Err(e) => Err(e),
        }
    }

    /// Removes session `session.id`, and takes it off its project's list when that project
    /// is known.
    pub fn remove_session(&mut self, session: &Session)
        ensures
            session_removed(*old(self), *final(self), session@),
    {
        self.sessions.remove(&session.id);
        if let Some(pid) = session.project_id {
            if let Some(mut p) = self.projects.remove(&pid) {
                let kept = without_id(&p.sessions, session.id);
                p.sessions = kept;
                self.projects.insert(pid, p);
                assert(self.projects@ =~= old(self).projects@.insert(pid, self.projects@[pid]));
            }
        }
        assert(self.projects@.dom() =~= old(self).projects@.dom());
    }
}

/// `new` is `old` with session `s` added (or replacing the session with its id) and listed
/// last under its project when that project is known.
pub open spec fn session_submitted(old: AppState, new: AppState, s: SessionView) -> bool {
    &&& new.sessions@.dom() == old.sessions@.dom().insert(s.id)
    &&& new.sessions@[s.id]@ == s
    &&& forall|k: u128| k != s.id && old.sessions@.contains_key(k) ==> new.sessions@[k] == old.sessions@[k]
    &&& new.projects@.dom() == old.projects@.dom()
    &&& forall|k: u128| Some(k) != s.project_id && old.projects@.contains_key(k) ==> new.projects@[k] == old.projects@[k]
    &&& match s.project_id {
        Some(pid) => old.projects@.contains_key(pid) ==> new.projects@[pid]@ == (ProjectView {
            sessions: old.projects@[pid]@.sessions.push(s.id),
            ..old.projects@[pid]@
        }),
        None => true,
    }
}

/// `new` is `old` without session `s.id`, which is also taken off its project's list when
/// that project is known.
/// Keeps every id but `id`.
pub open spec fn other_than(id: u128) -> spec_fn(u128) -> bool {
    |x: u128| x != id
}

pub open spec fn session_removed(old: AppState, new: AppState, s: SessionView) -> bool {
    &&& new.sessions@ == old.sessions@.remove(s.id)
    &&& new.projects@.dom() == old.projects@.dom()
    &&& forall|k: u128| Some(k) != s.project_id && old.projects@.contains_key(k) ==> new.projects@[k] == old.projects@[k]
    &&& match s.project_id {
        Some(pid) => old.projects@.contains_key(pid) ==> new.projects@[pid]@ == (ProjectView {
            sessions: old.projects@[pid]@.sessions.filter(other_than(s.id)),
            ..old.projects@[pid]@
        }),
        None => true,
    }
}

/// What creating a session takes (see `AppState::plan_submit_session`).
pub struct SessionLaunch {
    /// The worktree to add first: repository path, branch name, worktree path.
    pub create_worktree: Option<(String, String, String)>,
    /// The tmux name of the session.
    pub tmux_name: String,
    /// The directory the session starts in.
    pub tmux_path: Result<String, AppError>,
}

pub open spec fn project_name_of(p: Option<ProjectView>) -> Option<Seq<char>> {
    match p {
        Some(x) => Some(x.name),
        None => None,
    }
}

/// Whether project `p` has a worktree on branch `name`.
pub open spec fn project_has_worktree_named(p: ProjectView, name: Seq<char>) -> bool {
    exists|j: int| 0 <= j < p.worktrees.len() && #[trigger] p.worktrees[j].name == name
}

/// Whether project `p` has a worktree on branch `name`.
pub fn has_worktree_named(p: &Project, name: &str) -> (res: bool)
    ensures
        res == project_has_worktree_named(p@, name@),
{
    let mut j: usize = 0;
    while j < p.worktrees.len()
        invariant
            j <= p.worktrees.len(),
            forall|i: int| 0 <= i < j ==> p@.worktrees[i].name != name@,
        decreases p.worktrees.len() - j,
    {
        if crate::text::str_eq(p.worktrees[j].name.as_str(), name) {
            assert(p@.worktrees[j as int].name == name@);
            return true;
        }
        j = j + 1;
    }
    false
}

/// `ids` without `id`, in order.
pub fn without_id(ids: &Vec<u128>, id: u128) -> (res: Vec<u128>)
    ensures
        res@ == ids@.filter(other_than(id)),
{
    let mut res: Vec<u128> = Vec::new();
    let mut i: usize = 0;
    while i < ids.len()
        invariant
            i <= ids.len(),
            res@ == ids@.take(i as int).filter(other_than(id)),
        decreases ids.len() - i,
    {
        proof {
            reveal_with_fuel(Seq::filter, 1);
            assert(ids@.take(i + 1).drop_last() =~= ids@.take(i as int));
        }
        if ids[i] != id {
            res.push(ids[i]);
        }
        i = i + 1;
    }
    assert(ids@.take(ids.len() as int) =~= ids@);
    res
}

/// The session that stands for a tmux session found running without one: no project, no
/// path, no worktree.
pub open spec fn orphan_view(id: u128, name: Seq<char>) -> SessionView {
    SessionView { id, project_id: None, name, path: None, worktree: None }
}

/// Going through the running tmux session `names` in order, each paired with the id in
/// `ids` at its position: the sessions added (id to name) and the names known so far,
/// starting from `known`. A name not yet known is added under its id and becomes known.
pub open spec fn orphans_added(known: Set<Seq<char>>, names: Seq<Seq<char>>, ids: Seq<u128>) -> (Map<u128, Seq<char>>, Set<Seq<char>>)
    decreases names.len(),
{
    if names.len() == 0 {
        (Map::empty(), known)
    } else {
        let (added, kn) = orphans_added(known, names.drop_last(), ids.take(names.len() - 1));
        let n = names.last();
        if kn.contains(n) {
            (added, kn)
        } else {
            (added.insert(ids[names.len() - 1], n), kn.insert(n))
        }
    }
}

/// `new` is `old` brought in line with the running tmux sessions `names`, the session added
/// for `names[i]` (if any) taking id `ids[i]`: the projects are unchanged; the sessions are
/// those of `old` that stay (see `keeps_session`) together with the added ones (see
/// `orphans_added`), an added one replacing a kept one with its id.
pub open spec fn reconciled(old: AppState, new: AppState, names: Seq<Seq<char>>, ids: Seq<u128>) -> bool {
    let (added, _) = orphans_added(old.known_tmux_names(), names, ids);
    &&& new.projects@ == old.projects@
    &&& forall|k: u128| #[trigger] new.sessions@.contains_key(k) <==> (added.contains_key(k)
        || (old.sessions@.contains_key(k) && old.keeps_session(old.sessions@[k], names)))
    &&& forall|k: u128| #[trigger] added.contains_key(k) ==> new.sessions@[k]@ == orphan_view(k, added[k])
    &&& forall|k: u128| #[trigger] new.sessions@.contains_key(k) && !added.contains_key(k) ==> new.sessions@[k] == old.sessions@[k]
}

impl AppState {
    /// The tmux name session `s` is known under: its own name without a project, its name
    /// under its project when that project is known, none otherwise.
    pub open spec fn known_tmux_name(self, s: Session) -> Option<Seq<char>> {
        match s.project_id {
            None => Some(s.name@),
            Some(pid) => if self.projects@.contains_key(pid) {
                Some(tmux_session_name(s.name@, Some(self.projects@[pid].name@)))
            } else {
                None
            },
        }
    }

    /// The tmux names of all sessions that are known under one.
    pub open spec fn known_tmux_names(self) -> Set<Seq<char>> {
        Set::new(|n: Seq<char>| exists|k: u128| #[trigger] self.sessions@.contains_key(k) && self.known_tmux_name(self.sessions@[k]) == Some(n))
    }

    /// Whether session `s` stays when the running tmux sessions are `active`: a session
    /// without a project always stays; one with a project stays when it is known under a
    /// name that is running.
    pub open spec fn keeps_session(self, s: Session, active: Seq<Seq<char>>) -> bool {
        s.project_id is None || (self.known_tmux_name(s) is Some && active.contains(self.known_tmux_name(s)->0))
    }

    /// The tmux name session `s` is known under (see `known_tmux_name`).
    pub fn session_tmux_name(&self, s: &Session) -> (res: Option<String>)
        ensures
            match res {
                Some(n) => self.known_tmux_name(*s) == Some(n@),
                None => self.known_tmux_name(*s) is None,
            },
    {
        match s.project_id {
            None => Some(s.name.clone()),
            Some(pid) => match self.projects.get(&pid) {
                Some(p) => Some(get_tmux_session_name(s, Some(p))),
                None => None,
            },
        }
    }

    /// Brings the sessions in line with the running tmux sessions `active`: a session with
    /// a project that is not running (or whose project is unknown) is dropped, and each
    /// running session that no session is known under is added as a session without a
    /// project, under the id in `ids` at its position.
    pub fn reconcile_sessions(&mut self, active: &Vec<String>, ids: &Vec<u128>)
        requires
            ids@.len() == active@.len(),
        ensures
            reconciled(*old(self), *final(self), crate::text::views_of(active@), ids@),
    {
        let ghost names = crate::text::views_of(active@);
        let ghost orig = *self;
        let keys = keys_of(&self.sessions);
        // The names the sessions are known under.
        let mut known: Vec<String> = Vec::new();
        let mut i: usize = 0;
        while i < keys.len()
            invariant
                *self == orig,
                i <= keys.len(),
                forall|k: u128| keys@.contains(k) <==> self.sessions@.contains_key(k),
                forall|n: Seq<char>| #[trigger] crate::text::views_of(known@).contains(n) <==> exists|j: int|
                    0 <= j < i && self.known_tmux_name(self.sessions@[keys@[j]]) == Some(n),
            decreases keys.len() - i,
        {
            assert(keys@.contains(keys@[i as int]));
            let ghost prev = crate::text::views_of(known@);
            match self.sessions.get(&keys[i]) {
                Some(s) => {
                    match self.session_tmux_name(s) {
                        Some(n) => {
                            known.push(n);
                            assert(crate::text::views_of(known@) =~= prev.push(n@));
                        },
                        None => {},
                    }
                },
                None => {
                    assert(false);
                },
            }
            assert forall|n: Seq<char>| #[trigger] crate::text::views_of(known@).contains(n) <==> exists|j: int|
                0 <= j < i + 1 && self.known_tmux_name(self.sessions@[keys@[j]]) == Some(n) by {
                if crate::text::views_of(known@).contains(n) && !prev.contains(n) {
                    assert(self.known_tmux_name(self.sessions@[keys@[i as int]]) == Some(n));
                }
                if prev.contains(n) {
                    let x = choose|x: int| 0 <= x < prev.len() && prev[x] == n;
                    assert(crate::text::views_of(known@)[x] == n);
                }
                if exists|j: int| 0 <= j < i + 1 && self.known_tmux_name(self.sessions@[keys@[j]]) == Some(n) {
                    let j = choose|j: int| 0 <= j < i + 1 && self.known_tmux_name(self.sessions@[keys@[j]]) == Some(n);
                    if j == i {
                        assert(crate::text::views_of(known@)[crate::text::views_of(known@).len() - 1] == n);
                    }
                }
            }
            i = i + 1;
        }
        assert(crate::text::views_of(known@).to_set() =~= orig.known_tmux_names()) by {
            assert forall|n: Seq<char>| crate::text::views_of(known@).to_set().contains(n) <==> orig.known_tmux_names().contains(n) by {
                if orig.known_tmux_names().contains(n) {
                    let k = choose|k: u128| #[trigger] orig.sessions@.contains_key(k) && orig.known_tmux_name(orig.sessions@[k]) == Some(n);
                    assert(keys@.contains(k));
                    let j = choose|j: int| 0 <= j < keys@.len() && keys@[j] == k;
                    assert(crate::text::views_of(known@).contains(n));
                }
                if crate::text::views_of(known@).contains(n) {
                    let j = choose|j: int| 0 <= j < keys@.len() && self.known_tmux_name(self.sessions@[keys@[j]]) == Some(n);
                    assert(keys@.contains(keys@[j]));
                    assert(orig.sessions@.contains_key(keys@[j]));
                }
            }
        }
        // Drop the sessions that do not stay.
        let mut i: usize = 0;
        while i < keys.len()
            invariant
                i <= keys.len(),
                keys@.no_duplicates(),
                names == crate::text::views_of(active@),
                forall|k: u128| keys@.contains(k) <==> orig.sessions@.contains_key(k),
                self.projects@ == orig.projects@,
                forall|k: u128| #[trigger] self.sessions@.contains_key(k) <==> (orig.sessions@.contains_key(k)
                    && (!keys@.take(i as int).contains(k) || orig.keeps_session(orig.sessions@[k], names))),
                forall|k: u128| #[trigger] self.sessions@.contains_key(k) ==> self.sessions@[k] == orig.sessions@[k],
            decreases keys.len() - i,
        {
            let k = keys[i];
            let ghost t0 = keys@.take(i as int);
            let ghost t1 = keys@.take(i + 1);
            assert(t1 =~= t0.push(k));
            assert(keys@.contains(k));
            assert(!t0.contains(k)) by {
                if t0.contains(k) {
                    let j = choose|j: int| 0 <= j < t0.len() && #[trigger] t0[j] == k;
                    assert(keys@[j] == keys@[i as int]);
                }
            }
            assert(self.sessions@.contains_key(k));
            let keep = match self.sessions.get(&k) {
                Some(s) => {
                    assert(*s == orig.sessions@[k]);
                    assert(self.known_tmux_name(*s) == orig.known_tmux_name(*s));
                    if s.project_id.is_none() {
                        true
                    } else {
                        match self.session_tmux_name(s) {
                            Some(n) => contains_name(active, n.as_str()),
                            None => false,
                        }
                    }
                },
                None => {
                    assert(false);
                    true
                },
            };
            assert(keep == orig.keeps_session(orig.sessions@[k], names));
            if !keep {
                self.sessions.remove(&k);
            }
            assert forall|x: u128| #[trigger] self.sessions@.contains_key(x) <==> (orig.sessions@.contains_key(x)
                && (!t1.contains(x) || orig.keeps_session(orig.sessions@[x], names))) by {
                if x != k && t1.contains(x) {
                    let j = choose|j: int| 0 <= j < t1.len() && #[trigger] t1[j] == x;
                    assert(t0[j] == x);
                }
                if t0.contains(x) {
                    let j = choose|j: int| 0 <= j < t0.len() && #[trigger] t0[j] == x;
                    assert(t1[j] == x);
                }
                if x == k {
                    assert(t1[i as int] == x);
                }
            }
            i = i + 1;
        }
        assert(keys@.take(keys.len() as int) =~= keys@);
        // Add the running sessions nothing is known under.
        let ghost kept = self.sessions@;
        let mut j: usize = 0;
        while j < active.len()
            invariant
                j <= active.len(),
                ids@.len() == active@.len(),
                names == crate::text::views_of(active@),
                self.projects@ == orig.projects@,
                ({
                    let (added, kn) = orphans_added(orig.known_tmux_names(), names.take(j as int), ids@.take(j as int));
                    &&& crate::text::views_of(known@).to_set() == kn
                    &&& forall|k: u128| #[trigger] self.sessions@.contains_key(k) <==> (added.contains_key(k) || kept.contains_key(k))
                    &&& forall|k: u128| #[trigger] added.contains_key(k) ==> self.sessions@[k]@ == orphan_view(k, added[k])
                    &&& forall|k: u128| #[trigger] self.sessions@.contains_key(k) && !added.contains_key(k) ==> self.sessions@[k] == kept[k]
                }),
            decreases active.len() - j,
        {
            proof {
                assert(names.take(j + 1).drop_last() =~= names.take(j as int));
                assert(ids@.take(j + 1).take(j as int) =~= ids@.take(j as int));
                assert(names.take(j + 1).last() == active@[j as int]@);
            }
            if !contains_name(&known, active[j].as_str()) {
                let name = active[j].clone();
                let session = Session { id: ids[j], project_id: None, name, path: None, worktree: None };
                self.sessions.insert(ids[j], session);
                let ghost prev = crate::text::views_of(known@);
                known.push(active[j].clone());
                assert(crate::text::views_of(known@) =~= prev.push(active@[j as int]@));
                proof {
                    prev.lemma_push_to_set_commute(active@[j as int]@);
                }
            }
            j = j + 1;
        }
        assert(names.take(active.len() as int) =~= names);
        assert(ids@.take(active.len() as int) =~= ids@);
    }

    /// Brings the sessions in line with the running tmux sessions `active` (see
    /// `reconcile_sessions`), each added session under a new random id.
    pub fn reconcile_with_tmux(&mut self, active: &Vec<String>)
        ensures
            exists|ids: Seq<u128>| ids.len() == active@.len() && #[trigger] reconciled(*old(self), *final(self), crate::text::views_of(active@), ids),
    {
        let mut ids: Vec<u128> = Vec::new();
        let mut i: usize = 0;
        while i < active.len()
            invariant
                i <= active.len(),
                ids@.len() == i,
            decreases active.len() - i,
        {
            ids.push(crate::ids::fresh_id());
            i = i + 1;
        }
        self.reconcile_sessions(active, &ids);
    }
}

/// Whether one of `names` reads `name`.
pub fn contains_name(names: &Vec<String>, name: &str) -> (res: bool)
    ensures
        res == crate::text::views_of(names@).contains(name@),
{
    let mut i: usize = 0;
    while i < names.len()
        invariant
            i <= names.len(),
            forall|j: int| 0 <= j < i ==> names@[j]@ != name@,
        decreases names.len() - i,
    {
        if crate::text::str_eq(names[i].as_str(), name) {
            assert(crate::text::views_of(names@)[i as int] == name@);
            return true;
        }
        i = i + 1;
    }
    assert forall|j: int| 0 <= j < names@.len() implies crate::text::views_of(names@)[j] != name@ by {
        assert(names@[j]@ != name@);
    }
    false
}

impl AppState {
    /// The projects whose worktrees can be read: each project with a non-empty path, with
    /// that path.
    pub fn projects_with_paths(&self) -> (res: Vec<(u128, String)>)
        ensures
            forall|i: int| 0 <= i < res@.len() ==> {
                let (k, path) = #[trigger] res@[i];
                &&& self.projects@.contains_key(k)
                &&& path@ == self.projects@[k].path@
                &&& path@.len() > 0
            },
            forall|k: u128| self.projects@.contains_key(k) && self.projects@[k].path@.len() > 0 ==> exists|i: int|
                0 <= i < res@.len() && (#[trigger] res@[i]).0 == k,
    {
        let keys = keys_of(&self.projects);
        let mut res: Vec<(u128, String)> = Vec::new();
        let mut i: usize = 0;
        while i < keys.len()
            invariant
                i <= keys.len(),
                forall|k: u128| keys@.contains(k) <==> self.projects@.contains_key(k),
                forall|j: int| 0 <= j < res@.len() ==> {
                    let (k, path) = #[trigger] res@[j];
                    &&& self.projects@.contains_key(k)
                    &&& path@ == self.projects@[k].path@
                    &&& path@.len() > 0
                },
                forall|j: int| 0 <= j < i && self.projects@[keys@[j]].path@.len() > 0 ==> exists|x: int|
                    0 <= x < res@.len() && (#[trigger] res@[x]).0 == keys@[j],
            decreases keys.len() - i,
        {
            let k = keys[i];
            assert(keys@.contains(k));
            match self.projects.get(&k) {
                Some(p) => {
                    if !p.path.as_str().is_empty() {
                        let ghost prev = res@;
                        res.push((k, p.path.clone()));
                        assert forall|j: int| 0 <= j < i + 1 && self.projects@[keys@[j]].path@.len() > 0 implies exists|x: int|
                            0 <= x < res@.len() && (#[trigger] res@[x]).0 == keys@[j] by {
                            if j < i {
                                let x = choose|x: int| 0 <= x < prev.len() && (#[trigger] prev[x]).0 == keys@[j];
                                assert(res@[x] == prev[x]);
                            } else {
                                assert(res@[res@.len() - 1].0 == keys@[j]);
                            }
                        }
                    }
                },
                None => {
                    assert(false);
                },
            }
            i = i + 1;
        }
        assert forall|k: u128| self.projects@.contains_key(k) && self.projects@[k].path@.len() > 0 implies exists|i: int|
            0 <= i < res@.len() && (#[trigger] res@[i]).0 == k by {
            assert(keys@.contains(k));
            let j = choose|j: int| 0 <= j < keys@.len() && keys@[j] == k;
        }
        res
    }
}


/// The renames that undo `done`, in the same order: each from its new name back to its old.
pub fn rollback_of(done: &Vec<(String, String)>) -> (res: Vec<(String, String)>)
    ensures
        res@.len() == done@.len(),
        forall|i: int| 0 <= i < res@.len() ==> (#[trigger] res@[i]).0@ == done@[i].1@ && res@[i].1@ == done@[i].0@,
{
    let mut res: Vec<(String, String)> = Vec::new();
    let mut i: usize = 0;
    while i < done.len()
        invariant
            i <= done.len(),
            res@.len() == i,
            forall|j: int| 0 <= j < i ==> (#[trigger] res@[j]).0@ == done@[j].1@ && res@[j].1@ == done@[j].0@,
        decreases done.len() - i,
    {
        res.push((done[i].1.clone(), done[i].0.clone()));
        i = i + 1;
    }
    res
}

/// Whether the worktrees of `project` are to be read: only when it has a path.
pub fn should_fetch_worktrees(project: &Project) -> (res: bool)
    ensures
        res == (project.path@.len() > 0),
{
    !project.path.as_str().is_empty()
}

} // verus!
