use std::collections::HashMap;
use vstd::prelude::*;
use vstd::string::*;

use crate::order::{keys_in, name_le, names_of, sort_by_name};
use crate::project::{Project, ProjectView};
use crate::session::{Session, SessionView};
use crate::state::{contains_name, keys_of};
use crate::text::views_of;
use crate::worktree::{Worktree, WorktreeView};

verus! {

broadcast use vstd::std_specs::hash::group_hash_axioms;

/// A line of the home list: a project, a session listed under its project, a worktree of
/// a project that no session uses, or a session without a project.
pub enum ListEntry {
    Project(Project),
    ProjectSession(Project, Session),
    AvailableWorktree(Project, Worktree),
    Session(Session),
}

/// The content of a line of the home list.
pub enum ListEntryView {
    Project(ProjectView),
    ProjectSession(ProjectView, SessionView),
    AvailableWorktree(ProjectView, WorktreeView),
    Session(SessionView),
}

impl View for ListEntry {
    type V = ListEntryView;

    open spec fn view(&self) -> ListEntryView {
        match self {
            ListEntry::Project(p) => ListEntryView::Project(p@),
            ListEntry::ProjectSession(p, s) => ListEntryView::ProjectSession(p@, s@),
            ListEntry::AvailableWorktree(p, w) => ListEntryView::AvailableWorktree(p@, w@),
            ListEntry::Session(s) => ListEntryView::Session(s@),
        }
    }
}

impl Clone for ListEntry {
    fn clone(&self) -> (res: Self)
        ensures
            res@ == self@,
    {
        match self {
            ListEntry::Project(p) => ListEntry::Project(p.clone()),
            ListEntry::ProjectSession(p, s) => ListEntry::ProjectSession(p.clone(), s.clone()),
            ListEntry::AvailableWorktree(p, w) => ListEntry::AvailableWorktree(p.clone(), w.clone()),
            ListEntry::Session(s) => ListEntry::Session(s.clone()),
        }
    }
}

pub open spec fn entry_views(v: Seq<ListEntry>) -> Seq<ListEntryView> {
    v.map_values(|e: ListEntry| e@)
}

/// The paths some session was asked to start in.
pub open spec fn active_paths(sessions: Map<u128, Session>) -> Set<Seq<char>> {
    Set::new(|path: Seq<char>| exists|k: u128| #[trigger] sessions.contains_key(k) && sessions[k]@.path == Some(path))
}

/// The lines for the sessions `ids` of project `p`, in order, leaving out unknown ids.
pub open spec fn session_lines(p: ProjectView, ids: Seq<u128>, sessions: Map<u128, Session>) -> Seq<ListEntryView>
    decreases ids.len(),
{
    if ids.len() == 0 {
        seq![]
    } else {
        let rest = session_lines(p, ids.drop_last(), sessions);
        if sessions.contains_key(ids.last()) {
            rest.push(ListEntryView::ProjectSession(p, sessions[ids.last()]@))
        } else {
            rest
        }
    }
}

/// The lines for the worktrees `ws` of project `p`, in order, leaving out those at a path
/// in `active`.
pub open spec fn worktree_lines(p: ProjectView, ws: Seq<WorktreeView>, active: Set<Seq<char>>) -> Seq<ListEntryView>
    decreases ws.len(),
{
    if ws.len() == 0 {
        seq![]
    } else {
        let rest = worktree_lines(p, ws.drop_last(), active);
        if !active.contains(ws.last().path) {
            rest.push(ListEntryView::AvailableWorktree(p, ws.last()))
        } else {
            rest
        }
    }
}

/// The lines of project `p`: the project, its sessions, then its worktrees not in use.
pub open spec fn project_lines(p: ProjectView, sessions: Map<u128, Session>) -> Seq<ListEntryView> {
    seq![ListEntryView::Project(p)] + session_lines(p, p.sessions, sessions) + worktree_lines(
        p,
        p.worktrees,
        active_paths(sessions),
    )
}

/// The lines of the projects with keys `order`, in that order.
pub open spec fn projects_lines(order: Seq<u128>, projects: Map<u128, Project>, sessions: Map<u128, Session>) -> Seq<ListEntryView>
    decreases order.len(),
{
    if order.len() == 0 {
        seq![]
    } else {
        projects_lines(order.drop_last(), projects, sessions) + project_lines(projects[order.last()]@, sessions)
    }
}

/// `order` lists each key of `m` for which `keep` holds, once, with names (given by
/// `name`) in order.
pub open spec fn ordered_keys<V>(order: Seq<u128>, m: Map<u128, V>, keep: spec_fn(V) -> bool, name: spec_fn(V) -> Seq<char>) -> bool {
    &&& order.no_duplicates()
    &&& forall|k: u128| #[trigger] order.contains(k) <==> (m.contains_key(k) && keep(m[k]))
    &&& forall|i: int, j: int| 0 <= i < j < order.len() ==> name_le(name(m[#[trigger] order[i]]), name(m[#[trigger] order[j]]))
}

pub open spec fn any_project() -> spec_fn(Project) -> bool {
    |p: Project| true
}

pub open spec fn project_name() -> spec_fn(Project) -> Seq<char> {
    |p: Project| p.name@
}

pub open spec fn without_project() -> spec_fn(Session) -> bool {
    |s: Session| s.project_id is None
}

pub open spec fn session_name() -> spec_fn(Session) -> Seq<char> {
    |s: Session| s.name@
}

/// `lines` is the home list for `projects` and `sessions`: the projects ordered by name,
/// each followed by its sessions and its worktrees not in use, then the sessions without a
/// project ordered by name.
pub open spec fn home_list(projects: Map<u128, Project>, sessions: Map<u128, Session>, lines: Seq<ListEntryView>) -> bool {
    exists|pk: Seq<u128>, sk: Seq<u128>| {
        &&& #[trigger] ordered_keys(pk, projects, any_project(), project_name())
        &&& #[trigger] ordered_keys(sk, sessions, without_project(), session_name())
        &&& lines == projects_lines(pk, projects, sessions) + sk.map_values(|k: u128| ListEntryView::Session(sessions[k]@))
    }
}

/// Appends the lines of project `p` (see `project_lines`), `paths` being the paths in use.
fn push_project_lines(res: &mut Vec<ListEntry>, p: &Project, sessions: &HashMap<u128, Session>, paths: &Vec<String>)
    requires
        forall|x: Seq<char>| views_of(paths@).contains(x) <==> active_paths(sessions@).contains(x),
    ensures
        entry_views(final(res)@) == entry_views(old(res)@) + project_lines(p@, sessions@),
{
    let ghost base = entry_views(res@);
    res.push(ListEntry::Project(p.clone()));
    assert(entry_views(res@) =~= base + seq![ListEntryView::Project(p@)]);
    let ghost head = entry_views(res@);
    let mut j: usize = 0;
    while j < p.sessions.len()
        invariant
            j <= p.sessions.len(),
            entry_views(res@) == head + session_lines(p@, p@.sessions.take(j as int), sessions@),
        decreases p.sessions.len() - j,
    {
        proof {
            assert(p@.sessions.take(j + 1).drop_last() =~= p@.sessions.take(j as int));
            assert(p@.sessions.take(j + 1).last() == p.sessions@[j as int]);
        }
        let sid = p.sessions[j];
        match sessions.get(&sid) {
            Some(s) => {
                let ghost prev = res@;
                res.push(ListEntry::ProjectSession(p.clone(), s.clone()));
                assert(entry_views(res@) =~= entry_views(prev).push(ListEntryView::ProjectSession(p@, s@)));
            },
            None => {},
        }
        j = j + 1;
    }
    assert(p@.sessions.take(p.sessions.len() as int) =~= p@.sessions);
    let ghost mid = entry_views(res@);
    let mut j: usize = 0;
    while j < p.worktrees.len()
        invariant
            j <= p.worktrees.len(),
            forall|x: Seq<char>| views_of(paths@).contains(x) <==> active_paths(sessions@).contains(x),
            entry_views(res@) == mid + worktree_lines(p@, p@.worktrees.take(j as int), active_paths(sessions@)),
        decreases p.worktrees.len() - j,
    {
        proof {
            assert(p@.worktrees.take(j + 1).drop_last() =~= p@.worktrees.take(j as int));
            assert(p@.worktrees.take(j + 1).last() == p.worktrees@[j as int]@);
        }
        if !contains_name(paths, p.worktrees[j].path.as_str()) {
            let ghost prev = res@;
            res.push(ListEntry::AvailableWorktree(p.clone(), p.worktrees[j].clone()));
            assert(entry_views(res@) =~= entry_views(prev).push(ListEntryView::AvailableWorktree(p@, p.worktrees@[j as int]@)));
        }
        j = j + 1;
    }
    assert(p@.worktrees.take(p.worktrees.len() as int) =~= p@.worktrees);
    assert(entry_views(res@) =~= base + project_lines(p@, sessions@));
}

/// The paths some session was asked to start in (see `active_paths`).
fn session_paths(sessions: &HashMap<u128, Session>) -> (res: Vec<String>)
    ensures
        forall|x: Seq<char>| views_of(res@).contains(x) <==> active_paths(sessions@).contains(x),
{
    let keys = keys_of(sessions);
    let mut res: Vec<String> = Vec::new();
    let mut i: usize = 0;
    while i < keys.len()
        invariant
            i <= keys.len(),
            forall|k: u128| keys@.contains(k) <==> sessions@.contains_key(k),
            forall|x: Seq<char>| views_of(res@).contains(x) <==> exists|j: int| 0 <= j < i && #[trigger] sessions@[keys@[j]]@.path == Some(x),
        decreases keys.len() - i,
    {
        assert(keys@.contains(keys@[i as int]));
        let ghost prev = views_of(res@);
        match sessions.get(&keys[i]) {
            Some(s) => {
                match &s.path {
                    Some(path) => {
                        res.push(path.clone());
                        assert(views_of(res@) =~= prev.push(path@));
                    },
                    None => {},
                }
            },
            None => {
                assert(false);
            },
        }
        assert forall|x: Seq<char>| views_of(res@).contains(x) <==> exists|j: int| 0 <= j < i + 1 && #[trigger] sessions@[keys@[j]]@.path == Some(x) by {
            if prev.contains(x) {
                let y = choose|y: int| 0 <= y < prev.len() && prev[y] == x;
                assert(views_of(res@)[y] == x);
            }
            if views_of(res@).contains(x) && !prev.contains(x) {
                assert(sessions@[keys@[i as int]]@.path == Some(x));
            }
            if exists|j: int| 0 <= j < i + 1 && #[trigger] sessions@[keys@[j]]@.path == Some(x) {
                let j = choose|j: int| 0 <= j < i + 1 && #[trigger] sessions@[keys@[j]]@.path == Some(x);
                if j == i {
                    assert(views_of(res@)[views_of(res@).len() - 1] == x);
                }
            }
        }
        i = i + 1;
    }
    assert forall|x: Seq<char>| views_of(res@).contains(x) <==> active_paths(sessions@).contains(x) by {
        if active_paths(sessions@).contains(x) {
            let k = choose|k: u128| #[trigger] sessions@.contains_key(k) && sessions@[k]@.path == Some(x);
            assert(keys@.contains(k));
            let j = choose|j: int| 0 <= j < keys@.len() && keys@[j] == k;
            assert(sessions@[keys@[j]]@.path == Some(x));
        }
        if views_of(res@).contains(x) {
            let j = choose|j: int| 0 <= j < keys@.len() && #[trigger] sessions@[keys@[j]]@.path == Some(x);
            assert(keys@.contains(keys@[j]));
        }
    }
    res
}


/// The name of each project in `keys`, with its key.
fn named_projects(projects: &HashMap<u128, Project>, keys: &Vec<u128>) -> (res: Vec<(String, u128)>)
    requires
        forall|i: int| 0 <= i < keys@.len() ==> projects@.contains_key(#[trigger] keys@[i]),
    ensures
        keys_in(res@) == keys@,
        forall|i: int| 0 <= i < res@.len() ==> (#[trigger] res@[i]).0@ == projects@[res@[i].1].name@,
{
    let mut res: Vec<(String, u128)> = Vec::new();
    let mut i: usize = 0;
    while i < keys.len()
        invariant
            i <= keys.len(),
            forall|j: int| 0 <= j < keys@.len() ==> projects@.contains_key(#[trigger] keys@[j]),
            keys_in(res@) == keys@.take(i as int),
            forall|j: int| 0 <= j < res@.len() ==> (#[trigger] res@[j]).0@ == projects@[res@[j].1].name@,
        decreases keys.len() - i,
    {
        let k = keys[i];
        assert(projects@.contains_key(keys@[i as int]));
        match projects.get(&k) {
            Some(p) => {
                let ghost prev = res@;
                res.push((p.name.clone(), k));
                assert(keys_in(res@) =~= keys_in(prev).push(k));
                assert(keys@.take(i + 1) =~= keys@.take(i as int).push(k));
            },
            None => {
                assert(false);
            },
        }
        i = i + 1;
    }
    assert(keys@.take(keys.len() as int) =~= keys@);
    res
}

/// The name of each session without a project among `keys`, with its key, in the order
/// of `keys`.
fn named_orphans(sessions: &HashMap<u128, Session>, keys: &Vec<u128>) -> (res: Vec<(String, u128)>)
    requires
        keys@.no_duplicates(),
        forall|i: int| 0 <= i < keys@.len() ==> sessions@.contains_key(#[trigger] keys@[i]),
    ensures
        keys_in(res@).no_duplicates(),
        forall|k: u128| keys_in(res@).contains(k) <==> (keys@.contains(k) && sessions@[k].project_id is None),
        forall|i: int| 0 <= i < res@.len() ==> (#[trigger] res@[i]).0@ == sessions@[res@[i].1].name@,
{
    let mut res: Vec<(String, u128)> = Vec::new();
    let mut i: usize = 0;
    while i < keys.len()
        invariant
            i <= keys.len(),
            keys@.no_duplicates(),
            forall|j: int| 0 <= j < keys@.len() ==> sessions@.contains_key(#[trigger] keys@[j]),
            keys_in(res@).no_duplicates(),
            forall|k: u128| keys_in(res@).contains(k) <==> (keys@.take(i as int).contains(k) && sessions@[k].project_id is None),
            forall|j: int| 0 <= j < res@.len() ==> (#[trigger] res@[j]).0@ == sessions@[res@[j].1].name@,
        decreases keys.len() - i,
    {
        let k = keys[i];
        assert(sessions@.contains_key(keys@[i as int]));
        assert(keys@.take(i + 1) =~= keys@.take(i as int).push(k));
        assert(!keys@.take(i as int).contains(k)) by {
            if keys@.take(i as int).contains(k) {
                let j = choose|j: int| 0 <= j < i && keys@.take(i as int)[j] == k;
                assert(keys@[j] == keys@[i as int]);
            }
        }
        match sessions.get(&k) {
            Some(s) => {
                assert forall|x: u128| x != k implies (#[trigger] keys@.take(i + 1).contains(x) <==> keys@.take(i as int).contains(x)) by {
                    if keys@.take(i as int).contains(x) {
                        let j = choose|j: int| 0 <= j < i && keys@.take(i as int)[j] == x;
                        assert(keys@.take(i + 1)[j] == x);
                    }
                    if keys@.take(i + 1).contains(x) && x != k {
                        let j = choose|j: int| 0 <= j < i + 1 && #[trigger] keys@.take(i + 1)[j] == x;
                        assert(keys@.take(i as int)[j] == x);
                    }
                }
                assert(keys@.take(i + 1)[i as int] == k);
                if s.project_id.is_none() {
                    let ghost prev = res@;
                    res.push((s.name.clone(), k));
                    assert(keys_in(res@) =~= keys_in(prev).push(k));
                    assert(!keys_in(prev).contains(k));
                    assert forall|a: int, b: int| 0 <= a < b < keys_in(res@).len() implies keys_in(res@)[a] != keys_in(res@)[b] by {
                        if b == keys_in(prev).len() {
                            assert(keys_in(prev).contains(keys_in(res@)[a]));
                        } else {
                            assert(keys_in(res@)[a] == keys_in(prev)[a]);
                            assert(keys_in(res@)[b] == keys_in(prev)[b]);
                        }
                    }
                    assert forall|x: u128| keys_in(res@).contains(x) <==> (keys@.take(i + 1).contains(x) && sessions@[x].project_id is None) by {
                        if keys_in(res@).contains(x) && x != k {
                            let j = choose|j: int| 0 <= j < keys_in(res@).len() && keys_in(res@)[j] == x;
                            assert(keys_in(prev)[j] == x);
                        }
                        if keys_in(prev).contains(x) {
                            let j = choose|j: int| 0 <= j < keys_in(prev).len() && keys_in(prev)[j] == x;
                            assert(keys_in(res@)[j] == x);
                        }
                        if x == k {
                            assert(keys_in(res@)[keys_in(res@).len() - 1] == x);
                        }
                        if keys@.take(i as int).contains(x) {
                            let j = choose|j: int| 0 <= j < i && keys@.take(i as int)[j] == x;
                            assert(keys@.take(i + 1)[j] == x);
                        }
                        if keys@.take(i + 1).contains(x) && x != k {
                            let j = choose|j: int| 0 <= j < i + 1 && #[trigger] keys@.take(i + 1)[j] == x;
                            assert(keys@.take(i as int)[j] == x);
                        }
                        if x == k {
                            assert(keys@.take(i + 1)[i as int] == x);
                        }
                    }
                }
            },
            None => {
                assert(false);
            },
        }
        i = i + 1;
    }
    assert(keys@.take(keys.len() as int) =~= keys@);
    res
}

/// The home list for `projects` and `sessions` (see `home_list`).
pub fn build_list(projects: &HashMap<u128, Project>, sessions: &HashMap<u128, Session>) -> (res: Vec<ListEntry>)
    ensures
        home_list(projects@, sessions@, entry_views(res@)),
{
    let pkeys = keys_of(projects);
    let named = named_projects(projects, &pkeys);
    let sorted = sort_by_name(named);
    let ghost pk = keys_in(sorted@);
    proof {
        assert forall|k: u128| #[trigger] pk.contains(k) <==> projects@.contains_key(k) by {
            assert(pk.to_set().contains(k) == pk.contains(k));
            assert(pkeys@.to_set().contains(k) == pkeys@.contains(k));
        }
        assert forall|i: int| 0 <= i < sorted@.len() implies (#[trigger] sorted@[i]).0@ == projects@[sorted@[i].1].name@ by {
            let j = choose|j: int| 0 <= j < named@.len() && sorted@[i].1 == named@[j].1 && sorted@[i].0@ == named@[j].0@;
            assert(named@[j].0@ == projects@[named@[j].1].name@);
        }
        assert forall|i: int, j: int| 0 <= i < j < pk.len() implies name_le(project_name()(projects@[#[trigger] pk[i]]), project_name()(projects@[#[trigger] pk[j]])) by {
            assert(names_of(sorted@)[i] == sorted@[i].0@);
            assert(names_of(sorted@)[j] == sorted@[j].0@);
        }
        assert(ordered_keys(pk, projects@, any_project(), project_name()));
    }
    let paths = session_paths(sessions);
    let mut res: Vec<ListEntry> = Vec::new();
    let mut i: usize = 0;
    while i < sorted.len()
        invariant
            i <= sorted.len(),
            pk == keys_in(sorted@),
            forall|k: u128| #[trigger] pk.contains(k) <==> projects@.contains_key(k),
            forall|x: Seq<char>| views_of(paths@).contains(x) <==> active_paths(sessions@).contains(x),
            entry_views(res@) == projects_lines(pk.take(i as int), projects@, sessions@),
        decreases sorted.len() - i,
    {
        let k = sorted[i].1;
        assert(pk[i as int] == k);
        assert(pk.contains(k));
        assert(pk.take(i + 1).drop_last() =~= pk.take(i as int));
        match projects.get(&k) {
            Some(p) => {
                push_project_lines(&mut res, p, sessions, &paths);
            },
            None => {
                assert(false);
            },
        }
        i = i + 1;
    }
    assert(pk.take(sorted.len() as int) =~= pk);
    let ghost head = entry_views(res@);
    let skeys = keys_of(sessions);
    proof {
        assert forall|i: int| 0 <= i < skeys@.len() implies sessions@.contains_key(#[trigger] skeys@[i]) by {
            assert(skeys@.contains(skeys@[i]));
        }
    }
    let orphans = named_orphans(sessions, &skeys);
    let sorted_orphans = sort_by_name(orphans);
    let ghost sk = keys_in(sorted_orphans@);
    proof {
        assert forall|k: u128| #[trigger] sk.contains(k) <==> (sessions@.contains_key(k) && without_project()(sessions@[k])) by {
            assert(sk.to_set().contains(k) == sk.contains(k));
            assert(keys_in(orphans@).to_set().contains(k) == keys_in(orphans@).contains(k));
        }
        assert forall|i: int| 0 <= i < sorted_orphans@.len() implies (#[trigger] sorted_orphans@[i]).0@ == sessions@[sorted_orphans@[i].1].name@ by {
            let j = choose|j: int| 0 <= j < orphans@.len() && sorted_orphans@[i].1 == orphans@[j].1 && sorted_orphans@[i].0@ == orphans@[j].0@;
            assert(orphans@[j].0@ == sessions@[orphans@[j].1].name@);
        }
        assert forall|i: int, j: int| 0 <= i < j < sk.len() implies name_le(session_name()(sessions@[#[trigger] sk[i]]), session_name()(sessions@[#[trigger] sk[j]])) by {
            assert(names_of(sorted_orphans@)[i] == sorted_orphans@[i].0@);
            assert(names_of(sorted_orphans@)[j] == sorted_orphans@[j].0@);
        }
        assert(ordered_keys(sk, sessions@, without_project(), session_name()));
    }
    let mut i: usize = 0;
    while i < sorted_orphans.len()
        invariant
            i <= sorted_orphans.len(),
            sk == keys_in(sorted_orphans@),
            forall|k: u128| #[trigger] sk.contains(k) ==> sessions@.contains_key(k),
            entry_views(res@) == head + sk.take(i as int).map_values(|k: u128| ListEntryView::Session(sessions@[k]@)),
        decreases sorted_orphans.len() - i,
    {
        let k = sorted_orphans[i].1;
        assert(sk[i as int] == k);
        assert(sk.contains(k));
        match sessions.get(&k) {
            Some(s) => {
                let ghost prev = res@;
                res.push(ListEntry::Session(s.clone()));
                assert(entry_views(res@) =~= entry_views(prev).push(ListEntryView::Session(s@)));
                assert(sk.take(i + 1).map_values(|k: u128| ListEntryView::Session(sessions@[k]@)) =~= sk.take(i as int).map_values(|k: u128| ListEntryView::Session(sessions@[k]@)).push(ListEntryView::Session(sessions@[k]@)));
            },
            None => {
                assert(false);
            },
        }
        i = i + 1;
    }
    assert(sk.take(sorted_orphans.len() as int) =~= sk);
    assert(ordered_keys(pk, projects@, any_project(), project_name()));
    assert(ordered_keys(sk, sessions@, without_project(), session_name()));
    res
}


/// The text a line is shown with: a project as ` - <name>`, a session of a project as
/// `     <name>`, a worktree as `     [worktree] (<branch>) <path>`, and a session without
/// a project as ` <name>`.
pub open spec fn entry_line_text(e: ListEntryView) -> Seq<char> {
    match e {
        ListEntryView::Project(p) => " - "@ + p.name,
        ListEntryView::ProjectSession(_, s) => "     "@ + s.name,
        ListEntryView::AvailableWorktree(_, w) => "     [worktree] ("@ + w.name + ") "@ + w.path,
        ListEntryView::Session(s) => " "@ + s.name,
    }
}

/// The text `entry` is shown with (see `entry_line_text`).
pub fn entry_line(entry: &ListEntry) -> (res: String)
    ensures
        res@ == entry_line_text(entry@),
{
    proof {
        reveal_strlit(" - ");
        reveal_strlit("     ");
        reveal_strlit("     [worktree] (");
        reveal_strlit(") ");
        reveal_strlit(" ");
    }
    match entry {
        ListEntry::Project(p) => {
            let mut s = String::from_str(" - ");
            s.append(p.name.as_str());
            s
        },
        ListEntry::ProjectSession(_, session) => {
            let mut s = String::from_str("     ");
            s.append(session.name.as_str());
            s
        },
        ListEntry::AvailableWorktree(_, w) => {
            let mut s = String::from_str("     [worktree] (");
            s.append(w.name.as_str());
            s.append(") ");
            s.append(w.path.as_str());
            s
        },
        ListEntry::Session(session) => {
            let mut s = String::from_str(" ");
            s.append(session.name.as_str());
            s
        },
    }
}

} // verus!
