use vstd::prelude::*;

use crate::worktree::{worktree_views, Worktree, WorktreeView};

verus! {

/// A git repository that sessions are organised under: its id, name, path, the ids of its
/// sessions, and the worktrees found in it.
#[derive(Debug, PartialEq, Eq)]
pub struct Project {
    pub id: u128,
    pub name: String,
    pub path: String,
    pub sessions: Vec<u128>,
    pub worktrees: Vec<Worktree>,
}

/// The content of a project.
pub struct ProjectView {
    pub id: u128,
    pub name: Seq<char>,
    pub path: Seq<char>,
    pub sessions: Seq<u128>,
    pub worktrees: Seq<WorktreeView>,
}

impl View for Project {
    type V = ProjectView;

    open spec fn view(&self) -> ProjectView {
        ProjectView {
            id: self.id,
            name: self.name@,
            path: self.path@,
            sessions: self.sessions@,
            worktrees: worktree_views(self.worktrees@),
        }
    }
}

pub fn clone_worktrees(v: &Vec<Worktree>) -> (res: Vec<Worktree>)
    ensures
        worktree_views(res@) == worktree_views(v@),
{
    let mut res: Vec<Worktree> = Vec::new();
    let mut i: usize = 0;
    while i < v.len()
        invariant
            i <= v.len(),
            worktree_views(res@) == worktree_views(v@.take(i as int)),
        decreases v.len() - i,
    {
        let w = v[i].clone();
        let ghost prev = res@;
        res.push(w);
        assert(res@ =~= prev.push(w));
        assert(v@.take(i + 1) =~= v@.take(i as int).push(v@[i as int]));
        assert(worktree_views(res@) =~= worktree_views(prev).push(v@[i as int]@));
        assert(worktree_views(v@.take(i + 1)) =~= worktree_views(v@.take(i as int)).push(v@[i as int]@));
        i = i + 1;
        assert(worktree_views(res@) =~= worktree_views(v@.take(i as int)));
    }
    assert(v@.take(v.len() as int) =~= v@);
    res
}

pub fn clone_ids(v: &Vec<u128>) -> (res: Vec<u128>)
    ensures
        res@ == v@,
{
    let mut res: Vec<u128> = Vec::new();
    let mut i: usize = 0;
    while i < v.len()
        invariant
            i <= v.len(),
            res@ == v@.take(i as int),
        decreases v.len() - i,
    {
        res.push(v[i]);
        i = i + 1;
        assert(res@ =~= v@.take(i as int));
    }
    assert(v@.take(v.len() as int) =~= v@);
    res
}

impl Clone for Project {
    fn clone(&self) -> (res: Self)
        ensures
            res@ == self@,
    {
        Project {
            id: self.id,
            name: self.name.clone(),
            path: self.path.clone(),
            sessions: clone_ids(&self.sessions),
            worktrees: clone_worktrees(&self.worktrees),
        }
    }
}

} // verus!
