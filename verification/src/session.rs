use vstd::prelude::*;

use crate::worktree::{Worktree, WorktreeView};

verus! {

/// A tmux session: its id, the project it belongs to if any, its name, the path it was
/// asked to start in, and the worktree it was made for.
#[derive(Debug, PartialEq, Eq)]
pub struct Session {
    pub id: u128,
    pub project_id: Option<u128>,
    pub name: String,
    pub path: Option<String>,
    pub worktree: Option<Worktree>,
}

/// The content of a session.
pub struct SessionView {
    pub id: u128,
    pub project_id: Option<u128>,
    pub name: Seq<char>,
    pub path: Option<Seq<char>>,
    pub worktree: Option<WorktreeView>,
}

pub open spec fn opt_string_view(s: Option<String>) -> Option<Seq<char>> {
    match s {
        Some(x) => Some(x@),
        None => None,
    }
}

pub open spec fn opt_worktree_view(w: Option<Worktree>) -> Option<WorktreeView> {
    match w {
        Some(x) => Some(x@),
        None => None,
    }
}

impl View for Session {
    type V = SessionView;

    open spec fn view(&self) -> SessionView {
        SessionView {
            id: self.id,
            project_id: self.project_id,
            name: self.name@,
            path: opt_string_view(self.path),
            worktree: opt_worktree_view(self.worktree),
        }
    }
}

impl Clone for Session {
    fn clone(&self) -> (res: Self)
        ensures
            res@ == self@,
    {
        let path = match &self.path {
            Some(p) => Some(p.clone()),
            None => None,
        };
        let worktree = match &self.worktree {
            Some(w) => Some(w.clone()),
            None => None,
        };
        Session { id: self.id, project_id: self.project_id, name: self.name.clone(), path, worktree }
    }
}

} // verus!
