use vstd::prelude::*;

verus! {

/// A git worktree: its branch name and its path on disk.
#[derive(Debug, PartialEq, Eq)]
pub struct Worktree {
    pub name: String,
    pub path: String,
}

/// The text of a worktree.
pub struct WorktreeView {
    pub name: Seq<char>,
    pub path: Seq<char>,
}

impl View for Worktree {
    type V = WorktreeView;

    open spec fn view(&self) -> WorktreeView {
        WorktreeView { name: self.name@, path: self.path@ }
    }
}

impl Clone for Worktree {
    fn clone(&self) -> (res: Self)
        ensures
            res@ == self@,
    {
        Worktree { name: self.name.clone(), path: self.path.clone() }
    }
}

pub open spec fn worktree_views(v: Seq<Worktree>) -> Seq<WorktreeView> {
    v.map_values(|w: Worktree| w@)
}

} // verus!
