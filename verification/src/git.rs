use vstd::prelude::*;
use vstd::string::*;

use crate::text::{
    from_chars, spec_lines, spec_strip_prefix, split_lines, strip_prefix_chars, to_chars,
    char_views_of, views_of,
};
use crate::worktree::{worktree_views, Worktree, WorktreeView};

verus! {

pub open spec fn worktree_prefix() -> Seq<char> {
    "worktree "@
}

pub open spec fn branch_prefix() -> Seq<char> {
    "branch refs/heads/"@
}

/// Reading the lines of `git worktree list --porcelain` in order: the worktrees found so
/// far, and the path of a `worktree` line not yet matched with a `branch` line. A
/// `worktree <path>` line sets the pending path; a `branch refs/heads/<name>` line with a
/// pending path gives the worktree `<name>` at that path; other lines change nothing.
pub open spec fn worktree_parse_state(lines: Seq<Seq<char>>) -> (Seq<WorktreeView>, Option<Seq<char>>)
    decreases lines.len(),
{
    if lines.len() == 0 {
        (seq![], None)
    } else {
        let (found, pending) = worktree_parse_state(lines.drop_last());
        let line = lines.last();
        match spec_strip_prefix(line, worktree_prefix()) {
            Some(path) => (found, Some(path)),
            None => match (spec_strip_prefix(line, branch_prefix()), pending) {
                (Some(branch), Some(path)) => (found.push(WorktreeView { name: branch, path }), None),
                _ => (found, pending),
            },
        }
    }
}

/// The worktrees that `git worktree list --porcelain` printed as `out`.
pub open spec fn spec_parse_worktrees(out: Seq<char>) -> Seq<WorktreeView> {
    worktree_parse_state(spec_lines(out)).0
}

/// The worktrees listed in the output of `git worktree list --porcelain` (see
/// `worktree_parse_state`); detached worktrees, which have no branch line, are left out.
pub fn parse_worktree_list(stdout: &str) -> (res: Vec<Worktree>)
    ensures
        worktree_views(res@) == spec_parse_worktrees(stdout@),
{
    let chars = to_chars(stdout);
    let lines = split_lines(&chars);
    let worktree_p = to_chars("worktree ");
    let branch_p = to_chars("branch refs/heads/");
    let ghost ls = char_views_of(lines@);
    let mut found: Vec<Worktree> = Vec::new();
    let mut pending: Option<Vec<char>> = None;
    let mut i: usize = 0;
    while i < lines.len()
        invariant
            i <= lines.len(),
            ls == char_views_of(lines@),
            worktree_p@ == worktree_prefix(),
            branch_p@ == branch_prefix(),
            worktree_parse_state(ls.take(i as int)) == (
                worktree_views(found@),
                match pending {
                    Some(p) => Some(p@),
                    None => None::<Seq<char>>,
                },
            ),
        decreases lines.len() - i,
    {
        proof {
            assert(ls.take(i + 1).drop_last() =~= ls.take(i as int));
            assert(ls.take(i + 1).last() == lines@[i as int]@);
        }
        match strip_prefix_chars(&lines[i], &worktree_p) {
            Some(path) => {
                pending = Some(path);
            },
            None => {
                match strip_prefix_chars(&lines[i], &branch_p) {
                    Some(branch) => {
                        match pending {
                            Some(path) => {
                                let w = Worktree { name: from_chars(&branch), path: from_chars(&path) };
                                let ghost prev = found@;
                                found.push(w);
                                assert(worktree_views(found@) =~= worktree_views(prev).push(w@));
                                pending = None;
                            },
                            None => {},
                        }
                    },
                    None => {},
                }
            },
        }
        i = i + 1;
    }
    assert(ls.take(lines.len() as int) =~= ls);
    found
}

/// Arguments (after `git`) that list the worktrees of repository `repo` in porcelain form.
pub fn worktree_list_args(repo: &str) -> (res: Vec<String>)
    ensures
        views_of(res@) == seq!["-C"@, repo@, "worktree"@, "list"@, "--porcelain"@],
{
    let res = vec![
        String::from_str("-C"),
        String::from_str(repo),
        String::from_str("worktree"),
        String::from_str("list"),
        String::from_str("--porcelain"),
    ];
    assert(views_of(res@) =~= seq!["-C"@, repo@, "worktree"@, "list"@, "--porcelain"@]);
    res
}

/// Arguments (after `git`) that check whether branch `name` exists in repository `repo`.
pub fn branch_exists_args(repo: &str, name: &str) -> (res: Vec<String>)
    ensures
        views_of(res@) == seq!["-C"@, repo@, "rev-parse"@, "--verify"@, name@],
{
    let res = vec![
        String::from_str("-C"),
        String::from_str(repo),
        String::from_str("rev-parse"),
        String::from_str("--verify"),
        String::from_str(name),
    ];
    assert(views_of(res@) =~= seq!["-C"@, repo@, "rev-parse"@, "--verify"@, name@]);
    res
}

/// Arguments (after `git`) that add the worktree `name` at `path` to repository `repo`:
/// checking out the branch when it exists, else creating it.
pub fn worktree_add_args(repo: &str, name: &str, path: &str, branch_exists: bool) -> (res: Vec<
    String,
>)
    ensures
        branch_exists ==> views_of(res@) == seq!["-C"@, repo@, "worktree"@, "add"@, path@, name@],
        !branch_exists ==> views_of(res@) == seq![
            "-C"@,
            repo@,
            "worktree"@,
            "add"@,
            "-b"@,
            name@,
            path@,
        ],
{
    if branch_exists {
        let res = vec![
            String::from_str("-C"),
            String::from_str(repo),
            String::from_str("worktree"),
            String::from_str("add"),
            String::from_str(path),
            String::from_str(name),
        ];
        assert(views_of(res@) =~= seq!["-C"@, repo@, "worktree"@, "add"@, path@, name@]);
        res
    } else {
        let res = vec![
            String::from_str("-C"),
            String::from_str(repo),
            String::from_str("worktree"),
            String::from_str("add"),
            String::from_str("-b"),
            String::from_str(name),
            String::from_str(path),
        ];
        assert(views_of(res@) =~= seq!["-C"@, repo@, "worktree"@, "add"@, "-b"@, name@, path@]);
        res
    }
}

/// Arguments (after `git`) that remove the worktree at `path` from repository `repo`.
pub fn worktree_remove_args(repo: &str, path: &str) -> (res: Vec<String>)
    ensures
        views_of(res@) == seq!["-C"@, repo@, "worktree"@, "remove"@, path@],
{
    let res = vec![
        String::from_str("-C"),
        String::from_str(repo),
        String::from_str("worktree"),
        String::from_str("remove"),
        String::from_str(path),
    ];
    assert(views_of(res@) =~= seq!["-C"@, repo@, "worktree"@, "remove"@, path@]);
    res
}

} // verus!
