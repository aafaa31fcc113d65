use earthworm::git::{branch_exists_args, parse_worktree_list, worktree_add_args, worktree_list_args, worktree_remove_args};
use earthworm::worktree::Worktree;

fn wt(name: &str, path: &str) -> Worktree {
    Worktree { name: String::from(name), path: String::from(path) }
}

#[test]
fn parses_porcelain_worktree_list() {
    let out = "worktree /repo\nHEAD 0123abcd\nbranch refs/heads/main\n\nworktree /repo-feature\nHEAD 4567ef01\nbranch refs/heads/feature/x\n\n";
    assert_eq!(parse_worktree_list(out), vec![wt("main", "/repo"), wt("feature/x", "/repo-feature")]);
}

#[test]
fn detached_worktrees_are_left_out() {
    let out = "worktree /repo\nHEAD 0123\nbranch refs/heads/main\n\nworktree /detached\nHEAD 89ab\ndetached\n\nworktree /other\nbranch refs/heads/other\n";
    assert_eq!(parse_worktree_list(out), vec![wt("main", "/repo"), wt("other", "/other")]);
}

#[test]
fn branch_without_worktree_line_is_ignored() {
    assert_eq!(parse_worktree_list("branch refs/heads/main\n"), Vec::<Worktree>::new());
    assert_eq!(parse_worktree_list(""), Vec::<Worktree>::new());
}

#[test]
fn carriage_returns_are_dropped() {
    assert_eq!(parse_worktree_list("worktree /r\r\nbranch refs/heads/b\r\n"), vec![wt("b", "/r")]);
}

#[test]
fn git_arguments() {
    assert_eq!(worktree_list_args("/r"), vec!["-C", "/r", "worktree", "list", "--porcelain"]);
    assert_eq!(branch_exists_args("/r", "b"), vec!["-C", "/r", "rev-parse", "--verify", "b"]);
    assert_eq!(worktree_add_args("/r", "b", "/p", true), vec!["-C", "/r", "worktree", "add", "/p", "b"]);
    assert_eq!(worktree_add_args("/r", "b", "/p", false), vec!["-C", "/r", "worktree", "add", "-b", "b", "/p"]);
    assert_eq!(worktree_remove_args("/r", "/p"), vec!["-C", "/r", "worktree", "remove", "/p"]);
}
