use earthworm::project::Project;
use earthworm::session::Session;
use earthworm::tmux::{
    attach_session_args, get_tmux_session_name, get_tmux_session_path, kill_session_args, list_sessions_args,
    new_session_args, rename_session_args, tmux_session_list, TmuxError,
};
use earthworm::worktree::Worktree;
use uuid::Uuid;

#[test]
fn test_get_tmux_session_name_with_project() {
    let project = Project {
        id: Uuid::new_v4().as_u128(),
        name: String::from("project-name"),
        path: String::new(),
        sessions: vec![],
        worktrees: vec![],
    };
    let session = Session {
        id: Uuid::new_v4().as_u128(),
        project_id: None,
        name: String::from("session-name"),
        path: None,
        worktree: None,
    };
    assert_eq!(get_tmux_session_name(&session, Some(&project)), "project-name_session-name")
}

#[test]
fn test_get_tmux_session_name_without_project() {
    let session = Session {
        id: Uuid::new_v4().as_u128(),
        project_id: None,
        name: String::from("session-name"),
        path: None,
        worktree: None,
    };
    assert_eq!(get_tmux_session_name(&session, None), "session-name")
}

#[test]
fn test_get_tmux_session_path_priority_order() {
    let project = Project {
        id: Uuid::new_v4().as_u128(),
        name: String::new(),
        path: String::from("/project-path"),
        sessions: vec![],
        worktrees: vec![],
    };
    let mut session = Session {
        id: Uuid::new_v4().as_u128(),
        project_id: None,
        name: String::new(),
        path: Some(String::from("/session-path")),
        worktree: Some(Worktree { name: String::new(), path: String::from("/worktree-path") }),
    };
    assert_eq!(get_tmux_session_path(&session, Some(&project)).unwrap(), "/worktree-path");
    session.worktree = None;
    assert_eq!(get_tmux_session_path(&session, Some(&project)).unwrap(), "/session-path");
    session.path = None;
    assert_eq!(get_tmux_session_path(&session, Some(&project)).unwrap(), "/project-path");
}

#[test]
fn test_get_tmux_session_path_no_path_returns_error() {
    let session = Session { id: Uuid::new_v4().as_u128(), project_id: None, name: String::new(), path: None, worktree: None };
    assert!(get_tmux_session_path(&session, None).is_err());
}

#[test]
fn empty_paths_are_skipped() {
    let project = Project { id: 1, name: String::new(), path: String::new(), sessions: vec![], worktrees: vec![] };
    let session = Session {
        id: 2,
        project_id: Some(1),
        name: String::from("s"),
        path: Some(String::new()),
        worktree: Some(Worktree { name: String::from("w"), path: String::new() }),
    };
    assert_eq!(get_tmux_session_path(&session, Some(&project)), Err(TmuxError::NoPathForSession));
}

#[test]
fn session_list_is_one_name_per_line() {
    assert_eq!(tmux_session_list(true, "alpha\nbeta\r\ngamma\n"), vec!["alpha", "beta", "gamma"]);
    assert_eq!(tmux_session_list(false, "alpha\n"), Vec::<String>::new());
    assert_eq!(tmux_session_list(true, ""), Vec::<String>::new());
}

#[test]
fn tmux_arguments() {
    assert_eq!(list_sessions_args(), vec!["list-sessions", "-F", "#{session_name}"]);
    assert_eq!(new_session_args("a_b", "/tmp/x"), vec!["new-session", "-d", "-s", "a_b", "-c", "/tmp/x"]);
    assert_eq!(kill_session_args("a_b"), vec!["kill-session", "-t", "a_b"]);
    assert_eq!(rename_session_args("a", "b"), vec!["rename-session", "-t", "a", "b"]);
    assert_eq!(attach_session_args(true, "a"), vec!["switch-client", "-t", "a"]);
    assert_eq!(attach_session_args(false, "a"), vec!["attach-session", "-t", "a"]);
}
