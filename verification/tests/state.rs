use earthworm::project::Project;
use earthworm::session::Session;
use earthworm::state::{contains_name, rollback_of, without_id, AppError, AppState};
use earthworm::worktree::Worktree;

fn project(id: u128, name: &str, path: &str) -> Project {
    Project { id, name: String::from(name), path: String::from(path), sessions: vec![], worktrees: vec![] }
}

fn session(id: u128, project_id: Option<u128>, name: &str) -> Session {
    Session { id, project_id, name: String::from(name), path: None, worktree: None }
}

fn sorted(mut v: Vec<String>) -> Vec<String> {
    v.sort();
    v
}

#[test]
fn new_state_is_empty() {
    let state = AppState::new();
    assert!(state.projects.is_empty());
    assert!(state.sessions.is_empty());
}

#[test]
fn session_project_lookup() {
    let mut state = AppState::new();
    state.insert_project(project(1, "p", "/p"));
    assert_eq!(state.get_session_project(&session(10, None, "s")), Ok(None));
    assert_eq!(state.get_session_project(&session(10, Some(1), "s")).unwrap().unwrap().name, "p");
    assert_eq!(state.get_session_project(&session(10, Some(2), "s")), Err(AppError::ProjectNotFound));
}

#[test]
fn submit_then_remove_session() {
    let mut state = AppState::new();
    state.insert_project(project(1, "p", "/p"));
    let s = session(10, Some(1), "s");
    let refresh = state.submit_session(session(10, Some(1), "s"));
    assert!(!refresh);
    assert_eq!(state.sessions.get(&10), Some(&s));
    assert_eq!(state.projects[&1].sessions, vec![10]);
    state.remove_session(&s);
    assert!(state.sessions.is_empty());
    assert!(state.projects[&1].sessions.is_empty());
}

#[test]
fn submitting_a_worktree_session_asks_for_a_refresh() {
    let mut state = AppState::new();
    state.insert_project(project(1, "p", "/p"));
    let mut s = session(10, Some(1), "s");
    s.worktree = Some(Worktree { name: String::from("b"), path: String::from("/w") });
    assert!(state.submit_session(s));
    let mut orphan = session(11, None, "o");
    orphan.worktree = Some(Worktree { name: String::from("b"), path: String::from("/w") });
    assert!(!state.submit_session(orphan));
}

#[test]
fn plan_submit_session_for_new_worktree() {
    let mut state = AppState::new();
    let mut p = project(1, "proj", "/repo");
    p.worktrees = vec![Worktree { name: String::from("main"), path: String::from("/repo") }];
    state.insert_project(p);
    let mut s = session(10, Some(1), "feat");
    s.path = Some(String::from("/repo-feat"));
    s.worktree = Some(Worktree { name: String::from("feat"), path: String::from("/repo-feat") });
    let launch = state.plan_submit_session(&s).unwrap();
    assert_eq!(
        launch.create_worktree,
        Some((String::from("/repo"), String::from("feat"), String::from("/repo-feat")))
    );
    assert_eq!(launch.tmux_name, "proj_feat");
    assert_eq!(launch.tmux_path, Ok(String::from("/repo-feat")));

    s.worktree = Some(Worktree { name: String::from("main"), path: String::from("/repo") });
    let launch = state.plan_submit_session(&s).unwrap();
    assert_eq!(launch.create_worktree, None);
    assert_eq!(launch.tmux_path, Ok(String::from("/repo")));
}

#[test]
fn plan_submit_session_errors() {
    let state = AppState::new();
    assert!(matches!(state.plan_submit_session(&session(10, Some(3), "s")), Err(AppError::ProjectNotFound)));
    let launch = state.plan_submit_session(&session(10, None, "s")).unwrap();
    assert_eq!(launch.tmux_name, "s");
    assert_eq!(launch.tmux_path, Err(AppError::NoPathForSession));
}

#[test]
fn plan_update_project_renames_its_sessions() {
    let mut state = AppState::new();
    state.insert_project(project(1, "old", "/p"));
    state.submit_session(session(10, Some(1), "a"));
    state.submit_session(session(11, Some(1), "b"));
    state.submit_session(session(12, None, "c"));
    let renamed = project(1, "new", "/p");
    let mut renames = state.plan_update_project(&renamed).unwrap();
    renames.sort();
    assert_eq!(
        renames,
        vec![
            (String::from("old_a"), String::from("new_a")),
            (String::from("old_b"), String::from("new_b")),
        ]
    );
    assert!(state.plan_update_project(&project(1, "old", "/elsewhere")).unwrap().is_empty());
    assert_eq!(state.plan_update_project(&project(2, "x", "/x")), Err(AppError::ProjectNotFound));
}

#[test]
fn removing_a_project_removes_its_sessions() {
    let mut state = AppState::new();
    let p = project(1, "p", "/p");
    state.insert_project(project(1, "p", "/p"));
    state.submit_session(session(10, Some(1), "a"));
    state.submit_session(session(12, None, "c"));
    assert_eq!(state.plan_remove_project(&p), vec![String::from("p_a")]);
    state.remove_project(1);
    assert!(state.projects.is_empty());
    assert_eq!(state.sessions.len(), 1);
    assert!(state.sessions.contains_key(&12));
}

#[test]
fn plan_update_session_renames_when_name_changes() {
    let mut state = AppState::new();
    state.insert_project(project(1, "p", "/p"));
    state.submit_session(session(10, Some(1), "a"));
    assert_eq!(
        state.plan_update_session(&session(10, Some(1), "b")),
        Ok(Some((String::from("p_a"), String::from("p_b"))))
    );
    assert_eq!(state.plan_update_session(&session(10, Some(1), "a")), Ok(None));
    assert_eq!(state.plan_update_session(&session(99, None, "a")), Err(AppError::SessionNotFound));
    state.update_session(session(10, Some(1), "b"));
    assert_eq!(state.sessions[&10].name, "b");
}

#[test]
fn plan_session_target_names_the_tmux_session() {
    let mut state = AppState::new();
    state.insert_project(project(1, "p", "/p"));
    assert_eq!(state.plan_session_target(&session(10, Some(1), "a")), Ok(String::from("p_a")));
    assert_eq!(state.plan_session_target(&session(10, None, "a")), Ok(String::from("a")));
    assert_eq!(state.plan_session_target(&session(10, Some(7), "a")), Err(AppError::ProjectNotFound));
}

#[test]
fn reconcile_drops_stopped_sessions_and_adopts_running_ones() {
    let mut state = AppState::new();
    state.insert_project(project(1, "p", "/p"));
    state.submit_session(session(10, Some(1), "running"));
    state.submit_session(session(11, Some(1), "stopped"));
    state.submit_session(session(12, None, "loose"));
    let active = vec![String::from("p_running"), String::from("other"), String::from("loose")];
    state.reconcile_sessions(&active, &vec![100, 101, 102]);
    assert!(state.sessions.contains_key(&10));
    assert!(!state.sessions.contains_key(&11));
    assert!(state.sessions.contains_key(&12));
    assert_eq!(state.sessions.get(&101), Some(&session(101, None, "other")));
    assert_eq!(state.sessions.len(), 3);
}

#[test]
fn reconcile_twice_adds_nothing_more() {
    let mut state = AppState::new();
    let active = vec![String::from("x"), String::from("y")];
    state.reconcile_with_tmux(&active);
    assert_eq!(state.sessions.len(), 2);
    let names = sorted(state.sessions.values().map(|s| s.name.clone()).collect());
    assert_eq!(names, vec![String::from("x"), String::from("y")]);
    state.reconcile_with_tmux(&active);
    assert_eq!(state.sessions.len(), 2);
}

#[test]
fn projects_with_paths_skips_empty_paths() {
    let mut state = AppState::new();
    state.insert_project(project(1, "a", "/a"));
    state.insert_project(project(2, "b", ""));
    assert_eq!(state.projects_with_paths(), vec![(1, String::from("/a"))]);
    state.set_project_worktrees(1, vec![Worktree { name: String::from("m"), path: String::from("/a") }]);
    assert_eq!(state.projects[&1].worktrees.len(), 1);
}

#[test]
fn helpers_on_ids_and_names() {
    assert_eq!(without_id(&vec![1, 2, 1, 3], 1), vec![2, 3]);
    assert!(contains_name(&vec![String::from("a"), String::from("b")], "b"));
    assert!(!contains_name(&vec![String::from("a")], "c"));
    assert_eq!(
        rollback_of(&vec![(String::from("a"), String::from("b")), (String::from("c"), String::from("d"))]),
        vec![(String::from("b"), String::from("a")), (String::from("d"), String::from("c"))]
    );
}
