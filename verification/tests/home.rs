use std::collections::HashMap;

use earthworm::action::Action;
use earthworm::home::{contains_str, Home};
use earthworm::home_list::{build_list, entry_line, ListEntry};
use earthworm::key::{Key, KeyPress};
use earthworm::keybindings::KeyBindings;
use earthworm::popups::{Popup, PopupState};
use earthworm::project::Project;
use earthworm::session::Session;
use earthworm::worktree::Worktree;

fn project(id: u128, name: &str, sessions: Vec<u128>, worktrees: Vec<Worktree>) -> Project {
    Project { id, name: String::from(name), path: format!("/{}", name), sessions, worktrees }
}

fn session(id: u128, project_id: Option<u128>, name: &str, path: Option<&str>) -> Session {
    Session { id, project_id, name: String::from(name), path: path.map(String::from), worktree: None }
}

fn wt(name: &str, path: &str) -> Worktree {
    Worktree { name: String::from(name), path: String::from(path) }
}

/// Two projects (given out of order) with sessions and worktrees, and two loose sessions.
fn sample() -> (HashMap<u128, Project>, HashMap<u128, Session>) {
    let mut projects = HashMap::new();
    projects.insert(2, project(2, "zeta", vec![20], vec![wt("main", "/zeta"), wt("dev", "/zeta-dev")]));
    projects.insert(1, project(1, "alpha", vec![10, 11, 99], vec![wt("main", "/alpha")]));
    let mut sessions = HashMap::new();
    sessions.insert(10, session(10, Some(1), "a-one", Some("/alpha")));
    sessions.insert(11, session(11, Some(1), "a-two", None));
    sessions.insert(20, session(20, Some(2), "z-one", Some("/zeta-dev")));
    sessions.insert(30, session(30, None, "loose-b", None));
    sessions.insert(31, session(31, None, "loose-a", None));
    (projects, sessions)
}

fn describe(entries: &[ListEntry]) -> Vec<String> {
    entries
        .iter()
        .map(|e| match e {
            ListEntry::Project(p) => format!("P {}", p.name),
            ListEntry::ProjectSession(p, s) => format!("S {} {}", p.name, s.name),
            ListEntry::AvailableWorktree(p, w) => format!("W {} {}", p.name, w.path),
            ListEntry::Session(s) => format!("O {}", s.name),
        })
        .collect()
}

fn loaded_home() -> Home {
    let (projects, sessions) = sample();
    let mut home = Home::new();
    home.update(Action::StateUpdated(projects, sessions));
    home
}

#[test]
fn list_orders_projects_and_loose_sessions_by_name() {
    let (projects, sessions) = sample();
    let list = build_list(&projects, &sessions);
    assert_eq!(
        describe(&list),
        vec![
            "P alpha",
            "S alpha a-one",
            "S alpha a-two",
            "P zeta",
            "S zeta z-one",
            "W zeta /zeta",
            "O loose-a",
            "O loose-b",
        ]
    );
}

#[test]
fn empty_state_gives_empty_list_and_no_selection() {
    let mut home = Home::new();
    home.update(Action::StateUpdated(HashMap::new(), HashMap::new()));
    assert!(home.list_entries.is_empty());
    assert_eq!(home.selected, None);
}

#[test]
fn rebuild_selects_first_line_then_clamps() {
    let mut home = loaded_home();
    assert_eq!(home.selected, Some(0));
    home.update(Action::CmdJumpBottom);
    assert_eq!(home.selected, Some(7));
    let mut projects = HashMap::new();
    projects.insert(1, project(1, "only", vec![], vec![]));
    home.update(Action::StateUpdated(projects, HashMap::new()));
    assert_eq!(home.selected, Some(0));
}

#[test]
fn selection_moves_like_a_list_state() {
    let mut home = Home::new();
    home.update(Action::CmdSelectNext);
    assert_eq!(home.selected, Some(0));
    home.update(Action::CmdSelectPrev);
    assert_eq!(home.selected, Some(0));
    home.selected = None;
    home.update(Action::CmdSelectPrev);
    assert_eq!(home.selected, Some(usize::MAX));
    home.update(Action::CmdSelectNext);
    assert_eq!(home.selected, Some(usize::MAX));
    home.selected = Some(3);
    home.update(Action::CmdSelectNext);
    assert_eq!(home.selected, Some(4));
}

#[test]
fn jumps_do_nothing_on_an_empty_list() {
    let mut home = Home::new();
    home.selected = Some(5);
    home.update(Action::CmdJumpTop);
    assert_eq!(home.selected, Some(5));
    home.update(Action::CmdJumpBottom);
    assert_eq!(home.selected, Some(5));
}

#[test]
fn search_finds_lines_and_cycles() {
    let mut home = loaded_home();
    home.update(Action::CmdStartSearch);
    assert!(home.is_capturing_input());
    assert_eq!(home.search.as_deref(), Some(""));
    assert_eq!(home.handle_key_event(Key::Char('o')), None);
    assert_eq!(home.handle_key_event(Key::Char('n')), None);
    assert_eq!(home.search.as_deref(), Some("on"));
    // "a-one", "z-one" hold "on"
    assert_eq!(home.search_matches, vec![1, 4]);
    assert_eq!(home.selected, Some(1));
    home.handle_key_event(Key::Enter);
    assert!(!home.search_is_capturing);
    home.update(Action::CmdSearchNext);
    assert_eq!((home.search_cursor, home.selected), (1, Some(4)));
    home.update(Action::CmdSearchNext);
    assert_eq!((home.search_cursor, home.selected), (0, Some(1)));
    home.update(Action::CmdSearchPrev);
    assert_eq!((home.search_cursor, home.selected), (1, Some(4)));
}

#[test]
fn search_matches_worktree_paths() {
    let mut home = loaded_home();
    home.update(Action::CmdStartSearch);
    for c in "/zeta".chars() {
        home.handle_key_event(Key::Char(c));
    }
    assert_eq!(home.search_matches, vec![5]);
}

#[test]
fn escape_drops_the_search() {
    let mut home = loaded_home();
    home.update(Action::CmdStartSearch);
    home.handle_key_event(Key::Char('x'));
    home.handle_key_event(Key::Esc);
    assert!(!home.search_is_capturing);
    assert_eq!(home.search, None);
    assert!(!home.is_capturing_input());
}

#[test]
fn characters_outside_a_search_do_nothing() {
    let mut home = loaded_home();
    assert_eq!(home.handle_key_event(Key::Char('x')), None);
    assert_eq!(home.search, None);
    assert!(home.search_matches.is_empty());
}

#[test]
fn popups_open_for_the_selected_line() {
    let mut home = loaded_home();
    home.update(Action::CmdEdit);
    assert!(matches!(home.popup_state, PopupState::Open(Popup::EditProject(_))));
    home.update(Action::CancelInput);
    assert!(matches!(home.popup_state, PopupState::Closed));
    home.selected = Some(1);
    home.update(Action::CmdDeleteItem);
    assert!(matches!(home.popup_state, PopupState::Open(Popup::RemoveSession(_))));
    home.selected = Some(5);
    home.update(Action::CmdDeleteItem);
    match &home.popup_state {
        PopupState::Open(Popup::RemoveWorktree(p)) => {
            assert_eq!(p.worktree.path, "/zeta");
            assert_eq!(p.project.name, "zeta");
        }
        _ => panic!("expected the remove worktree popup"),
    }
    home.update(Action::CmdAddSession);
    assert!(matches!(home.popup_state, PopupState::Open(Popup::NewSessionFromWorktree(_))));
    home.selected = Some(0);
    home.update(Action::CmdAddSession);
    assert!(matches!(home.popup_state, PopupState::Open(Popup::NewSession(_))));
    home.update(Action::CmdAddProject);
    assert!(matches!(home.popup_state, PopupState::Open(Popup::NewProject(_))));
    home.selected = Some(5);
    home.popup_state = PopupState::Closed;
    home.update(Action::CmdEdit);
    assert!(matches!(home.popup_state, PopupState::Closed));
}

#[test]
fn popup_takes_keys_until_cancelled() {
    let mut home = loaded_home();
    home.update(Action::CmdAddProject);
    assert!(home.is_capturing_input());
    assert_eq!(home.handle_key_event(Key::Char('n')), None);
    assert!(home.is_capturing_input());
    assert_eq!(home.handle_key_event(Key::Esc), None);
    assert!(!home.is_capturing_input());
}

#[test]
fn popup_submission_gives_its_action() {
    let mut home = loaded_home();
    home.update(Action::CmdEdit);
    for _ in 0..5 {
        home.handle_key_event(Key::Backspace);
    }
    for c in "beta".chars() {
        home.handle_key_event(Key::Char(c));
    }
    match home.handle_key_event(Key::Enter) {
        Some(Action::UpdateProject(p)) => {
            assert_eq!(p.id, 1);
            assert_eq!(p.name, "beta");
            assert_eq!(p.path, "/alpha");
        }
        _ => panic!("expected an update of the project"),
    }
    assert!(matches!(home.popup_state, PopupState::Closed));
}

#[test]
fn attach_remembers_two_sessions_and_goes_back() {
    let mut home = loaded_home();
    home.selected = Some(0);
    assert!(home.update(Action::CmdAttach).is_none());
    home.selected = Some(1);
    match home.update(Action::CmdAttach) {
        Some(Action::AttachSession(s)) => assert_eq!(s.id, 10),
        _ => panic!("expected an attach"),
    }
    home.selected = Some(6);
    match home.update(Action::CmdAttach) {
        Some(Action::AttachSession(s)) => assert_eq!(s.id, 31),
        _ => panic!("expected an attach"),
    }
    home.selected = Some(4);
    home.update(Action::CmdAttach);
    assert_eq!(home.session_history.len(), 2);
    assert_eq!(home.session_history[0].id, 31);
    assert_eq!(home.session_history[1].id, 20);
    home.update(Action::CmdSelectPrevSession);
    assert_eq!(home.selected, Some(6));
}

#[test]
fn going_back_without_history_keeps_the_selection() {
    let mut home = loaded_home();
    home.selected = Some(3);
    home.update(Action::CmdSelectPrevSession);
    assert_eq!(home.selected, Some(3));
}

#[test]
fn help_lists_the_bindings() {
    let mut home = Home::new();
    let bindings = KeyBindings {
        bindings: vec![
            (vec![KeyPress::plain(Key::Char('q'))], Action::Quit),
            (
                vec![KeyPress { key: Key::Char('c'), ctrl: true, alt: false, shift: false }],
                Action::Quit,
            ),
            (vec![KeyPress::plain(Key::Char('g')), KeyPress::plain(Key::Char('g'))], Action::CmdJumpTop),
            (vec![KeyPress::plain(Key::Char(' ')), KeyPress::plain(Key::Char('p'))], Action::CmdAddProject),
        ],
    };
    home.register_config_handler(&bindings);
    assert_eq!(
        home.keymaps,
        vec![
            (String::from("q"), String::from("Quit")),
            (String::from("ctrl-c"), String::from("Quit")),
            (String::from("g g"), String::from("CmdJumpTop")),
            (String::from("space p"), String::from("CmdAddProject")),
        ]
    );
    home.update(Action::Help);
    match &home.popup_state {
        PopupState::Open(Popup::Help(h)) => {
            assert_eq!(
                h.rows(),
                vec![
                    (String::from("q, ctrl-c"), String::from("Quit")),
                    (String::from("g g"), String::from("CmdJumpTop")),
                    (String::from("space p"), String::from("CmdAddProject")),
                ]
            );
        }
        _ => panic!("expected the help"),
    }
    assert_eq!(home.handle_key_event(Key::Char('q')), None);
    assert!(matches!(home.popup_state, PopupState::Closed));
}

#[test]
fn substring_search() {
    assert!(contains_str("hello", "ell"));
    assert!(contains_str("hello", ""));
    assert!(contains_str("héllo", "él"));
    assert!(!contains_str("hel", "hello"));
    assert!(!contains_str("hello", "lol"));
}

#[test]
fn escape_closes_every_popup() {
    let mut home = loaded_home();
    let openers = [
        (Some(0), Action::Help),
        (Some(0), Action::CmdAddProject),
        (Some(0), Action::CmdAddSession),
        (Some(5), Action::CmdAddSession),
        (Some(0), Action::CmdEdit),
        (Some(1), Action::CmdEdit),
        (Some(0), Action::CmdDeleteItem),
        (Some(1), Action::CmdDeleteItem),
        (Some(5), Action::CmdDeleteItem),
    ];
    for (selected, action) in openers {
        home.selected = selected;
        home.update(action);
        assert!(matches!(home.popup_state, PopupState::Open(_)));
        assert_eq!(home.handle_key_event(Key::Esc), None);
        assert!(matches!(home.popup_state, PopupState::Closed));
    }
}

#[test]
fn lines_are_shown_indented_by_kind() {
    let (projects, sessions) = sample();
    let list = build_list(&projects, &sessions);
    let shown: Vec<String> = list.iter().map(entry_line).collect();
    assert_eq!(
        shown,
        vec![
            " - alpha",
            "     a-one",
            "     a-two",
            " - zeta",
            "     z-one",
            "     [worktree] (main) /zeta",
            " loose-a",
            " loose-b",
        ]
    );
}
