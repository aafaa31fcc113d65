use earthworm::action::{Action, Mode};
use earthworm::control::{Control, LoopStep};
use earthworm::form::input::{FormInput, InputValidation, TextRule};
use earthworm::form::widget::FormInputState;
use earthworm::state::should_fetch_worktrees;
use earthworm::key::{Key, KeyPress};
use earthworm::keybindings::{key_label_string, keys_label_string, same_keys, KeyBindings};
use earthworm::notification::{Notification, DEFAULT_TICK_DURATION};
use earthworm::order::{name_le_exec, sort_by_name};
use earthworm::popups::{
    make_question, EditSessionPopup, HelpPopup, NewProjectPopup, NewSessionFromWorktreePopup, NewSessionPopup,
    PopupOutcome, RemoveProjectPopup, RemoveSessionPopup, RemoveWorktreePopup,
};
use earthworm::project::Project;
use earthworm::session::Session;
use earthworm::text::{char_count, insert_char, lines, remove_char};
use earthworm::worktree::Worktree;

fn press(c: char) -> KeyPress {
    KeyPress::plain(Key::Char(c))
}

fn bindings() -> KeyBindings {
    KeyBindings {
        bindings: vec![
            (vec![press('q')], Action::Quit),
            (vec![press('g'), press('g')], Action::CmdJumpTop),
            (vec![press(' '), press('p')], Action::CmdAddProject),
        ],
    }
}

#[test]
fn notification_shows_an_error_for_its_duration() {
    let mut n = Notification::new();
    assert!(!n.is_capturing_input());
    assert!(n.update(Action::Error(String::from("boom"))).is_none());
    assert_eq!(n.msg.as_deref(), Some("boom"));
    assert_eq!(n.ticks_remaining, DEFAULT_TICK_DURATION);
    for _ in 0..(DEFAULT_TICK_DURATION - 1) {
        n.update(Action::Tick);
    }
    assert_eq!(n.msg.as_deref(), Some("boom"));
    assert_eq!(n.ticks_remaining, 1);
    n.update(Action::Tick);
    assert_eq!(n.msg, None);
    assert_eq!(n.ticks_remaining, 0);
    n.update(Action::Render);
    assert_eq!(n.msg, None);
}

#[test]
fn keys_resolve_alone_or_in_sequence() {
    let b = bindings();
    let mut c = Control::new();
    assert_eq!(c.handle_key_event(false, &b, press('q')), Some(0));
    assert!(c.pending_keys.is_empty());
    assert_eq!(c.handle_key_event(false, &b, press('g')), None);
    assert_eq!(c.handle_key_event(false, &b, press('g')), Some(1));
    assert_eq!(c.pending_keys.len(), 2);
    c.handle_action(&Action::Tick);
    assert!(c.pending_keys.is_empty());
    assert_eq!(c.handle_key_event(true, &b, press('q')), None);
    assert_eq!(c.handle_key_event(false, &b, press(' ')), None);
    assert_eq!(c.handle_key_event(false, &b, press('p')), Some(2));
    assert_eq!(b.find(&vec![press('x')]), None);
    assert!(same_keys(&vec![press('a')], &vec![press('a')]));
    assert!(!same_keys(&vec![press('a')], &vec![press('a'), press('a')]));
}

#[test]
fn control_decides_the_loop() {
    let mut c = Control::new();
    assert!(matches!(c.next_step(), LoopStep::Continue));
    c.handle_action(&Action::Quit);
    assert!(matches!(c.next_step(), LoopStep::Quit));
    c.handle_action(&Action::Suspend);
    assert!(matches!(c.next_step(), LoopStep::Suspend));
    c.handle_action(&Action::Resume);
    assert!(matches!(c.next_step(), LoopStep::Quit));
}

#[test]
fn key_labels() {
    assert_eq!(key_label_string(press('a')), "a");
    assert_eq!(key_label_string(press(' ')), "space");
    assert_eq!(key_label_string(KeyPress { key: Key::Char('G'), ctrl: false, alt: false, shift: true }), "shift-G");
    assert_eq!(key_label_string(KeyPress { key: Key::Enter, ctrl: true, alt: true, shift: true }), "ctrl-shift-alt-enter");
    assert_eq!(key_label_string(KeyPress::plain(Key::Esc)), "esc");
    assert_eq!(keys_label_string(&vec![press('g'), press('g')]), "g g");
    assert_eq!(keys_label_string(&vec![]), "");
}

#[test]
fn action_names_and_mode() {
    assert_eq!(Action::CmdJumpTop.name(), "CmdJumpTop");
    assert_eq!(Action::Error(String::from("x")).name(), "Error");
    assert_eq!(Action::Resize(1, 2).name(), "Resize");
    assert!(Mode::default() == Mode::Home);
}

#[test]
fn input_validation_rules() {
    let non_empty = InputValidation::Text(vec![TextRule::NonEmpty]);
    assert!(non_empty.is_satisfied_by("x"));
    assert!(!non_empty.is_satisfied_by(""));
    let one_of = InputValidation::Text(vec![TextRule::OneOf(vec![String::from("a"), String::from("b")])]);
    assert!(one_of.is_satisfied_by("b"));
    assert!(one_of.is_satisfied_by(""));
    assert!(!one_of.is_satisfied_by("c"));
    assert!(InputValidation::Boolean.is_satisfied_by("true"));
    assert!(InputValidation::Boolean.is_satisfied_by("false"));
    assert!(!InputValidation::Boolean.is_satisfied_by("yes"));
}

#[test]
fn text_helpers() {
    assert_eq!(lines("a\r\nb\n\nc"), vec!["a", "b", "", "c"]);
    assert_eq!(lines(""), Vec::<String>::new());
    assert_eq!(insert_char("héllo", 2, 'x'), "héxllo");
    assert_eq!(insert_char("ab", 9, 'c'), "abc");
    assert_eq!(remove_char("héllo", 1), "hllo");
    assert_eq!(char_count("héllo"), 5);
}

#[test]
fn names_sort_by_code_point() {
    assert!(name_le_exec("abc", "abd"));
    assert!(name_le_exec("ab", "abc"));
    assert!(!name_le_exec("b", "abc"));
    assert!(name_le_exec("Z", "a"));
    let sorted = sort_by_name(vec![
        (String::from("pear"), 1),
        (String::from("apple"), 2),
        (String::from("fig"), 3),
        (String::from("apple"), 4),
    ]);
    let names: Vec<&str> = sorted.iter().map(|p| p.0.as_str()).collect();
    assert_eq!(names, vec!["apple", "apple", "fig", "pear"]);
    let mut keys: Vec<u128> = sorted.iter().map(|p| p.1).collect();
    keys.sort();
    assert_eq!(keys, vec![1, 2, 3, 4]);
}

fn project() -> Project {
    Project { id: 7, name: String::from("proj"), path: String::from("/repo"), sessions: vec![], worktrees: vec![] }
}

fn session() -> Session {
    Session { id: 8, project_id: Some(7), name: String::from("sess"), path: None, worktree: None }
}

#[test]
fn new_project_popup_submits_a_project() {
    let mut popup = NewProjectPopup::new();
    assert_eq!(popup.form.title, "New Project");
    for c in "web".chars() {
        assert!(matches!(popup.handle_key(Key::Char(c)), PopupOutcome::Pending));
    }
    popup.handle_key(Key::Tab);
    for c in "/src/web".chars() {
        popup.handle_key(Key::Char(c));
    }
    match popup.handle_key(Key::Enter) {
        PopupOutcome::Submitted(Action::SubmitProject(p)) => {
            assert_eq!(p.name, "web");
            assert_eq!(p.path, "/src/web");
            assert!(p.sessions.is_empty());
            assert!(p.worktrees.is_empty());
        }
        _ => panic!("expected a new project"),
    }
    assert!(matches!(popup.handle_key(Key::Esc), PopupOutcome::Cancelled));
}

#[test]
fn new_session_popup_submits_a_loose_session() {
    let mut popup = NewSessionPopup::new();
    for c in "s1".chars() {
        popup.handle_key(Key::Char(c));
    }
    popup.handle_key(Key::Down);
    for c in "/tmp".chars() {
        popup.handle_key(Key::Char(c));
    }
    match popup.handle_key(Key::Enter) {
        PopupOutcome::Submitted(Action::SubmitSession(s)) => {
            assert_eq!(s.name, "s1");
            assert_eq!(s.path.as_deref(), Some("/tmp"));
            assert_eq!(s.project_id, None);
            assert!(s.worktree.is_none());
        }
        _ => panic!("expected a new session"),
    }
}

#[test]
fn worktree_session_popup_starts_on_the_branch_name() {
    let w = Worktree { name: String::from("feat"), path: String::from("/repo-feat") };
    let mut popup = NewSessionFromWorktreePopup::new(&project(), &w);
    assert_eq!(popup.form.focused, 1);
    assert_eq!(popup.form.form_input_states[0].value, "proj");
    assert_eq!(popup.form.form_input_states[1].value, "feat");
    popup.handle_key(Key::Char('2'));
    match popup.handle_key(Key::Enter) {
        PopupOutcome::Submitted(Action::SubmitSession(s)) => {
            assert_eq!(s.name, "feat2");
            assert_eq!(s.project_id, Some(7));
            assert_eq!(s.path.as_deref(), Some("/repo-feat"));
            assert_eq!(s.worktree, Some(w));
        }
        _ => panic!("expected a new session"),
    }
}

#[test]
fn edit_session_popup_renames() {
    let mut popup = EditSessionPopup::new(session());
    popup.handle_key(Key::Char('!'));
    match popup.handle_key(Key::Enter) {
        PopupOutcome::Submitted(Action::UpdateSession(s)) => {
            assert_eq!(s.name, "sess!");
            assert_eq!(s.id, 8);
        }
        _ => panic!("expected an update"),
    }
}

#[test]
fn confirmation_popups_ask_and_answer() {
    assert_eq!(make_question("Remove ", "x"), "Remove \"x\"?");
    let mut rp = RemoveProjectPopup::new(project());
    assert_eq!(rp.form.body, "Remove \"proj\"?");
    assert!(matches!(rp.handle_key(Key::Char('x')), PopupOutcome::Pending));
    match rp.handle_key(Key::Char('y')) {
        PopupOutcome::Submitted(Action::RemoveProject(p)) => assert_eq!(p.id, 7),
        _ => panic!("expected a removal"),
    }
    let mut rs = RemoveSessionPopup::new(session());
    assert_eq!(rs.form.title, "Kill Session");
    assert!(matches!(rs.handle_key(Key::Char('n')), PopupOutcome::Cancelled));
    let w = Worktree { name: String::from("feat"), path: String::from("/repo-feat") };
    let mut rw = RemoveWorktreePopup::new(w, project());
    assert_eq!(rw.form.body, "Remove \"feat\"?");
    assert!(matches!(rw.handle_key(Key::Enter), PopupOutcome::Pending));
    match rw.handle_key(Key::Char('y')) {
        PopupOutcome::Submitted(Action::RemoveWorktree(p, w)) => {
            assert_eq!(p.id, 7);
            assert_eq!(w.path, "/repo-feat");
        }
        _ => panic!("expected a worktree removal"),
    }
}

#[test]
fn help_popup_closes_on_q_or_escape() {
    let mut help = HelpPopup::new(vec![]);
    assert!(matches!(help.handle_key(Key::Char('x')), PopupOutcome::Pending));
    assert!(matches!(help.handle_key(Key::Char('q')), PopupOutcome::Cancelled));
    assert!(matches!(help.handle_key(Key::Esc), PopupOutcome::Cancelled));
    assert!(help.rows().is_empty());
}

#[test]
fn ticks_after_the_message_is_gone_change_nothing() {
    let mut n = Notification::new();
    n.update(Action::Error(String::from("boom")));
    for _ in 0..DEFAULT_TICK_DURATION {
        n.update(Action::Tick);
    }
    assert_eq!(n.msg, None);
    for _ in 0..120 {
        assert!(n.update(Action::Tick).is_none());
        assert_eq!(n.msg, None);
        assert_eq!(n.ticks_remaining, 0);
    }
}

#[test]
fn is_text_exactly_when_required_was_called() {
    assert!(!FormInput::new().label(String::from("a")).initial_value(String::from("b")).readonly().is_text());
    assert!(FormInput::new().readonly().required().label(String::from("a")).is_text());
    assert!(FormInput::new().required().required().is_text());
    assert!(!FormInput::new().is_text());
}

fn required_text(state: &FormInputState) -> bool {
    let v = &state.form_input.input_validations;
    v.len() == 1 && matches!(&v[0], InputValidation::Text(rules) if rules.len() == 1 && matches!(rules[0], TextRule::NonEmpty))
}

fn fresh(state: &FormInputState, label: &str, value: &str, required: bool, readonly: bool) -> bool {
    state.form_input.label == label
        && state.form_input.initial_value == value
        && state.value == value
        && state.cursor_position == value.chars().count()
        && !state.is_valid
        && !state.hidden
        && state.form_input.dependant_on.is_none()
        && state.form_input.readonly == readonly
        && (if required { required_text(state) } else { state.form_input.input_validations.is_empty() })
}

#[test]
fn popup_constructors_make_fresh_forms() {
    let p = NewProjectPopup::new();
    assert_eq!(p.form.focused, 0);
    assert_eq!(p.form.body, "");
    assert!(fresh(&p.form.form_input_states[0], "Name", "", true, false));
    assert!(fresh(&p.form.form_input_states[1], "Path", "", true, false));
    let s = NewSessionPopup::new();
    assert_eq!(s.form.title, "New Session");
    assert_eq!(s.form.focused, 0);
    assert!(fresh(&s.form.form_input_states[0], "Name", "", true, false));
    assert!(fresh(&s.form.form_input_states[1], "Path", "", true, false));
    let e = EditSessionPopup::new(session());
    assert!(fresh(&e.form.form_input_states[0], "Name", "sess", true, false));
    let w = Worktree { name: String::from("feat"), path: String::from("/repo-feat") };
    let f = NewSessionFromWorktreePopup::new(&project(), &w);
    assert!(fresh(&f.form.form_input_states[0], "Project", "proj", false, true));
    assert!(fresh(&f.form.form_input_states[1], "Name", "feat", true, false));
}

#[test]
fn worktrees_are_fetched_only_for_projects_with_a_path() {
    assert!(should_fetch_worktrees(&project()));
    let mut p = project();
    p.path = String::new();
    assert!(!should_fetch_worktrees(&p));
}
