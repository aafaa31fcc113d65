use vstd::prelude::*;
use vstd::string::*;

use crate::action::Action;
use crate::form::input::{FormInput, InputValidation, TextRule};
use crate::form::widget::{standard_event, confirmation_event, lemma_standard_key_keeps_focus, Form, FormEvent, FormInputState, FormType};
use crate::ids::fresh_id;
use crate::key::Key;
use crate::project::{Project, ProjectView};
use crate::session::{Session, SessionView};
use crate::worktree::Worktree;

verus! {

/// What a popup did with a key: nothing final yet, an action to carry out, or it was
/// dismissed.
pub enum PopupOutcome {
    Pending,
    Submitted(Action),
    Cancelled,
}

/// `prefix`, then `name` in double quotes, then a question mark.
pub open spec fn question(prefix: Seq<char>, name: Seq<char>) -> Seq<char> {
    prefix + seq!['"'] + name + seq!['"', '?']
}

/// `prefix`, then `name` in double quotes, then a question mark.
pub fn make_question(prefix: &str, name: &str) -> (res: String)
    ensures
        res@ == question(prefix@, name@),
{
    let mut s = String::from_str(prefix);
    s.push('"');
    s.append(name);
    s.push('"');
    s.push('?');
    assert(s@ =~= question(prefix@, name@));
    s
}

/// A form of inputs whose focus is on one of its `n` inputs.
pub open spec fn input_form(form: Form, n: nat) -> bool {
    &&& form.form_type == FormType::Standard
    &&& form.form_input_states@.len() == n
    &&& form.focused < n
}

/// `st` is an input state as a new form makes it: labelled `label`, starting at and holding
/// `value` with the cursor at its end, not yet validated, shown, depending on no other
/// input, read-only as `readonly` says, and with one validation, non-empty text, when
/// `required`, and none otherwise.
pub open spec fn fresh_input(st: FormInputState, label: Seq<char>, value: Seq<char>, required: bool, readonly: bool) -> bool {
    &&& st.form_input.label@ == label
    &&& st.form_input.initial_value@ == value
    &&& st.value@ == value
    &&& st.cursor_position == value.len()
    &&& !st.is_valid
    &&& !st.hidden
    &&& st.form_input.dependant_on is None
    &&& st.form_input.readonly == readonly
    &&& if required {
        &&& st.form_input.input_validations@.len() == 1
        &&& st.form_input.input_validations@[0] matches InputValidation::Text(rules) && rules@ == seq![TextRule::NonEmpty]
    } else {
        st.form_input.input_validations@.len() == 0
    }
}

/// A form of inputs with the given title, no body, and its focus on input `focused`.
pub open spec fn fresh_form(form: Form, title: Seq<char>, n: nat, focused: usize) -> bool {
    &&& input_form(form, n)
    &&& form.title@ == title
    &&& form.body@ == Seq::<char>::empty()
    &&& form.focused == focused
}

/// A yes/no form.
pub open spec fn question_form(form: Form) -> bool {
    form.form_type == FormType::Confirmation
}

/// Reads `key` in a form of `n` inputs, keeping it such a form.
fn read_input_key(form: &mut Form, key: Key, Ghost(n): Ghost<nat>) -> (event: FormEvent)
    requires
        input_form(*old(form), n),
    ensures
        input_form(*final(form), n),
        Form::standard_key_effect(*old(form), key, *final(form), event),
        event == standard_event(key),
{
    let event = form.handle_key(key);
    proof {
        lemma_standard_key_keeps_focus(*old(form), key, *final(form), event);
    }
    event
}

/// The form that asks for a new project.
pub struct NewProjectPopup {
    pub form: Form,
}

impl NewProjectPopup {
    pub open spec fn wf(&self) -> bool {
        input_form(self.form, 2)
    }

    /// Whether this is the popup `new` makes from the given arguments.
    pub open spec fn is_new(&self) -> bool {
        &&& self.wf()
        &&& fresh_form(self.form, "New Project"@, 2, 0)
        &&& fresh_input(self.form.form_input_states@[0], "Name"@, Seq::<char>::empty(), true, false)
        &&& fresh_input(self.form.form_input_states@[1], "Path"@, Seq::<char>::empty(), true, false)
    }

    /// A form titled "New Project" asking for a name and a path, both required.
    pub fn new() -> (res: NewProjectPopup)
        ensures
            res.is_new(),
    {
        let inputs = vec![FormInput::new().label(String::from_str("Name")).required(), FormInput::new().label(String::from_str("Path")).required()];
        let form = Form::standard().title("New Project").inputs(inputs);
        assert(form.form_input_states@[0].form_input.input_validations@.last() is Text);
        assert(form.form_input_states@[1].form_input.input_validations@.last() is Text);
        NewProjectPopup { form }
    }

    /// What reading `key` does: `old` becomes `new` and `res` is the outcome.
    pub open spec fn step(old: Self, key: Key, new: Self, res: PopupOutcome) -> bool {
        &&& new.wf()
        &&& Form::standard_key_effect(old.form, key, new.form, standard_event(key))
        &&& (match standard_event(key) {
            FormEvent::Submit => res matches PopupOutcome::Submitted(Action::SubmitProject(p)) && {
                &&& p.name@ == new.form.form_input_states@[0].value@
                &&& p.path@ == new.form.form_input_states@[1].value@
                &&& p.sessions@.len() == 0
                &&& p.worktrees@.len() == 0
            },
            FormEvent::Cancel => res is Cancelled,
            FormEvent::Continue => res is Pending,
        })
    }

    /// Reads a key in the form; on submit, asks to add a project with a new id and the
    /// entered name and path, with no sessions and no worktrees.
    pub fn handle_key(&mut self, key: Key) -> (res: PopupOutcome)
        requires
            old(self).wf(),
        ensures
            Self::step(*old(self), key, *final(self), res),
    {
        match read_input_key(&mut self.form, key, Ghost(2)) {
            FormEvent::Submit => {
                let project = Project {
                    id: fresh_id(),
                    name: self.form.value(0),
                    path: self.form.value(1),
                    sessions: Vec::new(),
                    worktrees: Vec::new(),
                };
                PopupOutcome::Submitted(Action::SubmitProject(project))
            },
            FormEvent::Cancel => PopupOutcome::Cancelled,
            FormEvent::Continue => PopupOutcome::Pending,
        }
    }
}

/// The form that edits a project's name and path.
pub struct EditProjectPopup {
    pub form: Form,
    pub project: Project,
}

impl EditProjectPopup {
    pub open spec fn wf(&self) -> bool {
        input_form(self.form, 2)
    }

    /// Whether this is the popup `new` makes from the given arguments.
    pub open spec fn is_new(&self, project: Project) -> bool {
        &&& self.wf()
        &&& self.project == project
        &&& fresh_form(self.form, "Edit Project"@, 2, 0)
        &&& fresh_input(self.form.form_input_states@[0], "Name"@, project.name@, true, false)
        &&& fresh_input(self.form.form_input_states@[1], "Path"@, project.path@, true, false)
    }

    /// A form titled "Edit Project" holding the project's name and path, both required.
    pub fn new(project: Project) -> (res: EditProjectPopup)
        ensures
            res.is_new(project),
    {
        let inputs = vec![
            FormInput::new().label(String::from_str("Name")).initial_value(project.name.clone()).required(),
            FormInput::new().label(String::from_str("Path")).initial_value(project.path.clone()).required(),
        ];
        let form = Form::standard().title("Edit Project").inputs(inputs);
        EditProjectPopup { form, project }
    }

    /// What reading `key` does: `old` becomes `new` and `res` is the outcome.
    pub open spec fn step(old: Self, key: Key, new: Self, res: PopupOutcome) -> bool {
        &&& new.wf()
        &&& new.project == old.project
        &&& Form::standard_key_effect(old.form, key, new.form, standard_event(key))
        &&& (match standard_event(key) {
            FormEvent::Submit => res matches PopupOutcome::Submitted(Action::UpdateProject(p)) && p@ == (ProjectView {
                name: new.form.form_input_states@[0].value@,
                path: new.form.form_input_states@[1].value@,
                ..old.project@
            }),
            FormEvent::Cancel => res is Cancelled,
            FormEvent::Continue => res is Pending,
        })
    }

    /// Reads a key in the form; on submit, asks to update the project with the entered
    /// name and path.
    pub fn handle_key(&mut self, key: Key) -> (res: PopupOutcome)
        requires
            old(self).wf(),
        ensures
            Self::step(*old(self), key, *final(self), res),
    {
        match read_input_key(&mut self.form, key, Ghost(2)) {
            FormEvent::Submit => {
                let mut project = self.project.clone();
                project.name = self.form.value(0);
                project.path = self.form.value(1);
                PopupOutcome::Submitted(Action::UpdateProject(project))
            },
            FormEvent::Cancel => PopupOutcome::Cancelled,
            FormEvent::Continue => PopupOutcome::Pending,
        }
    }
}

/// The form that renames a session.
pub struct EditSessionPopup {
    pub form: Form,
    pub session: Session,
}

impl EditSessionPopup {
    pub open spec fn wf(&self) -> bool {
        input_form(self.form, 1)
    }

    /// Whether this is the popup `new` makes from the given arguments.
    pub open spec fn is_new(&self, session: Session) -> bool {
        &&& self.wf()
        &&& self.session == session
        &&& fresh_form(self.form, "Edit Session"@, 1, 0)
        &&& fresh_input(self.form.form_input_states@[0], "Name"@, session.name@, true, false)
    }

    /// A form titled "Edit Session" holding the session's name, required.
    pub fn new(session: Session) -> (res: EditSessionPopup)
        ensures
            res.is_new(session),
    {
        let inputs = vec![FormInput::new().label(String::from_str("Name")).initial_value(session.name.clone()).required()];
        let form = Form::standard().title("Edit Session").inputs(inputs);
        EditSessionPopup { form, session }
    }

    /// What reading `key` does: `old` becomes `new` and `res` is the outcome.
    pub open spec fn step(old: Self, key: Key, new: Self, res: PopupOutcome) -> bool {
        &&& new.wf()
        &&& new.session == old.session
        &&& Form::standard_key_effect(old.form, key, new.form, standard_event(key))
        &&& (match standard_event(key) {
            FormEvent::Submit => res matches PopupOutcome::Submitted(Action::UpdateSession(s)) && s@ == (SessionView {
                name: new.form.form_input_states@[0].value@,
                ..old.session@
            }),
            FormEvent::Cancel => res is Cancelled,
            FormEvent::Continue => res is Pending,
        })
    }

    /// Reads a key in the form; on submit, asks to update the session with the entered
    /// name.
    pub fn handle_key(&mut self, key: Key) -> (res: PopupOutcome)
        requires
            old(self).wf(),
        ensures
            Self::step(*old(self), key, *final(self), res),
    {
        match read_input_key(&mut self.form, key, Ghost(1)) {
            FormEvent::Submit => {
                let mut session = self.session.clone();
                session.name = self.form.value(0);
                PopupOutcome::Submitted(Action::UpdateSession(session))
            },
            FormEvent::Cancel => PopupOutcome::Cancelled,
            FormEvent::Continue => PopupOutcome::Pending,
        }
    }
}

/// The form that asks for a new session without a project.
pub struct NewSessionPopup {
    pub form: Form,
}

impl NewSessionPopup {
    pub open spec fn wf(&self) -> bool {
        input_form(self.form, 2)
    }

    /// Whether this is the popup `new` makes from the given arguments.
    pub open spec fn is_new(&self) -> bool {
        &&& self.wf()
        &&& fresh_form(self.form, "New Session"@, 2, 0)
        &&& fresh_input(self.form.form_input_states@[0], "Name"@, Seq::<char>::empty(), true, false)
        &&& fresh_input(self.form.form_input_states@[1], "Path"@, Seq::<char>::empty(), true, false)
    }

    /// A form titled "New Session" asking for a name and a path, both required.
    pub fn new() -> (res: NewSessionPopup)
        ensures
            res.is_new(),
    {
        let inputs = vec![FormInput::new().label(String::from_str("Name")).required(), FormInput::new().label(String::from_str("Path")).required()];
        let form = Form::standard().title("New Session").inputs(inputs);
        NewSessionPopup { form }
    }

    /// What reading `key` does: `old` becomes `new` and `res` is the outcome.
    pub open spec fn step(old: Self, key: Key, new: Self, res: PopupOutcome) -> bool {
        &&& new.wf()
        &&& Form::standard_key_effect(old.form, key, new.form, standard_event(key))
        &&& (match standard_event(key) {
            FormEvent::Submit => res matches PopupOutcome::Submitted(Action::SubmitSession(s)) && {
                &&& s.project_id is None
                &&& s.name@ == new.form.form_input_states@[0].value@
                &&& s@.path == Some(new.form.form_input_states@[1].value@)
                &&& s.worktree is None
            },
            FormEvent::Cancel => res is Cancelled,
            FormEvent::Continue => res is Pending,
        })
    }

    /// Reads a key in the form; on submit, asks to create a session with a new id, no
    /// project, the entered name and path, and no worktree.
    pub fn handle_key(&mut self, key: Key) -> (res: PopupOutcome)
        requires
            old(self).wf(),
        ensures
            Self::step(*old(self), key, *final(self), res),
    {
        match read_input_key(&mut self.form, key, Ghost(2)) {
            FormEvent::Submit => {
                let session = Session {
                    id: fresh_id(),
                    project_id: None,
                    name: self.form.value(0),
                    path: Some(self.form.value(1)),
                    worktree: None,
                };
                PopupOutcome::Submitted(Action::SubmitSession(session))
            },
            FormEvent::Cancel => PopupOutcome::Cancelled,
            FormEvent::Continue => PopupOutcome::Pending,
        }
    }
}

/// The form that creates a session for an existing worktree of a project.
pub struct NewSessionFromWorktreePopup {
    pub form: Form,
    pub project: Project,
    pub worktree: Worktree,
}

impl NewSessionFromWorktreePopup {
    pub open spec fn wf(&self) -> bool {
        input_form(self.form, 2)
    }

    /// Whether this is the popup `new` makes from the given arguments.
    pub open spec fn is_new(&self, project: Project, worktree: Worktree) -> bool {
        &&& self.wf()
        &&& self.project@ == project@
        &&& self.worktree@ == worktree@
        &&& fresh_form(self.form, "New Session from Worktree"@, 2, 1)
        &&& fresh_input(self.form.form_input_states@[0], "Project"@, project.name@, false, true)
        &&& fresh_input(self.form.form_input_states@[1], "Name"@, worktree.name@, true, false)
    }

    /// A form titled "New Session from Worktree" showing the project's name (read-only)
    /// and asking for a name, starting at the worktree's branch name; the focus is on the
    /// name.
    pub fn new(project: &Project, worktree: &Worktree) -> (res: NewSessionFromWorktreePopup)
        ensures
            res.is_new(*project, *worktree),
    {
        let inputs = vec![
            FormInput::new().label(String::from_str("Project")).initial_value(project.name.clone()).readonly(),
            FormInput::new().label(String::from_str("Name")).initial_value(worktree.name.clone()).required(),
        ];
        let ghost gi = inputs@;
        let form = Form::standard().title("New Session from Worktree").inputs(inputs);
        assert(!gi[1].readonly);
        assert(gi[0].readonly);
        NewSessionFromWorktreePopup { form, project: project.clone(), worktree: worktree.clone() }
    }

    /// What reading `key` does: `old` becomes `new` and `res` is the outcome.
    pub open spec fn step(old: Self, key: Key, new: Self, res: PopupOutcome) -> bool {
        &&& new.wf()
        &&& new.project == old.project
        &&& new.worktree == old.worktree
        &&& Form::standard_key_effect(old.form, key, new.form, standard_event(key))
        &&& (match standard_event(key) {
            FormEvent::Submit => res matches PopupOutcome::Submitted(Action::SubmitSession(s)) && {
                &&& s.project_id == Some(old.project.id)
                &&& s.name@ == new.form.form_input_states@[1].value@
                &&& s@.path == Some(old.worktree.path@)
                &&& s@.worktree == Some(old.worktree@)
            },
            FormEvent::Cancel => res is Cancelled,
            FormEvent::Continue => res is Pending,
        })
    }

    /// Reads a key in the form; on submit, asks to create a session with a new id in the
    /// project, with the entered name, at the worktree's path, made for the worktree.
    pub fn handle_key(&mut self, key: Key) -> (res: PopupOutcome)
        requires
            old(self).wf(),
        ensures
            Self::step(*old(self), key, *final(self), res),
    {
        match read_input_key(&mut self.form, key, Ghost(2)) {
            FormEvent::Submit => {
                let worktree = self.worktree.clone();
                let session = Session {
                    id: fresh_id(),
                    project_id: Some(self.project.id),
                    name: self.form.value(1),
                    path: Some(worktree.path.clone()),
                    worktree: Some(worktree),
                };
                PopupOutcome::Submitted(Action::SubmitSession(session))
            },
            FormEvent::Cancel => PopupOutcome::Cancelled,
            FormEvent::Continue => PopupOutcome::Pending,
        }
    }
}

/// The yes/no form that removes a project.
pub struct RemoveProjectPopup {
    pub form: Form,
    pub project: Project,
}

impl RemoveProjectPopup {
    pub open spec fn wf(&self) -> bool {
        question_form(self.form)
    }

    /// Whether this is the popup `new` makes from the given arguments.
    pub open spec fn is_new(&self, project: Project) -> bool {
        &&& self.wf()
        &&& self.project == project
        &&& self.form.title@ == "Remove Project"@
        &&& self.form.body@ == question("Remove "@, project.name@)
    }

    /// A yes/no form titled "Remove Project" asking `Remove "<name>"?`.
    pub fn new(project: Project) -> (res: RemoveProjectPopup)
        ensures
            res.is_new(project),
    {
        let body = make_question("Remove ", project.name.as_str());
        let form = Form::confirmation().title("Remove Project").body(body);
        RemoveProjectPopup { form, project }
    }

    /// What reading `key` does: `old` becomes `new` and `res` is the outcome.
    pub open spec fn step(old: Self, key: Key, new: Self, res: PopupOutcome) -> bool {
        &&& new == old
        &&& (match confirmation_event(key) {
            FormEvent::Submit => res matches PopupOutcome::Submitted(Action::RemoveProject(p)) && p@ == old.project@,
            FormEvent::Cancel => res is Cancelled,
            FormEvent::Continue => res is Pending,
        })
    }

    /// Reads a key: `y` asks to remove the project, `n` or Esc dismisses.
    pub fn handle_key(&mut self, key: Key) -> (res: PopupOutcome)
        requires
            old(self).wf(),
        ensures
            Self::step(*old(self), key, *final(self), res),
    {
        match self.form.handle_key(key) {
            FormEvent::Submit => PopupOutcome::Submitted(Action::RemoveProject(self.project.clone())),
            FormEvent::Cancel => PopupOutcome::Cancelled,
            FormEvent::Continue => PopupOutcome::Pending,
        }
    }
}

/// The yes/no form that ends a session.
pub struct RemoveSessionPopup {
    pub form: Form,
    pub session: Session,
}

impl RemoveSessionPopup {
    pub open spec fn wf(&self) -> bool {
        question_form(self.form)
    }

    /// Whether this is the popup `new` makes from the given arguments.
    pub open spec fn is_new(&self, session: Session) -> bool {
        &&& self.wf()
        &&& self.session == session
        &&& self.form.title@ == "Kill Session"@
        &&& self.form.body@ == question("Kill "@, session.name@)
    }

    /// A yes/no form titled "Kill Session" asking `Kill "<name>"?`.
    pub fn new(session: Session) -> (res: RemoveSessionPopup)
        ensures
            res.is_new(session),
    {
        let body = make_question("Kill ", session.name.as_str());
        let form = Form::confirmation().title("Kill Session").body(body);
        RemoveSessionPopup { form, session }
    }

    /// What reading `key` does: `old` becomes `new` and `res` is the outcome.
    pub open spec fn step(old: Self, key: Key, new: Self, res: PopupOutcome) -> bool {
        &&& new == old
        &&& (match confirmation_event(key) {
            FormEvent::Submit => res matches PopupOutcome::Submitted(Action::RemoveSession(s)) && s@ == old.session@,
            FormEvent::Cancel => res is Cancelled,
            FormEvent::Continue => res is Pending,
        })
    }

    /// Reads a key: `y` asks to end the session, `n` or Esc dismisses.
    pub fn handle_key(&mut self, key: Key) -> (res: PopupOutcome)
        requires
            old(self).wf(),
        ensures
            Self::step(*old(self), key, *final(self), res),
    {
        match self.form.handle_key(key) {
            FormEvent::Submit => PopupOutcome::Submitted(Action::RemoveSession(self.session.clone())),
            FormEvent::Cancel => PopupOutcome::Cancelled,
            FormEvent::Continue => PopupOutcome::Pending,
        }
    }
}

/// The yes/no form that removes a worktree of a project.
pub struct RemoveWorktreePopup {
    pub form: Form,
    pub worktree: Worktree,
    pub project: Project,
}

impl RemoveWorktreePopup {
    pub open spec fn wf(&self) -> bool {
        question_form(self.form)
    }

    /// Whether this is the popup `new` makes from the given arguments.
    pub open spec fn is_new(&self, worktree: Worktree, project: Project) -> bool {
        &&& self.wf()
        &&& self.worktree == worktree
        &&& self.project == project
        &&& self.form.title@ == "Remove Worktree"@
        &&& self.form.body@ == question("Remove "@, worktree.name@)
    }

    /// A yes/no form titled "Remove Worktree" asking `Remove "<branch>"?`.
    pub fn new(worktree: Worktree, project: Project) -> (res: RemoveWorktreePopup)
        ensures
            res.is_new(worktree, project),
    {
        let body = make_question("Remove ", worktree.name.as_str());
        let form = Form::confirmation().title("Remove Worktree").body(body);
        RemoveWorktreePopup { form, worktree, project }
    }

    /// What reading `key` does: `old` becomes `new` and `res` is the outcome.
    pub open spec fn step(old: Self, key: Key, new: Self, res: PopupOutcome) -> bool {
        &&& new == old
        &&& (match confirmation_event(key) {
            FormEvent::Submit => res matches PopupOutcome::Submitted(Action::RemoveWorktree(p, w)) && p@ == old.project@ && w@ == old.worktree@,
            FormEvent::Cancel => res is Cancelled,
            FormEvent::Continue => res is Pending,
        })
    }

    /// Reads a key: `y` asks to remove the worktree from the project, `n` or Esc
    /// dismisses.
    pub fn handle_key(&mut self, key: Key) -> (res: PopupOutcome)
        requires
            old(self).wf(),
        ensures
            Self::step(*old(self), key, *final(self), res),
    {
        match self.form.handle_key(key) {
            FormEvent::Submit => PopupOutcome::Submitted(
                Action::RemoveWorktree(self.project.clone(), self.worktree.clone()),
            ),
            FormEvent::Cancel => PopupOutcome::Cancelled,
            FormEvent::Continue => PopupOutcome::Pending,
        }
    }
}

/// The popup that lists the key bindings.
pub struct HelpPopup {
    /// Each binding as its keys and the name of its action.
    pub keymaps: Vec<(String, String)>,
}

impl HelpPopup {
    /// A help popup over the given bindings.
    pub fn new(keymaps: Vec<(String, String)>) -> (res: HelpPopup)
        ensures
            res.keymaps == keymaps,
    {
        HelpPopup { keymaps }
    }

    /// What reading `key` does: `old` becomes `new` and `res` is the outcome.
    pub open spec fn step(old: Self, key: Key, new: Self, res: PopupOutcome) -> bool {
        &&& new == old
        &&& (key == Key::Char('q') || key == Key::Esc) ==> res is Cancelled
        &&& !(key == Key::Char('q') || key == Key::Esc) ==> res is Pending
    }

    /// Reads a key: `q` or Esc dismisses, anything else does nothing.
    pub fn handle_key(&mut self, key: Key) -> (res: PopupOutcome)
        ensures
            Self::step(*old(self), key, *final(self), res),
    {
        match key {
            Key::Char('q') => PopupOutcome::Cancelled,
            Key::Esc => PopupOutcome::Cancelled,
            _ => PopupOutcome::Pending,
        }
    }
}

/// The actions the help lists, in order.
pub open spec fn help_order() -> Seq<Seq<char>> {
    seq![
        "Quit"@,
        "Suspend"@,
        "Help"@,
        "CmdSelectNext"@,
        "CmdSelectPrev"@,
        "CmdJumpTop"@,
        "CmdJumpBottom"@,
        "CmdStartSearch"@,
        "CmdSearchNext"@,
        "CmdSearchPrev"@,
        "CmdAddProject"@,
        "CmdAddSession"@,
        "CmdDeleteItem"@,
        "CmdAttach"@,
        "CmdEdit"@,
        "CmdNextSessionHistory"@,
        "CmdPrevSessionHistory"@,
    ]
}

pub open spec fn keymap_views(keymaps: Seq<(String, String)>) -> Seq<(Seq<char>, Seq<char>)> {
    keymaps.map_values(|p: (String, String)| (p.0@, p.1@))
}

/// The keys, in order, of the bindings in `keymaps` whose action is `action`.
pub open spec fn keys_for(keymaps: Seq<(Seq<char>, Seq<char>)>, action: Seq<char>) -> Seq<Seq<char>>
    decreases keymaps.len(),
{
    if keymaps.len() == 0 {
        seq![]
    } else {
        let rest = keys_for(keymaps.drop_last(), action);
        if keymaps.last().1 == action {
            rest.push(keymaps.last().0)
        } else {
            rest
        }
    }
}

/// `parts` joined by a comma and a space.
pub open spec fn join_comma(parts: Seq<Seq<char>>) -> Seq<char>
    decreases parts.len(),
{
    if parts.len() == 0 {
        seq![]
    } else if parts.len() == 1 {
        parts[0]
    } else {
        join_comma(parts.drop_last()) + seq![',', ' '] + parts.last()
    }
}

/// The rows of the help for the actions `order`: for each action that has bindings, in
/// order, its keys joined by commas, and its name.
pub open spec fn help_rows(keymaps: Seq<(Seq<char>, Seq<char>)>, order: Seq<Seq<char>>) -> Seq<(Seq<char>, Seq<char>)>
    decreases order.len(),
{
    if order.len() == 0 {
        seq![]
    } else {
        let rest = help_rows(keymaps, order.drop_last());
        let keys = keys_for(keymaps, order.last());
        if keys.len() > 0 {
            rest.push((join_comma(keys), order.last()))
        } else {
            rest
        }
    }
}

/// Any binding of `keymaps` to `action` puts a key under `action`.
proof fn lemma_bound_action_has_keys(keymaps: Seq<(Seq<char>, Seq<char>)>, action: Seq<char>, j: int)
    requires
        0 <= j < keymaps.len(),
        keymaps[j].1 == action,
    ensures
        keys_for(keymaps, action).len() > 0,
    decreases keymaps.len(),
{
    if j < keymaps.len() - 1 {
        lemma_bound_action_has_keys(keymaps.drop_last(), action, j);
    }
}

/// An action of `order` with keys has a row among the help rows for `order`.
proof fn lemma_ordered_action_has_row(keymaps: Seq<(Seq<char>, Seq<char>)>, order: Seq<Seq<char>>, k: int)
    requires
        0 <= k < order.len(),
        keys_for(keymaps, order[k]).len() > 0,
    ensures
        exists|r: int| 0 <= r < help_rows(keymaps, order).len() && (#[trigger] help_rows(keymaps, order)[r]).1 == order[k],
    decreases order.len(),
{
    let rows = help_rows(keymaps, order);
    if k < order.len() - 1 {
        lemma_ordered_action_has_row(keymaps, order.drop_last(), k);
        let rest = help_rows(keymaps, order.drop_last());
        let r = choose|r: int| 0 <= r < rest.len() && (#[trigger] rest[r]).1 == order.drop_last()[k];
        assert(rows[r] == rest[r]);
    } else {
        assert(rows[rows.len() - 1].1 == order[k]);
    }
}

/// The help shows every key binding of these actions, in this order: Quit, Suspend, Help,
/// CmdSelectNext, CmdSelectPrev, CmdJumpTop, CmdJumpBottom, CmdStartSearch, CmdSearchNext,
/// CmdSearchPrev, CmdAddProject, CmdAddSession, CmdDeleteItem, CmdAttach, CmdEdit,
/// CmdNextSessionHistory, CmdPrevSessionHistory: a binding of any of them gives a row
/// for its action, and the rows follow that order.
pub proof fn lemma_help_lists_every_bound_action(keymaps: Seq<(Seq<char>, Seq<char>)>, j: int)
    requires
        0 <= j < keymaps.len(),
        seq![
            "Quit"@,
            "Suspend"@,
            "Help"@,
            "CmdSelectNext"@,
            "CmdSelectPrev"@,
            "CmdJumpTop"@,
            "CmdJumpBottom"@,
            "CmdStartSearch"@,
            "CmdSearchNext"@,
            "CmdSearchPrev"@,
            "CmdAddProject"@,
            "CmdAddSession"@,
            "CmdDeleteItem"@,
            "CmdAttach"@,
            "CmdEdit"@,
            "CmdNextSessionHistory"@,
            "CmdPrevSessionHistory"@,
        ].contains(keymaps[j].1),
    ensures
        exists|r: int|
            0 <= r < help_rows(keymaps, help_order()).len() && (#[trigger] help_rows(keymaps, help_order())[r]).1
                == keymaps[j].1,
{
    let listed = seq![
        "Quit"@,
        "Suspend"@,
        "Help"@,
        "CmdSelectNext"@,
        "CmdSelectPrev"@,
        "CmdJumpTop"@,
        "CmdJumpBottom"@,
        "CmdStartSearch"@,
        "CmdSearchNext"@,
        "CmdSearchPrev"@,
        "CmdAddProject"@,
        "CmdAddSession"@,
        "CmdDeleteItem"@,
        "CmdAttach"@,
        "CmdEdit"@,
        "CmdNextSessionHistory"@,
        "CmdPrevSessionHistory"@,
    ];
    assert(help_order() =~= listed);
    let k = choose|k: int| 0 <= k < listed.len() && listed[k] == keymaps[j].1;
    lemma_bound_action_has_keys(keymaps, keymaps[j].1, j);
    lemma_ordered_action_has_row(keymaps, help_order(), k);
}

pub open spec fn pair_views(rows: Seq<(String, String)>) -> Seq<(Seq<char>, Seq<char>)> {
    rows.map_values(|p: (String, String)| (p.0@, p.1@))
}

fn help_order_names() -> (res: Vec<&'static str>)
    ensures
        res@.map_values(|s: &str| s@) == help_order(),
{
    let res = vec![
        "Quit",
        "Suspend",
        "Help",
        "CmdSelectNext",
        "CmdSelectPrev",
        "CmdJumpTop",
        "CmdJumpBottom",
        "CmdStartSearch",
        "CmdSearchNext",
        "CmdSearchPrev",
        "CmdAddProject",
        "CmdAddSession",
        "CmdDeleteItem",
        "CmdAttach",
        "CmdEdit",
        "CmdNextSessionHistory",
        "CmdPrevSessionHistory",
    ];
    assert(res@.map_values(|s: &str| s@) =~= help_order());
    res
}

impl HelpPopup {
    /// The keys bound to `action`, joined by commas.
    fn joined_keys_for(&self, action: &str) -> (res: (String, bool))
        ensures
            res.0@ == join_comma(keys_for(keymap_views(self.keymaps@), action@)),
            res.1 == (keys_for(keymap_views(self.keymaps@), action@).len() > 0),
    {
        let mut res = String::new();
        let mut any = false;
        let ghost km = keymap_views(self.keymaps@);
        let mut i: usize = 0;
        while i < self.keymaps.len()
            invariant
                i <= self.keymaps.len(),
                km == keymap_views(self.keymaps@),
                any == (keys_for(km.take(i as int), action@).len() > 0),
                res@ == join_comma(keys_for(km.take(i as int), action@)),
            decreases self.keymaps.len() - i,
        {
            proof {
                assert(km.take(i + 1).drop_last() =~= km.take(i as int));
                assert(km.take(i + 1).last() == km[i as int]);
            }
            if crate::text::str_eq(self.keymaps[i].1.as_str(), action) {
                if any {
                    res.push(',');
                    res.push(' ');
                }
                res.append(self.keymaps[i].0.as_str());
                let ghost ks = keys_for(km.take(i + 1), action@);
                assert(ks.drop_last() == keys_for(km.take(i as int), action@));
                if !any {
                    assert(res@ =~= join_comma(ks));
                } else {
                    assert(res@ =~= join_comma(ks.drop_last()) + seq![',', ' '] + ks.last());
                }
                any = true;
            }
            i = i + 1;
        }
        assert(km.take(self.keymaps.len() as int) =~= km);
        (res, any)
    }

    /// The rows the help shows: for each action in `help_order` that has bindings, in
    /// that order, its keys joined by commas, and its name.
    pub fn rows(&self) -> (res: Vec<(String, String)>)
        ensures
            pair_views(res@) == help_rows(keymap_views(self.keymaps@), help_order()),
    {
        let order = help_order_names();
        let ghost ord = order@.map_values(|s: &str| s@);
        let mut res: Vec<(String, String)> = Vec::new();
        let mut i: usize = 0;
        while i < order.len()
            invariant
                i <= order.len(),
                ord == order@.map_values(|s: &str| s@),
                pair_views(res@) == help_rows(keymap_views(self.keymaps@), ord.take(i as int)),
            decreases order.len() - i,
        {
            proof {
                assert(ord.take(i + 1).drop_last() =~= ord.take(i as int));
                assert(ord.take(i + 1).last() == order@[i as int]@);
            }
            let (keys, any) = self.joined_keys_for(order[i]);
            if any {
                let ghost prev = res@;
                res.push((keys, String::from_str(order[i])));
                assert(pair_views(res@) =~= pair_views(prev).push((res@.last().0@, res@.last().1@)));
            }
            i = i + 1;
        }
        assert(ord.take(order.len() as int) =~= ord);
        res
    }
}

/// Any of the popups.
pub enum Popup {
    Help(HelpPopup),
    NewProject(NewProjectPopup),
    EditProject(EditProjectPopup),
    NewSession(NewSessionPopup),
    NewSessionFromWorktree(NewSessionFromWorktreePopup),
    EditSession(EditSessionPopup),
    RemoveProject(RemoveProjectPopup),
    RemoveSession(RemoveSessionPopup),
    RemoveWorktree(RemoveWorktreePopup),
}

impl Popup {
    pub open spec fn wf(&self) -> bool {
        match self {
            Popup::Help(_) => true,
            Popup::NewProject(p) => p.wf(),
            Popup::EditProject(p) => p.wf(),
            Popup::NewSession(p) => p.wf(),
            Popup::NewSessionFromWorktree(p) => p.wf(),
            Popup::EditSession(p) => p.wf(),
            Popup::RemoveProject(p) => p.wf(),
            Popup::RemoveSession(p) => p.wf(),
            Popup::RemoveWorktree(p) => p.wf(),
        }
    }

    /// What reading `key` does: `old` becomes `new` and `res` is the outcome.
    pub open spec fn step(old: Self, key: Key, new: Self, res: PopupOutcome) -> bool {
        match (old, new) {
            (Popup::Help(o), Popup::Help(n)) => HelpPopup::step(o, key, n, res),
            (Popup::NewProject(o), Popup::NewProject(n)) => NewProjectPopup::step(o, key, n, res),
            (Popup::EditProject(o), Popup::EditProject(n)) => EditProjectPopup::step(o, key, n, res),
            (Popup::NewSession(o), Popup::NewSession(n)) => NewSessionPopup::step(o, key, n, res),
            (Popup::NewSessionFromWorktree(o), Popup::NewSessionFromWorktree(n)) => NewSessionFromWorktreePopup::step(o, key, n, res),
            (Popup::EditSession(o), Popup::EditSession(n)) => EditSessionPopup::step(o, key, n, res),
            (Popup::RemoveProject(o), Popup::RemoveProject(n)) => RemoveProjectPopup::step(o, key, n, res),
            (Popup::RemoveSession(o), Popup::RemoveSession(n)) => RemoveSessionPopup::step(o, key, n, res),
            (Popup::RemoveWorktree(o), Popup::RemoveWorktree(n)) => RemoveWorktreePopup::step(o, key, n, res),
            _ => false,
        }
    }

    /// Reads a key in whichever popup this is (see each popup's `handle_key`).
    pub fn handle_key(&mut self, key: Key) -> (res: PopupOutcome)
        requires
            old(self).wf(),
        ensures
            Self::step(*old(self), key, *final(self), res),
    {
        match self {
            Popup::Help(p) => p.handle_key(key),
            Popup::NewProject(p) => p.handle_key(key),
            Popup::EditProject(p) => p.handle_key(key),
            Popup::NewSession(p) => p.handle_key(key),
            Popup::NewSessionFromWorktree(p) => p.handle_key(key),
            Popup::EditSession(p) => p.handle_key(key),
            Popup::RemoveProject(p) => p.handle_key(key),
            Popup::RemoveSession(p) => p.handle_key(key),
            Popup::RemoveWorktree(p) => p.handle_key(key),
        }
    }
}

/// Whether a popup is showing, and which.
pub enum PopupState {
    Closed,
    Open(Popup),
}

} // verus!
