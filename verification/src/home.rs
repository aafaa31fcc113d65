use std::collections::HashMap;
use vstd::prelude::*;

use crate::home_list::{build_list, entry_views, home_list, ListEntry, ListEntryView};
use crate::action::Action;
use crate::key::Key;
use crate::keybindings::KeyBindings;
use crate::popups::{
    keymap_views, EditProjectPopup, EditSessionPopup, HelpPopup, NewProjectPopup, NewSessionFromWorktreePopup,
    NewSessionPopup, Popup, PopupOutcome, PopupState, RemoveProjectPopup, RemoveSessionPopup, RemoveWorktreePopup,
};
use crate::session::opt_string_view;
use crate::project::Project;
use crate::session::{Session, SessionView};
use crate::text::to_chars;

verus! {

/// The main screen: the list of projects, sessions and worktrees with its selection, the
/// popup over it if any, the search, and the last sessions attached to.
pub struct Home {
    /// Each key binding as its keys and the name of its action, for the help.
    pub keymaps: Vec<(String, String)>,
    pub list_entries: Vec<ListEntry>,
    /// The selected line, if any; it may lie past the end until the list is drawn.
    pub selected: Option<usize>,
    pub popup_state: PopupState,
    /// Whether typed characters go to the search.
    pub search_is_capturing: bool,
    pub search: Option<String>,
    /// The lines the search matches, in order.
    pub search_matches: Vec<usize>,
    /// Which of the matches was last jumped to.
    pub search_cursor: usize,
    /// The last sessions attached to, oldest first; at most two.
    pub session_history: Vec<Session>,
}

/// Whether `q` occurs in `text`.
pub open spec fn has_substring(text: Seq<char>, q: Seq<char>) -> bool {
    exists|i: int| 0 <= i && i + q.len() <= text.len() && #[trigger] text.subrange(i, i + q.len()) == q
}

/// The text of a line that the search looks at: a project's or session's name, or a
/// worktree's path.
pub open spec fn entry_text(e: ListEntryView) -> Seq<char> {
    match e {
        ListEntryView::Project(p) => p.name,
        ListEntryView::ProjectSession(_, s) => s.name,
        ListEntryView::AvailableWorktree(_, w) => w.path,
        ListEntryView::Session(s) => s.name,
    }
}

/// The indices below `n` of the lines whose text holds `q`, in order.
pub open spec fn matching_indices(entries: Seq<ListEntryView>, q: Seq<char>, n: nat) -> Seq<int>
    decreases n,
{
    if n == 0 {
        seq![]
    } else {
        let rest = matching_indices(entries, q, (n - 1) as nat);
        if has_substring(entry_text(entries[n - 1]), q) {
            rest.push(n - 1)
        } else {
            rest
        }
    }
}

/// The indices in `v`, as integers.
pub open spec fn index_views(v: Seq<usize>) -> Seq<int> {
    v.map_values(|i: usize| i as int)
}

/// The session a line stands for, if any.
pub open spec fn entry_session(e: ListEntry) -> Option<Session> {
    match e {
        ListEntry::ProjectSession(_, s) => Some(s),
        ListEntry::Session(s) => Some(s),
        _ => None,
    }
}

/// The sessions in `v`, by content.
pub open spec fn session_views(v: Seq<Session>) -> Seq<SessionView> {
    v.map_values(|s: Session| s@)
}

/// `history` after attaching to `s`: `s` is added last, and only the last two are kept.
pub open spec fn pushed_history(history: Seq<SessionView>, s: SessionView) -> Seq<SessionView> {
    let h = history.push(s);
    if h.len() > 2 {
        h.drop_first()
    } else {
        h
    }
}

/// The selection after the list was rebuilt with `len` lines: none for an empty list, else
/// the old one (the first line if there was none), moved up to the last line if past it.
pub open spec fn settled_selection(selected: Option<usize>, len: nat) -> Option<usize> {
    if len == 0 {
        None
    } else {
        let i = match selected {
            Some(i) => i as int,
            None => 0,
        };
        Some((if i < len - 1 { i } else { len - 1 }) as usize)
    }
}

/// Whether `q` occurs in `text`.
pub fn contains_str(text: &str, q: &str) -> (res: bool)
    ensures
        res == has_substring(text@, q@),
{
    let t = to_chars(text);
    let p = to_chars(q);
    if p.len() > t.len() {
        return false;
    }
    let mut i: usize = 0;
    while i <= t.len() - p.len()
        invariant
            t@ == text@,
            p@ == q@,
            p.len() <= t.len(),
            i <= t.len() - p.len() + 1,
            forall|k: int| 0 <= k < i ==> #[trigger] t@.subrange(k, k + p@.len()) != p@,
        decreases t.len() - p.len() + 1 - i,
    {
        let mut j: usize = 0;
        while j < p.len() && t[i + j] == p[j]
            invariant
                i + p.len() <= t.len(),
                j <= p.len(),
                forall|m: int| 0 <= m < j ==> t@[i + m] == p@[m],
            decreases p.len() - j,
        {
            j = j + 1;
        }
        if j == p.len() {
            assert(t@.subrange(i as int, i + p@.len()) =~= p@);
            return true;
        }
        assert(t@.subrange(i as int, i + p@.len())[j as int] != p@[j as int]);
        i = i + 1;
    }
    assert forall|k: int| 0 <= k && k + q@.len() <= text@.len() implies #[trigger] text@.subrange(k, k + q@.len()) != q@ by {
        assert(t@.subrange(k, k + p@.len()) != p@);
    }
    false
}

/// The text the search looks at for `entry` (see `entry_text`).
pub fn entry_search_text(entry: &ListEntry) -> (res: &str)
    ensures
        res@ == entry_text(entry@),
{
    match entry {
        ListEntry::Project(p) => p.name.as_str(),
        ListEntry::ProjectSession(_, s) => s.name.as_str(),
        ListEntry::AvailableWorktree(_, w) => w.path.as_str(),
        ListEntry::Session(s) => s.name.as_str(),
    }
}

/// The indices of the lines whose text holds `q`, in order.
pub fn find_matches(entries: &Vec<ListEntry>, q: &str) -> (res: Vec<usize>)
    ensures
        index_views(res@) == matching_indices(entry_views(entries@), q@, entries@.len()),
        forall|k: int| 0 <= k < res@.len() ==> res@[k] < entries@.len(),
{
    let ghost ev = entry_views(entries@);
    let mut res: Vec<usize> = Vec::new();
    let mut i: usize = 0;
    while i < entries.len()
        invariant
            i <= entries.len(),
            ev == entry_views(entries@),
            index_views(res@) == matching_indices(ev, q@, i as nat),
            forall|k: int| 0 <= k < res@.len() ==> res@[k] < i,
        decreases entries.len() - i,
    {
        let ghost prev = res@;
        if contains_str(entry_search_text(&entries[i]), q) {
            res.push(i);
            assert(index_views(res@) =~= index_views(prev).push(i as int));
        }
        assert(ev[i as int] == entries@[i as int]@);
        i = i + 1;
    }
    res
}


/// A copy of the bindings `v`.
fn clone_keymaps(v: &Vec<(String, String)>) -> (res: Vec<(String, String)>)
    ensures
        keymap_views(res@) == keymap_views(v@),
{
    let mut res: Vec<(String, String)> = Vec::new();
    let mut i: usize = 0;
    while i < v.len()
        invariant
            i <= v.len(),
            keymap_views(res@) == keymap_views(v@.take(i as int)),
        decreases v.len() - i,
    {
        let ghost prev = res@;
        res.push((v[i].0.clone(), v[i].1.clone()));
        assert(keymap_views(res@) =~= keymap_views(prev).push((v@[i as int].0@, v@[i as int].1@)));
        assert(v@.take(i + 1) =~= v@.take(i as int).push(v@[i as int]));
        assert(keymap_views(v@.take(i + 1)) =~= keymap_views(v@.take(i as int)).push((v@[i as int].0@, v@[i as int].1@)));
        i = i + 1;
    }
    assert(v@.take(v.len() as int) =~= v@);
    res
}

impl Home {
    /// A popup that is open is in a state it can read keys in; the search cursor points at
    /// one of the matches when there are any; at most two sessions are remembered.
    pub open spec fn wf(&self) -> bool {
        &&& (self.popup_state matches PopupState::Open(p) ==> p.wf())
        &&& (self.search_matches@.len() > 0 ==> self.search_cursor < self.search_matches@.len())
        &&& self.session_history@.len() <= 2
    }

    /// The line the selection is on, if it is on one.
    pub open spec fn selected_entry(self) -> Option<ListEntry> {
        match self.selected {
            Some(i) => if i < self.list_entries@.len() {
                Some(self.list_entries@[i as int])
            } else {
                None
            },
            None => None,
        }
    }

    /// An empty screen: no bindings, no lines, nothing selected, no popup and no search.
    pub fn new() -> (res: Home)
        ensures
            res.wf(),
            res.keymaps@.len() == 0,
            res.list_entries@.len() == 0,
            res.selected is None,
            res.popup_state is Closed,
            !res.search_is_capturing,
            res.search is None,
            res.search_matches@.len() == 0,
            res.search_cursor == 0,
            res.session_history@.len() == 0,
    {
        Home {
            keymaps: Vec::new(),
            list_entries: Vec::new(),
            selected: None,
            popup_state: PopupState::Closed,
            search_is_capturing: false,
            search: None,
            search_matches: Vec::new(),
            search_cursor: 0,
            session_history: Vec::new(),
        }
    }

    /// Whether keys go to a popup or to the search rather than to the key bindings.
    pub fn is_capturing_input(&self) -> (res: bool)
        ensures
            res == (self.popup_state is Open || self.search_is_capturing),
    {
        match self.popup_state {
            PopupState::Open(_) => true,
            PopupState::Closed => self.search_is_capturing,
        }
    }

    /// Takes the bindings the help lists: each as the labels of its keys and the name of
    /// its action (see `KeyBindings::rows`).
    pub fn register_config_handler(&mut self, bindings: &KeyBindings)
        requires
            old(self).wf(),
        ensures
            final(self).wf(),
            keymap_views(final(self).keymaps@) == bindings.rows(),
            *final(self) == (Home { keymaps: final(self).keymaps, ..*old(self) }),
    {
        let rows = bindings.keymap_rows();
        assert(keymap_views(rows@) =~= rows@.map_values(|p: (String, String)| (p.0@, p.1@)));
        self.keymaps = rows;
    }

    /// Remembers `session` as the last one attached to, keeping only the last two.
    pub fn push_to_session_history(&mut self, session: Session)
        requires
            old(self).wf(),
        ensures
            final(self).wf(),
            session_views(final(self).session_history@) == pushed_history(session_views(old(self).session_history@), session@),
            *final(self) == (Home { session_history: final(self).session_history, ..*old(self) }),
    {
        let ghost before = session_views(self.session_history@);
        let ghost v = session@;
        self.session_history.push(session);
        assert(session_views(self.session_history@) =~= before.push(v));
        if self.session_history.len() > 2 {
            let ghost h = self.session_history@;
            self.session_history.remove(0);
            assert(session_views(self.session_history@) =~= session_views(h).drop_first());
        }
    }

    /// Replaces the lines by the home list of `projects` and `sessions` (see `home_list`)
    /// and settles the selection on the new list (see `settled_selection`).
    pub fn rebuild_list(&mut self, projects: &HashMap<u128, Project>, sessions: &HashMap<u128, Session>)
        requires
            old(self).wf(),
        ensures
            final(self).wf(),
            home_list(projects@, sessions@, entry_views(final(self).list_entries@)),
            final(self).selected == settled_selection(old(self).selected, final(self).list_entries@.len()),
            *final(self) == (Home { list_entries: final(self).list_entries, selected: final(self).selected, ..*old(self) }),
    {
        self.list_entries = build_list(projects, sessions);
        if self.list_entries.len() == 0 {
            self.selected = None;
        } else {
            let i = match self.selected {
                Some(i) => i,
                None => 0,
            };
            let last = self.list_entries.len() - 1;
            self.selected = Some(if i < last { i } else { last });
        }
    }
}


/// Whether line `i` of `entries` stands for the session with id `id`.
pub open spec fn session_line(entries: Seq<ListEntry>, i: int, id: u128) -> bool {
    match entry_session(entries[i]) {
        Some(s) => s.id == id,
        None => false,
    }
}

/// Whether `selected` is the first line of `entries` that stands for the session with id
/// `id`, or nothing where no line does.
pub open spec fn first_session_line(entries: Seq<ListEntry>, id: u128, selected: Option<usize>) -> bool {
    match selected {
        Some(i) => {
            &&& i < entries.len()
            &&& session_line(entries, i as int, id)
            &&& forall|j: int| 0 <= j < i ==> !session_line(entries, j, id)
        },
        None => forall|j: int| 0 <= j < entries.len() ==> !session_line(entries, j, id),
    }
}

impl Home {
    /// What a key does when no popup is open: Enter ends the typing of a search, Esc
    /// ends it and drops the search, and while typing a search a character is added to it,
    /// the matches are found again and the first is selected.
    pub open spec fn closed_key_effect(old: Home, key: Key, new: Home) -> bool {
        match key {
            Key::Enter => new == (Home { search_is_capturing: false, ..old }),
            Key::Esc => if old.search_is_capturing {
                new == (Home { search_is_capturing: false, search: None, ..old })
            } else {
                new == old
            },
            Key::Char(c) => if old.search_is_capturing {
                let q = match old.search {
                    Some(s) => s@.push(c),
                    None => Seq::<char>::empty(),
                };
                &&& opt_string_view(new.search) == (match old.search {
                    Some(s) => Some(s@.push(c)),
                    None => None,
                })
                &&& index_views(new.search_matches@) == matching_indices(entry_views(old.list_entries@), q, old.list_entries@.len())
                &&& new.selected == (if new.search_matches@.len() > 0 {
                    Some(new.search_matches@[0])
                } else {
                    old.selected
                })
                &&& new == (Home {
                    search: new.search,
                    search_matches: new.search_matches,
                    search_cursor: 0,
                    selected: new.selected,
                    ..old
                })
            } else {
                new == old
            },
            _ => new == old,
        }
    }

    /// What reading `key` does: `old` becomes `new` and `res` is the action asked for, if
    /// any. An open popup reads the key; it closes when it is submitted, giving its
    /// action, or dismissed.
    pub open spec fn key_handled(old: Home, key: Key, new: Home, res: Option<Action>) -> bool {
        match old.popup_state {
            PopupState::Closed => res is None && Home::closed_key_effect(old, key, new),
            PopupState::Open(p) => exists|np: Popup, out: PopupOutcome| #[trigger] Popup::step(p, key, np, out) && match out {
                PopupOutcome::Submitted(a) => res == Some(a) && new == (Home { popup_state: PopupState::Closed, ..old }),
                PopupOutcome::Cancelled => res is None && new == (Home { popup_state: PopupState::Closed, ..old }),
                PopupOutcome::Pending => res is None && new == (Home { popup_state: PopupState::Open(np), ..old }),
            },
        }
    }

    /// Reads a key (see `key_handled`).
    pub fn handle_key_event(&mut self, key: Key) -> (res: Option<Action>)
        requires
            old(self).wf(),
        ensures
            final(self).wf(),
            Home::key_handled(*old(self), key, *final(self), res),
    {
        let ghost before = *self;
        let opened = match &mut self.popup_state {
            PopupState::Open(p) => {
                let ghost op = *p;
                let out = p.handle_key(key);
                let ghost np = *p;
                assert(Popup::step(op, key, np, out));
                Some(out)
            },
            PopupState::Closed => None,
        };
        match opened {
            Some(PopupOutcome::Submitted(a)) => {
                self.popup_state = PopupState::Closed;
                Some(a)
            },
            Some(PopupOutcome::Cancelled) => {
                self.popup_state = PopupState::Closed;
                None
            },
            Some(PopupOutcome::Pending) => None,
            None => {
                match key {
                    Key::Enter => {
                        self.search_is_capturing = false;
                    },
                    Key::Esc => {
                        if self.search_is_capturing {
                            self.search_is_capturing = false;
                            self.search = None;
                        }
                    },
                    Key::Char(c) => {
                        if self.search_is_capturing {
                            let current = self.search.take();
                            match current {
                                Some(mut text) => {
                                    text.push(c);
                                    self.search = Some(text);
                                },
                                None => {},
                            }
                            let matches = match &self.search {
                                Some(text) => find_matches(&self.list_entries, text.as_str()),
                                None => {
                                    let empty = "";
                                    proof {
                                        reveal_strlit("");
                                    }
                                    assert(empty@ =~= Seq::<char>::empty());
                                    find_matches(&self.list_entries, empty)
                                },
                            };
                            self.search_matches = matches;
                            self.search_cursor = 0;
                            if self.search_matches.len() > 0 {
                                self.selected = Some(self.search_matches[0]);
                            }
                        }
                    },
                    _ => {},
                }
                None
            },
        }
    }
}


impl Home {
    /// What carrying out `action` does: `old` becomes `new`, and `res` is a further action
    /// asked for, if any.
    ///
    /// Help opens the help over the bindings; a state update rebuilds the list; the
    /// selection moves down, up, to the top or to the bottom; a search starts, or the
    /// selection goes to the next or previous match, round the ends; the popups to add a
    /// project or a session, or to edit or delete the selected line, open; an open popup
    /// closes on cancel; attaching to the selected session asks for it and remembers it;
    /// and the selection can go back to the session attached to before the last one.
    pub open spec fn updated(old: Home, action: Action, new: Home, res: Option<Action>) -> bool {
        match action {
            Action::Help => {
                &&& res is None
                &&& new.popup_state matches PopupState::Open(Popup::Help(h)) && keymap_views(h.keymaps@) == keymap_views(old.keymaps@)
                &&& new == (Home { popup_state: new.popup_state, ..old })
            },
            Action::StateUpdated(projects, sessions) => {
                &&& res is None
                &&& home_list(projects@, sessions@, entry_views(new.list_entries@))
                &&& new.selected == settled_selection(old.selected, new.list_entries@.len())
                &&& new == (Home { list_entries: new.list_entries, selected: new.selected, ..old })
            },
            Action::CmdSelectNext => {
                &&& res is None
                &&& new == (Home {
                    selected: Some(match old.selected {
                        Some(i) => if i == usize::MAX { i } else { (i + 1) as usize },
                        None => 0,
                    }),
                    ..old
                })
            },
            Action::CmdSelectPrev => {
                &&& res is None
                &&& new == (Home {
                    selected: Some(match old.selected {
                        Some(i) => if i == 0 { 0 } else { (i - 1) as usize },
                        None => usize::MAX,
                    }),
                    ..old
                })
            },
            Action::CmdJumpTop => {
                &&& res is None
                &&& new == (if old.list_entries@.len() == 0 { old } else { Home { selected: Some(0), ..old } })
            },
            Action::CmdJumpBottom => {
                &&& res is None
                &&& new == (if old.list_entries@.len() == 0 {
                    old
                } else {
                    Home { selected: Some((old.list_entries@.len() - 1) as usize), ..old }
                })
            },
            Action::CmdStartSearch => {
                &&& res is None
                &&& new.search matches Some(text) && text@.len() == 0
                &&& new == (Home { search: new.search, search_is_capturing: true, ..old })
            },
            Action::CmdSearchNext => {
                &&& res is None
                &&& if old.search_matches@.len() == 0 {
                    new == old
                } else {
                    let c = ((old.search_cursor + 1) % (old.search_matches@.len() as int)) as usize;
                    new == (Home { search_cursor: c, selected: Some(old.search_matches@[c as int]), ..old })
                }
            },
            Action::CmdSearchPrev => {
                &&& res is None
                &&& if old.search_matches@.len() == 0 {
                    new == old
                } else {
                    let c = (if old.search_cursor == 0 {
                        old.search_matches@.len() - 1
                    } else {
                        old.search_cursor - 1
                    }) as usize;
                    new == (Home { search_cursor: c, selected: Some(old.search_matches@[c as int]), ..old })
                }
            },
            Action::CmdAddProject => {
                &&& res is None
                &&& new.popup_state matches PopupState::Open(Popup::NewProject(pp)) && pp.is_new()
                &&& new == (Home { popup_state: new.popup_state, ..old })
            },
            Action::CmdAddSession => {
                &&& res is None
                &&& new == (Home { popup_state: new.popup_state, ..old })
                &&& match old.selected_entry() {
                    Some(ListEntry::AvailableWorktree(p, w)) => new.popup_state matches PopupState::Open(
                        Popup::NewSessionFromWorktree(pp),
                    ) && pp.is_new(p, w),
                    _ => new.popup_state matches PopupState::Open(Popup::NewSession(pp)) && pp.is_new(),
                }
            },
            Action::CmdEdit => {
                &&& res is None
                &&& new == (Home { popup_state: new.popup_state, ..old })
                &&& match old.selected_entry() {
                    Some(ListEntry::Project(p)) => new.popup_state matches PopupState::Open(Popup::EditProject(pp))
                        && pp.project@ == p@ && pp.is_new(pp.project),
                    Some(ListEntry::ProjectSession(_, s)) => new.popup_state matches PopupState::Open(
                        Popup::EditSession(pp),
                    ) && pp.session@ == s@ && pp.is_new(pp.session),
                    Some(ListEntry::Session(s)) => new.popup_state matches PopupState::Open(Popup::EditSession(pp))
                        && pp.session@ == s@ && pp.is_new(pp.session),
                    _ => new.popup_state == old.popup_state,
                }
            },
            Action::CmdDeleteItem => {
                &&& res is None
                &&& new == (Home { popup_state: new.popup_state, ..old })
                &&& match old.selected_entry() {
                    Some(ListEntry::Project(p)) => new.popup_state matches PopupState::Open(Popup::RemoveProject(pp))
                        && pp.project@ == p@ && pp.is_new(pp.project),
                    Some(ListEntry::ProjectSession(_, s)) => new.popup_state matches PopupState::Open(
                        Popup::RemoveSession(pp),
                    ) && pp.session@ == s@ && pp.is_new(pp.session),
                    Some(ListEntry::Session(s)) => new.popup_state matches PopupState::Open(Popup::RemoveSession(pp))
                        && pp.session@ == s@ && pp.is_new(pp.session),
                    Some(ListEntry::AvailableWorktree(p, w)) => new.popup_state matches PopupState::Open(
                        Popup::RemoveWorktree(pp),
                    ) && pp.worktree@ == w@ && pp.project@ == p@ && pp.is_new(pp.worktree, pp.project),
                    None => new.popup_state == old.popup_state,
                }
            },
            Action::CancelInput => {
                &&& res is None
                &&& new == (Home { popup_state: PopupState::Closed, ..old })
            },
            Action::CmdAttach => match (match old.selected_entry() {
                Some(e) => entry_session(e),
                None => None,
            }) {
                Some(s) => {
                    &&& res matches Some(Action::AttachSession(a)) && a@ == s@
                    &&& session_views(new.session_history@) == pushed_history(session_views(old.session_history@), s@)
                    &&& new == (Home { session_history: new.session_history, ..old })
                },
                None => res is None && new == old,
            },
            Action::CmdSelectPrevSession => {
                &&& res is None
                &&& if old.session_history@.len() >= 2 {
                    &&& first_session_line(
                        old.list_entries@,
                        old.session_history@[old.session_history@.len() - 2].id,
                        new.selected,
                    )
                    &&& new == (Home { selected: new.selected, ..old })
                } else {
                    new == old
                }
            },
            _ => res is None && new == old,
        }
    }

    /// The session on the selected line, if the selection is on one that stands for a
    /// session.
    fn selected_session(&self) -> (res: Option<&Session>)
        ensures
            (match self.selected_entry() {
                Some(e) => entry_session(e),
                None => None,
            }) == (match res {
                Some(s) => Some(*s),
                None => None,
            }),
    {
        match self.selected {
            Some(i) => if i < self.list_entries.len() {
                match &self.list_entries[i] {
                    ListEntry::ProjectSession(_, s) => Some(s),
                    ListEntry::Session(s) => Some(s),
                    _ => None,
                }
            } else {
                None
            },
            None => None,
        }
    }

    /// The first line that stands for the session with id `id`, if any.
    fn find_session_line(&self, id: u128) -> (res: Option<usize>)
        ensures
            first_session_line(self.list_entries@, id, res),
    {
        let mut i: usize = 0;
        while i < self.list_entries.len()
            invariant
                i <= self.list_entries.len(),
                forall|j: int| 0 <= j < i ==> !session_line(self.list_entries@, j, id),
            decreases self.list_entries.len() - i,
        {
            let found = match &self.list_entries[i] {
                ListEntry::ProjectSession(_, s) => s.id == id,
                ListEntry::Session(s) => s.id == id,
                _ => false,
            };
            if found {
                return Some(i);
            }
            i = i + 1;
        }
        None
    }

    /// Carries out `action` (see `updated`).
    pub fn update(&mut self, action: Action) -> (res: Option<Action>)
        requires
            old(self).wf(),
        ensures
            final(self).wf(),
            Home::updated(*old(self), action, *final(self), res),
    {
        match action {
            Action::Help => {
                let keymaps = clone_keymaps(&self.keymaps);
                self.popup_state = PopupState::Open(Popup::Help(HelpPopup::new(keymaps)));
            },
            Action::StateUpdated(projects, sessions) => {
                self.rebuild_list(&projects, &sessions);
            },
            Action::CmdSelectNext => {
                self.selected = Some(
                    match self.selected {
                        Some(i) => if i == usize::MAX { i } else { i + 1 },
                        None => 0,
                    },
                );
            },
            Action::CmdSelectPrev => {
                self.selected = Some(
                    match self.selected {
                        Some(i) => if i == 0 { 0 } else { i - 1 },
                        None => usize::MAX,
                    },
                );
            },
            Action::CmdJumpTop => {
                if self.list_entries.len() > 0 {
                    self.selected = Some(0);
                }
            },
            Action::CmdJumpBottom => {
                if self.list_entries.len() > 0 {
                    self.selected = Some(self.list_entries.len() - 1);
                }
            },
            Action::CmdStartSearch => {
                self.search = Some(String::new());
                self.search_is_capturing = true;
            },
            Action::CmdSearchNext => {
                if self.search_matches.len() > 0 {
                    self.search_cursor = (self.search_cursor + 1) % self.search_matches.len();
                    self.selected = Some(self.search_matches[self.search_cursor]);
                }
            },
            Action::CmdSearchPrev => {
                if self.search_matches.len() > 0 {
                    self.search_cursor = if self.search_cursor == 0 {
                        self.search_matches.len() - 1
                    } else {
                        self.search_cursor - 1
                    };
                    self.selected = Some(self.search_matches[self.search_cursor]);
                }
            },
            Action::CmdAddProject => {
                self.popup_state = PopupState::Open(Popup::NewProject(NewProjectPopup::new()));
            },
            Action::CmdAddSession => {
                let popup = match self.selected {
                    Some(i) => if i < self.list_entries.len() {
                        match &self.list_entries[i] {
                            ListEntry::AvailableWorktree(p, w) => Popup::NewSessionFromWorktree(
                                NewSessionFromWorktreePopup::new(p, w),
                            ),
                            _ => Popup::NewSession(NewSessionPopup::new()),
                        }
                    } else {
                        Popup::NewSession(NewSessionPopup::new())
                    },
                    None => Popup::NewSession(NewSessionPopup::new()),
                };
                self.popup_state = PopupState::Open(popup);
            },
            Action::CmdEdit => {
                if let Some(i) = self.selected {
                    if i < self.list_entries.len() {
                        match &self.list_entries[i] {
                            ListEntry::Project(p) => {
                                self.popup_state = PopupState::Open(Popup::EditProject(EditProjectPopup::new(p.clone())));
                            },
                            ListEntry::ProjectSession(_, s) => {
                                self.popup_state = PopupState::Open(Popup::EditSession(EditSessionPopup::new(s.clone())));
                            },
                            ListEntry::AvailableWorktree(_, _) => {},
                            ListEntry::Session(s) => {
                                self.popup_state = PopupState::Open(Popup::EditSession(EditSessionPopup::new(s.clone())));
                            },
                        }
                    }
                }
            },
            Action::CmdDeleteItem => {
                if let Some(i) = self.selected {
                    if i < self.list_entries.len() {
                        match &self.list_entries[i] {
                            ListEntry::Project(p) => {
                                self.popup_state = PopupState::Open(
                                    Popup::RemoveProject(RemoveProjectPopup::new(p.clone())),
                                );
                            },
                            ListEntry::ProjectSession(_, s) => {
                                self.popup_state = PopupState::Open(
                                    Popup::RemoveSession(RemoveSessionPopup::new(s.clone())),
                                );
                            },
                            ListEntry::Session(s) => {
                                self.popup_state = PopupState::Open(
                                    Popup::RemoveSession(RemoveSessionPopup::new(s.clone())),
                                );
                            },
                            ListEntry::AvailableWorktree(p, w) => {
                                self.popup_state = PopupState::Open(
                                    Popup::RemoveWorktree(RemoveWorktreePopup::new(w.clone(), p.clone())),
                                );
                            },
                        }
                    }
                }
            },
            Action::CancelInput => {
                self.popup_state = PopupState::Closed;
            },
            Action::CmdAttach => {
                let session = match self.selected_session() {
                    Some(s) => Some(s.clone()),
                    None => None,
                };
                if let Some(s) = session {
                    let attach = s.clone();
                    self.push_to_session_history(s);
                    return Some(Action::AttachSession(attach));
                }
            },
            Action::CmdSelectPrevSession => {
                if self.session_history.len() >= 2 {
                    let id = self.session_history[self.session_history.len() - 2].id;
                    self.selected = self.find_session_line(id);
                }
            },
            _ => {},
        }
        None
    }
}

} // verus!
