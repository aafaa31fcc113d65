use vstd::prelude::*;

use crate::action::Action;
use crate::home::{entry_text, first_session_line, has_substring, matching_indices, session_views, settled_selection, Home};
use crate::home_list::{ListEntry, ListEntryView};
use crate::popups::{question, Popup, PopupState};
use crate::session::Session;
use crate::project::Project;
use crate::key::Key;

verus! {

/// After attaching to one session and then, wherever the selection was moved meanwhile, to
/// another, going back to the previous session selects the first line of the first one.
pub proof fn lemma_back_to_previous_session(
    h0: Home,
    h1: Home,
    h2: Home,
    h3: Home,
    h4: Home,
    r1: Option<Action>,
    r3: Option<Action>,
    r4: Option<Action>,
)
    requires
        h0.wf(),
        Home::updated(h0, Action::CmdAttach, h1, r1),
        r1 is Some,
        h2 == (Home { selected: h2.selected, ..h1 }),
        Home::updated(h2, Action::CmdAttach, h3, r3),
        r3 is Some,
        Home::updated(h3, Action::CmdSelectPrevSession, h4, r4),
    ensures
        r1 matches Some(Action::AttachSession(first)) && first_session_line(h0.list_entries@, first.id, h4.selected),
{
    let first = r1->Some_0->AttachSession_0;
    let second = r3->Some_0->AttachSession_0;
    let v1 = session_views(h1.session_history@);
    let v3 = session_views(h3.session_history@);
    assert(v1.last() == first@);
    assert(v3.last() == second@);
    assert(v3[v3.len() - 2] == v1.last());
    assert(h3.session_history@.len() >= 2);
    assert(session_views(h3.session_history@)[h3.session_history@.len() - 2] == h3.session_history@[h3.session_history@.len() - 2]@);
}

/// Going to the next search match and then to the previous one comes back to the match
/// the search was on, and selects it.
pub proof fn lemma_search_next_then_prev(h0: Home, h1: Home, h2: Home, r1: Option<Action>, r2: Option<Action>)
    requires
        h0.wf(),
        0 < h0.search_matches@.len() <= usize::MAX,
        Home::updated(h0, Action::CmdSearchNext, h1, r1),
        Home::updated(h1, Action::CmdSearchPrev, h2, r2),
    ensures
        h2.search_cursor == h0.search_cursor,
        h2.selected == Some(h0.search_matches@[h0.search_cursor as int]),
{
    let n = h0.search_matches@.len() as int;
    let c = h0.search_cursor as int;
    if c + 1 < n {
        vstd::arithmetic::div_mod::lemma_small_mod((c + 1) as nat, n as nat);
    } else {
        vstd::arithmetic::div_mod::lemma_mod_self_0(n);
    }
    assert(h1.search_matches == h0.search_matches);
    assert(h1.search_cursor as int == (c + 1) % n);
}

/// After the list is rebuilt, the selection is on one of its lines, or there is none and
/// the list is empty.
pub proof fn lemma_settled_selection_on_a_line(selected: Option<usize>, len: nat)
    requires
        len <= usize::MAX,
    ensures
        match settled_selection(selected, len) {
            Some(i) => i < len,
            None => len == 0,
        },
{
}

/// Jumping to the bottom of a list that has lines selects its last line, and jumping to
/// the top its first.
pub proof fn lemma_jumps_select_ends(h0: Home, h1: Home, h2: Home, r1: Option<Action>, r2: Option<Action>)
    requires
        0 < h0.list_entries@.len() <= usize::MAX,
        Home::updated(h0, Action::CmdJumpBottom, h1, r1),
        Home::updated(h0, Action::CmdJumpTop, h2, r2),
    ensures
        h1.selected_entry() == Some(h0.list_entries@.last()),
        h2.selected_entry() == Some(h0.list_entries@[0]),
{
}


/// Esc closes whatever popup is open, and asks for nothing.
pub proof fn lemma_escape_closes_any_popup(h0: Home, h1: Home, res: Option<Action>)
    requires
        h0.wf(),
        h0.popup_state is Open,
        Home::key_handled(h0, Key::Esc, h1, res),
    ensures
        h1.popup_state is Closed,
        res is None,
{
}


/// The search matches are exactly the lines whose text holds the query, in increasing
/// order.
pub proof fn lemma_matches_are_exactly_the_hits(entries: Seq<ListEntryView>, q: Seq<char>, n: nat)
    requires
        n <= entries.len(),
    ensures
        forall|i: int| #[trigger] matching_indices(entries, q, n).contains(i) <==> (0 <= i < n && has_substring(entry_text(entries[i]), q)),
        forall|a: int, b: int|
            0 <= a < b < matching_indices(entries, q, n).len() ==> #[trigger] matching_indices(entries, q, n)[a] < #[trigger] matching_indices(entries, q, n)[b],
    decreases n,
{
    if n > 0 {
        let m = (n - 1) as nat;
        lemma_matches_are_exactly_the_hits(entries, q, m);
        let rest = matching_indices(entries, q, m);
        let all = matching_indices(entries, q, n);
        if has_substring(entry_text(entries[n - 1]), q) {
            assert(all == rest.push(n - 1));
            assert forall|i: int| #[trigger] all.contains(i) <==> (0 <= i < n && has_substring(entry_text(entries[i]), q)) by {
                if all.contains(i) && i != n - 1 {
                    let j = choose|j: int| 0 <= j < all.len() && all[j] == i;
                    assert(rest[j] == i);
                    assert(rest.contains(i));
                }
                if rest.contains(i) {
                    let j = choose|j: int| 0 <= j < rest.len() && rest[j] == i;
                    assert(all[j] == i);
                }
                if i == n - 1 {
                    assert(all[all.len() - 1] == i);
                }
            }
            assert forall|a: int, b: int| 0 <= a < b < all.len() implies #[trigger] all[a] < #[trigger] all[b] by {
                if b == all.len() - 1 {
                    assert(rest.contains(rest[a]));
                } else {
                    assert(all[a] == rest[a] && all[b] == rest[b]);
                }
            }
        } else {
            assert(all == rest);
        }
    }
}


/// Whether line `i` of `h` is selected and stands for session `s`, on its own or under a
/// project.
pub open spec fn selects_session_line(h: Home, i: usize, s: Session) -> bool {
    &&& h.selected == Some(i)
    &&& i < h.list_entries@.len()
    &&& ((h.list_entries@[i as int] matches ListEntry::Session(x) && x == s) || (h.list_entries@[i as int] matches ListEntry::ProjectSession(
        _,
        x,
    ) && x == s))
}

/// Editing with the selection on any line that stands for a session, with a project or
/// without one, opens the rename popup for that session, holding its name in the Name
/// input; the list and the selection stay, and nothing is asked for yet.
pub proof fn lemma_edit_opens_rename_for_selected_session(h0: Home, h1: Home, res: Option<Action>, i: usize, s: Session)
    requires
        h0.wf(),
        selects_session_line(h0, i, s),
        Home::updated(h0, Action::CmdEdit, h1, res),
    ensures
        h1.popup_state matches PopupState::Open(Popup::EditSession(pp)) && pp.session@ == s@
            && pp.form.title@ == "Edit Session"@ && pp.form.form_input_states@[0].value@ == s.name@,
        res is None,
        h1.list_entries == h0.list_entries,
        h1.selected == h0.selected,
{
}

/// Editing with the selection on a project's line opens the edit popup for that project,
/// holding its name and path.
pub proof fn lemma_edit_opens_for_selected_project(h0: Home, h1: Home, res: Option<Action>, i: usize, p: Project)
    requires
        h0.wf(),
        h0.selected == Some(i),
        i < h0.list_entries@.len(),
        h0.list_entries@[i as int] == ListEntry::Project(p),
        Home::updated(h0, Action::CmdEdit, h1, res),
    ensures
        h1.popup_state matches PopupState::Open(Popup::EditProject(pp)) && pp.project@ == p@
            && pp.form.form_input_states@[0].value@ == p.name@ && pp.form.form_input_states@[1].value@ == p.path@,
        res is None,
{
}

/// Deleting with the selection on any line that stands for a session, with a project or
/// without one, opens the question whether to kill that session, naming it.
pub proof fn lemma_delete_asks_to_kill_selected_session(h0: Home, h1: Home, res: Option<Action>, i: usize, s: Session)
    requires
        h0.wf(),
        selects_session_line(h0, i, s),
        Home::updated(h0, Action::CmdDeleteItem, h1, res),
    ensures
        h1.popup_state matches PopupState::Open(Popup::RemoveSession(pp)) && pp.session@ == s@
            && pp.form.body@ == question("Kill "@, s.name@),
        res is None,
        h1.list_entries == h0.list_entries,
        h1.selected == h0.selected,
{
}

/// Deleting with the selection on a project's line asks whether to remove that project,
/// and on a worktree's line whether to remove that worktree of its project.
pub proof fn lemma_delete_asks_for_selected_project_or_worktree(h0: Home, h1: Home, res: Option<Action>, i: usize)
    requires
        h0.wf(),
        h0.selected == Some(i),
        i < h0.list_entries@.len(),
        Home::updated(h0, Action::CmdDeleteItem, h1, res),
    ensures
        h0.list_entries@[i as int] matches ListEntry::Project(p) ==> h1.popup_state matches PopupState::Open(
            Popup::RemoveProject(pp),
        ) && pp.project@ == p@ && pp.form.body@ == question("Remove "@, p.name@),
        h0.list_entries@[i as int] matches ListEntry::AvailableWorktree(p, w) ==> h1.popup_state matches PopupState::Open(
            Popup::RemoveWorktree(pp),
        ) && pp.project@ == p@ && pp.worktree@ == w@ && pp.form.body@ == question("Remove "@, w.name@),
        res is None,
{
}

/// When the list is rebuilt after a state update, the selection stays where it was,
/// moved up only as far as needed to stay on the list (the first line when there was no
/// selection); an empty list has no selection. In particular a selection on a line that
/// the new list still has does not move.
pub proof fn lemma_refresh_keeps_selection(
    h0: Home,
    projects: std::collections::HashMap<u128, Project>,
    sessions: std::collections::HashMap<u128, Session>,
    h1: Home,
    res: Option<Action>,
)
    requires
        h0.wf(),
        Home::updated(h0, Action::StateUpdated(projects, sessions), h1, res),
    ensures
        h1.list_entries@.len() == 0 ==> h1.selected is None,
        h1.list_entries@.len() > 0 ==> h1.selected is Some,
        h1.list_entries@.len() > 0 ==> (h1.selected->0 as int) == (match h0.selected {
            Some(i) => if (i as int) < h1.list_entries@.len() { i as int } else { h1.list_entries@.len() - 1 },
            None => 0,
        }),
        forall|i: usize| h0.selected == Some(i) && (i as int) < h1.list_entries@.len() ==> h1.selected == Some(i),
        res is None,
{
}

} // verus!
