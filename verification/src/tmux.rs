use vstd::prelude::*;
use vstd::string::*;

use crate::project::{Project, ProjectView};
use crate::session::{Session, SessionView};
use crate::text::{lines, spec_lines, views_of};

verus! {

/// Why a tmux session could not be set up.
#[derive(Clone, Copy, Debug, PartialEq, Eq, Structural)]
pub enum TmuxError {
    /// Neither the session's worktree, the session itself nor its project has a path.
    NoPathForSession,
}

/// The tmux name of a session: its own name, prefixed by its project's name and `_` when
/// it has a project.
pub open spec fn tmux_session_name(session_name: Seq<char>, project_name: Option<Seq<char>>) -> Seq<
    char,
> {
    match project_name {
        None => session_name,
        Some(p) => p + seq!['_'] + session_name,
    }
}

pub open spec fn project_name_of(project: Option<ProjectView>) -> Option<Seq<char>> {
    match project {
        Some(p) => Some(p.name),
        None => None,
    }
}

/// The directory a session starts in: the first non-empty one of its worktree's path, its
/// own path and its project's path.
pub open spec fn tmux_session_path(session: SessionView, project: Option<ProjectView>) -> Option<
    Seq<char>,
> {
    if session.worktree is Some && session.worktree->0.path.len() > 0 {
        Some(session.worktree->0.path)
    } else if session.path is Some && session.path->0.len() > 0 {
        Some(session.path->0)
    } else if project is Some && project->0.path.len() > 0 {
        Some(project->0.path)
    } else {
        None
    }
}

pub open spec fn opt_project_view(project: Option<&Project>) -> Option<ProjectView> {
    match project {
        Some(p) => Some(p@),
        None => None,
    }
}

/// The tmux name of `session` within `project`.
pub fn get_tmux_session_name(session: &Session, project: Option<&Project>) -> (res: String)
    ensures
        res@ == tmux_session_name(session.name@, project_name_of(opt_project_view(project))),
{
    match project {
        None => session.name.clone(),
        Some(p) => {
            let mut name = p.name.clone();
            name.push('_');
            name.append(session.name.as_str());
            assert(name@ =~= p.name@ + seq!['_'] + session.name@);
            name
        },
    }
}

/// The directory `session` starts in (see `tmux_session_path`), or an error when it has
/// none.
pub fn get_tmux_session_path(session: &Session, project: Option<&Project>) -> (res: Result<
    String,
    TmuxError,
>)
    ensures
        match res {
            Ok(p) => tmux_session_path(session@, opt_project_view(project)) == Some(p@),
            Err(e) => tmux_session_path(session@, opt_project_view(project)) is None && e
                == TmuxError::NoPathForSession,
        },
{
    if let Some(w) = &session.worktree {
        if !w.path.as_str().is_empty() {
            return Ok(w.path.clone());
        }
    }
    if let Some(p) = &session.path {
        if !p.as_str().is_empty() {
            return Ok(p.clone());
        }
    }
    if let Some(p) = project {
        if !p.path.as_str().is_empty() {
            return Ok(p.path.clone());
        }
    }
    Err(TmuxError::NoPathForSession)
}

/// The session names tmux listed: none when the listing failed (tmux fails when no server
/// runs), else one per line of its output.
pub fn tmux_session_list(succeeded: bool, stdout: &str) -> (res: Vec<String>)
    ensures
        succeeded ==> views_of(res@) == spec_lines(stdout@),
        !succeeded ==> res@.len() == 0,
{
    if !succeeded {
        return Vec::new();
    }
    lines(stdout)
}

/// Arguments that make tmux list its sessions' names, one per line.
pub fn list_sessions_args() -> (res: Vec<String>)
    ensures
        views_of(res@) == seq!["list-sessions"@, "-F"@, "#{session_name}"@],
{
    let res = vec![
        String::from_str("list-sessions"),
        String::from_str("-F"),
        String::from_str("#{session_name}"),
    ];
    assert(views_of(res@) =~= seq!["list-sessions"@, "-F"@, "#{session_name}"@]);
    res
}

/// Arguments that make tmux start a detached session `name` in directory `path`.
pub fn new_session_args(name: &str, path: &str) -> (res: Vec<String>)
    ensures
        views_of(res@) == seq!["new-session"@, "-d"@, "-s"@, name@, "-c"@, path@],
{
    let res = vec![
        String::from_str("new-session"),
        String::from_str("-d"),
        String::from_str("-s"),
        String::from_str(name),
        String::from_str("-c"),
        String::from_str(path),
    ];
    assert(views_of(res@) =~= seq!["new-session"@, "-d"@, "-s"@, name@, "-c"@, path@]);
    res
}

/// Arguments that make tmux end session `name`.
pub fn kill_session_args(name: &str) -> (res: Vec<String>)
    ensures
        views_of(res@) == seq!["kill-session"@, "-t"@, name@],
{
    let res = vec![String::from_str("kill-session"), String::from_str("-t"), String::from_str(name)];
    assert(views_of(res@) =~= seq!["kill-session"@, "-t"@, name@]);
    res
}

/// Arguments that make tmux rename session `from` to `to`.
pub fn rename_session_args(from: &str, to: &str) -> (res: Vec<String>)
    ensures
        views_of(res@) == seq!["rename-session"@, "-t"@, from@, to@],
{
    let res = vec![
        String::from_str("rename-session"),
        String::from_str("-t"),
        String::from_str(from),
        String::from_str(to),
    ];
    assert(views_of(res@) =~= seq!["rename-session"@, "-t"@, from@, to@]);
    res
}

/// The tmux command that brings session `name` to the terminal: from inside tmux the
/// client switches to it, from outside it is attached.
pub fn attach_session_args(inside_tmux: bool, name: &str) -> (res: Vec<String>)
    ensures
        inside_tmux ==> views_of(res@) == seq!["switch-client"@, "-t"@, name@],
        !inside_tmux ==> views_of(res@) == seq!["attach-session"@, "-t"@, name@],
{
    let cmd = if inside_tmux {
        String::from_str("switch-client")
    } else {
        String::from_str("attach-session")
    };
    let res = vec![cmd, String::from_str("-t"), String::from_str(name)];
    assert(views_of(res@) =~= seq![res@[0]@, "-t"@, name@]);
    res
}

} // verus!
