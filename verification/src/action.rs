use std::collections::HashMap;
use vstd::prelude::*;

use crate::project::Project;
use crate::session::Session;
use crate::worktree::Worktree;

verus! {

/// Something that happens in the application: a tick or render of the terminal, a command
/// bound to keys, or a request on the projects and sessions.
#[derive(Clone, Debug, PartialEq, Eq)]
pub enum Action {
    Tick,
    Render,
    Resize(u16, u16),
    Suspend,
    Resume,
    Quit,
    ClearScreen,
    Error(String),
    Help,
    CmdSelectNext,
    CmdSelectPrev,
    CmdAddProject,
    CmdAddSession,
    CmdDeleteItem,
    CmdJumpTop,
    CmdJumpBottom,
    CmdStartSearch,
    CmdSearchNext,
    CmdSearchPrev,
    CmdAttach,
    CmdEdit,
    CmdSelectPrevSession,
    CancelInput,
    SubmitProject(Project),
    UpdateProject(Project),
    RemoveProject(Project),
    SubmitSession(Session),
    UpdateSession(Session),
    AttachSession(Session),
    RemoveSession(Session),
    RemoveWorktree(Project, Worktree),
    StateUpdated(HashMap<u128, Project>, HashMap<u128, Session>),
}

/// The name of an action's variant.
pub open spec fn action_name(a: Action) -> Seq<char> {
    match a {
        Action::Tick => "Tick"@,
        Action::Render => "Render"@,
        Action::Resize(_, _) => "Resize"@,
        Action::Suspend => "Suspend"@,
        Action::Resume => "Resume"@,
        Action::Quit => "Quit"@,
        Action::ClearScreen => "ClearScreen"@,
        Action::Error(_) => "Error"@,
        Action::Help => "Help"@,
        Action::CmdSelectNext => "CmdSelectNext"@,
        Action::CmdSelectPrev => "CmdSelectPrev"@,
        Action::CmdAddProject => "CmdAddProject"@,
        Action::CmdAddSession => "CmdAddSession"@,
        Action::CmdDeleteItem => "CmdDeleteItem"@,
        Action::CmdJumpTop => "CmdJumpTop"@,
        Action::CmdJumpBottom => "CmdJumpBottom"@,
        Action::CmdStartSearch => "CmdStartSearch"@,
        Action::CmdSearchNext => "CmdSearchNext"@,
        Action::CmdSearchPrev => "CmdSearchPrev"@,
        Action::CmdAttach => "CmdAttach"@,
        Action::CmdEdit => "CmdEdit"@,
        Action::CmdSelectPrevSession => "CmdSelectPrevSession"@,
        Action::CancelInput => "CancelInput"@,
        Action::SubmitProject(_) => "SubmitProject"@,
        Action::UpdateProject(_) => "UpdateProject"@,
        Action::RemoveProject(_) => "RemoveProject"@,
        Action::SubmitSession(_) => "SubmitSession"@,
        Action::UpdateSession(_) => "UpdateSession"@,
        Action::AttachSession(_) => "AttachSession"@,
        Action::RemoveSession(_) => "RemoveSession"@,
        Action::RemoveWorktree(_, _) => "RemoveWorktree"@,
        Action::StateUpdated(_, _) => "StateUpdated"@,
    }
}

impl Action {
    /// The name of this action's variant, as the help and the key bindings show it.
    pub fn name(&self) -> (res: &'static str)
        ensures
            res@ == action_name(*self),
    {
        match self {
            Action::Tick => "Tick",
            Action::Render => "Render",
            Action::Resize(_, _) => "Resize",
            Action::Suspend => "Suspend",
            Action::Resume => "Resume",
            Action::Quit => "Quit",
            Action::ClearScreen => "ClearScreen",
            Action::Error(_) => "Error",
            Action::Help => "Help",
            Action::CmdSelectNext => "CmdSelectNext",
            Action::CmdSelectPrev => "CmdSelectPrev",
            Action::CmdAddProject => "CmdAddProject",
            Action::CmdAddSession => "CmdAddSession",
            Action::CmdDeleteItem => "CmdDeleteItem",
            Action::CmdJumpTop => "CmdJumpTop",
            Action::CmdJumpBottom => "CmdJumpBottom",
            Action::CmdStartSearch => "CmdStartSearch",
            Action::CmdSearchNext => "CmdSearchNext",
            Action::CmdSearchPrev => "CmdSearchPrev",
            Action::CmdAttach => "CmdAttach",
            Action::CmdEdit => "CmdEdit",
            Action::CmdSelectPrevSession => "CmdSelectPrevSession",
            Action::CancelInput => "CancelInput",
            Action::SubmitProject(_) => "SubmitProject",
            Action::UpdateProject(_) => "UpdateProject",
            Action::RemoveProject(_) => "RemoveProject",
            Action::SubmitSession(_) => "SubmitSession",
            Action::UpdateSession(_) => "UpdateSession",
            Action::AttachSession(_) => "AttachSession",
            Action::RemoveSession(_) => "RemoveSession",
            Action::RemoveWorktree(_, _) => "RemoveWorktree",
            Action::StateUpdated(_, _) => "StateUpdated",
        }
    }
}

/// The modes the application can be in; key bindings are given per mode.
#[derive(Clone, Copy, Debug, PartialEq, Eq, Structural, Hash)]
pub enum Mode {
    Home,
}

impl Default for Mode {
    fn default() -> (res: Mode)
        ensures
            res == Mode::Home,
    {
        Mode::Home
    }
}

} // verus!
