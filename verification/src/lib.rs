pub mod form;
pub mod git;
pub mod key;
pub mod project;
pub mod session;
pub mod text;
pub mod tmux;
pub mod worktree;
pub mod state;
pub mod ids;
pub mod state_laws;
pub mod action;
pub mod popups;
pub mod notification;
pub mod keybindings;
pub mod order;
pub mod home_list;
pub mod home;
pub mod control;
pub mod home_laws;
