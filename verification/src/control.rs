use vstd::prelude::*;

use crate::action::Action;
use crate::key::KeyPress;
use crate::keybindings::KeyBindings;

verus! {

/// What the main loop does after a round of actions.
pub enum LoopStep {
    /// Leave the terminal for the shell, then come back.
    Suspend,
    /// Stop.
    Quit,
    /// Go on reading events.
    Continue,
}

/// The decisions of the main loop: whether to quit or suspend, and the keys pressed since
/// the last tick that have not yet given an action.
pub struct Control {
    pub should_quit: bool,
    pub should_suspend: bool,
    pub pending_keys: Vec<KeyPress>,
}

impl Control {
    /// Running, with no keys pending.
    pub fn new() -> (res: Control)
        ensures
            !res.should_quit,
            !res.should_suspend,
            res.pending_keys@.len() == 0,
    {
        Control { should_quit: false, should_suspend: false, pending_keys: Vec::new() }
    }

    /// Reads a key the screen does not take (`capturing` is false): a key bound on its own
    /// gives its binding; otherwise it is added to the pending keys, which give their
    /// binding if they have one. While the screen takes the keys nothing happens. The
    /// result is the index of the binding whose action to carry out.
    pub fn handle_key_event(&mut self, capturing: bool, bindings: &KeyBindings, key: KeyPress) -> (res: Option<usize>)
        ensures
            final(self).should_quit == old(self).should_quit,
            final(self).should_suspend == old(self).should_suspend,
            capturing ==> res is None && final(self).pending_keys@ == old(self).pending_keys@,
            !capturing && !bindings.unbound(seq![key]) ==> {
                &&& final(self).pending_keys@ == old(self).pending_keys@
                &&& res is Some && bindings.first_binding(seq![key], res->0 as int)
            },
            !capturing && bindings.unbound(seq![key]) ==> {
                &&& final(self).pending_keys@ == old(self).pending_keys@.push(key)
                &&& match res {
                    Some(i) => bindings.first_binding(final(self).pending_keys@, i as int),
                    None => bindings.unbound(final(self).pending_keys@),
                }
            },
    {
        if capturing {
            return None;
        }
        bindings.resolve(&mut self.pending_keys, key)
    }

    /// Takes note of an action: a tick forgets the pending keys, quit asks to stop,
    /// suspend asks to leave the terminal and resume to stay; other actions change
    /// nothing here.
    pub fn handle_action(&mut self, action: &Action)
        ensures
            match *action {
                Action::Tick => *final(self) == (Control { pending_keys: final(self).pending_keys, ..*old(self) })
                    && final(self).pending_keys@.len() == 0,
                Action::Quit => *final(self) == (Control { should_quit: true, ..*old(self) }),
                Action::Suspend => *final(self) == (Control { should_suspend: true, ..*old(self) }),
                Action::Resume => *final(self) == (Control { should_suspend: false, ..*old(self) }),
                _ => *final(self) == *old(self),
            },
    {
        match action {
            Action::Tick => {
                self.pending_keys = Vec::new();
            },
            Action::Quit => {
                self.should_quit = true;
            },
            Action::Suspend => {
                self.should_suspend = true;
            },
            Action::Resume => {
                self.should_suspend = false;
            },
            _ => {},
        }
    }

    /// What to do after a round of actions: suspending comes before quitting.
    pub fn next_step(&self) -> (res: LoopStep)
        ensures
            self.should_suspend ==> res is Suspend,
            !self.should_suspend && self.should_quit ==> res is Quit,
            !self.should_suspend && !self.should_quit ==> res is Continue,
    {
        if self.should_suspend {
            LoopStep::Suspend
        } else if self.should_quit {
            LoopStep::Quit
        } else {
            LoopStep::Continue
        }
    }
}

} // verus!
