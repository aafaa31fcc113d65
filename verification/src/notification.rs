use vstd::prelude::*;

use crate::action::Action;

verus! {

/// How many ticks an error message stays on screen.
pub const DEFAULT_TICK_DURATION: u8 = 50;

/// The error message on screen, if any, and how many ticks it has left.
pub struct Notification {
    pub msg: Option<String>,
    pub ticks_remaining: u8,
}

/// What a tick does to a message that is shown (`shown`) with `ticks` left: one tick
/// less, and the message goes when none is left. Nothing happens to no message.
pub open spec fn after_tick(shown: bool, ticks: u8) -> (bool, u8) {
    if shown {
        let t = if ticks > 0 { (ticks - 1) as u8 } else { 0u8 };
        (t != 0, t)
    } else {
        (shown, ticks)
    }
}

/// `after_tick` applied `n` times.
pub open spec fn after_ticks(shown: bool, ticks: u8, n: nat) -> (bool, u8)
    decreases n,
{
    if n == 0 {
        (shown, ticks)
    } else {
        let (s, t) = after_ticks(shown, ticks, (n - 1) as nat);
        after_tick(s, t)
    }
}

/// What a tick does to a notification (see `after_tick`): `new` has one tick less than
/// `old` while a message is shown, keeps the message while ticks are left, and has none
/// once they are used up.
pub open spec fn ticked(old: Notification, new: Notification) -> bool {
    let (shown, t) = after_tick(old.msg is Some, old.ticks_remaining);
    &&& new.ticks_remaining == t
    &&& (shown ==> new.msg == old.msg)
    &&& (!shown ==> new.msg is None)
}

impl Notification {
    /// No message.
    pub fn new() -> (res: Notification)
        ensures
            res.msg is None,
            res.ticks_remaining == 0,
    {
        Notification { msg: None, ticks_remaining: 0 }
    }

    /// A notification never takes the keys.
    pub fn is_capturing_input(&self) -> (res: bool)
        ensures
            !res,
    {
        false
    }

    /// An error shows its message for `DEFAULT_TICK_DURATION` ticks; each tick counts one
    /// down, and the message goes when none is left; other actions change nothing. Never
    /// gives an action back.
    pub fn update(&mut self, action: Action) -> (res: Option<Action>)
        ensures
            res is None,
            match action {
                Action::Tick => ticked(*old(self), *final(self)),
                Action::Error(m) => final(self).msg == Some(m) && final(self).ticks_remaining == DEFAULT_TICK_DURATION,
                _ => *final(self) == *old(self),
            },
    {
        match action {
            Action::Tick => {
                if self.msg.is_some() {
                    self.ticks_remaining = if self.ticks_remaining > 0 { self.ticks_remaining - 1 } else { 0 };
                    if self.ticks_remaining == 0 {
                        self.msg = None;
                    }
                }
            },
            Action::Error(msg) => {
                self.msg = Some(msg);
                self.ticks_remaining = DEFAULT_TICK_DURATION;
            },
            _ => {},
        }
        None
    }
}

/// An error message stays on screen for exactly `DEFAULT_TICK_DURATION` ticks: after
/// fewer ticks it is still shown, with that many ticks fewer left, and after that many or
/// more it is gone, with none left; ticks after that change nothing.
pub proof fn lemma_error_shown_for_duration(n: nat)
    ensures
        n < DEFAULT_TICK_DURATION ==> after_ticks(true, DEFAULT_TICK_DURATION, n) == (true, (DEFAULT_TICK_DURATION - n) as u8),
        n >= DEFAULT_TICK_DURATION ==> after_ticks(true, DEFAULT_TICK_DURATION, n) == (false, 0u8),
    decreases n,
{
    if n > 0 {
        lemma_error_shown_for_duration((n - 1) as nat);
    }
}

/// Over any run of ticks after an error `m` was shown (`notes[0]` is the notification the
/// error left, each next one what a tick made of the one before), the message is `m`
/// with `DEFAULT_TICK_DURATION - k` ticks left after `k` ticks while `k` is below
/// `DEFAULT_TICK_DURATION`, and gone, with no ticks left, from then on.
pub proof fn lemma_error_message_lifetime(notes: Seq<Notification>, m: String)
    requires
        notes.len() > 0,
        notes[0].msg == Some(m),
        notes[0].ticks_remaining == DEFAULT_TICK_DURATION,
        forall|i: int| 0 <= i < notes.len() - 1 ==> ticked(#[trigger] notes[i], notes[i + 1]),
    ensures
        forall|k: int| 0 <= k < notes.len() && k < DEFAULT_TICK_DURATION ==> (#[trigger] notes[k]).msg == Some(m)
            && notes[k].ticks_remaining == DEFAULT_TICK_DURATION - k,
        forall|k: int| DEFAULT_TICK_DURATION <= k < notes.len() ==> (#[trigger] notes[k]).msg is None
            && notes[k].ticks_remaining == 0,
    decreases notes.len(),
{
    if notes.len() > 1 {
        let prefix = notes.drop_last();
        assert forall|i: int| 0 <= i < prefix.len() - 1 implies ticked(#[trigger] prefix[i], prefix[i + 1]) by {
            assert(ticked(notes[i], notes[i + 1]));
        }
        lemma_error_message_lifetime(prefix, m);
        let last = notes.len() - 1;
        assert(prefix[last - 1] == notes[last - 1]);
        assert(ticked(notes[last - 1], notes[last]));
        assert forall|k: int| 0 <= k < notes.len() && k < DEFAULT_TICK_DURATION implies (#[trigger] notes[k]).msg == Some(m)
            && notes[k].ticks_remaining == DEFAULT_TICK_DURATION - k by {
            if k < last {
                assert(prefix[k] == notes[k]);
            }
        }
        assert forall|k: int| DEFAULT_TICK_DURATION <= k < notes.len() implies (#[trigger] notes[k]).msg is None
            && notes[k].ticks_remaining == 0 by {
            if k < last {
                assert(prefix[k] == notes[k]);
            }
        }
    }
}

} // verus!
