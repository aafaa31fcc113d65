use vstd::prelude::*;

use crate::action::Action;
use crate::action::action_name;
use crate::key::{Key, KeyPress};
use vstd::string::*;

verus! {

/// The key bindings of a mode: each a sequence of keys and the action it gives.
pub struct KeyBindings {
    pub bindings: Vec<(Vec<KeyPress>, Action)>,
}

impl KeyBindings {
    /// `i` is the first binding whose keys are `keys`.
    pub open spec fn first_binding(self, keys: Seq<KeyPress>, i: int) -> bool {
        &&& 0 <= i < self.bindings@.len()
        &&& self.bindings@[i].0@ == keys
        &&& forall|j: int| 0 <= j < i ==> (#[trigger] self.bindings@[j]).0@ != keys
    }

    /// No binding has keys `keys`.
    pub open spec fn unbound(self, keys: Seq<KeyPress>) -> bool {
        forall|j: int| 0 <= j < self.bindings@.len() ==> (#[trigger] self.bindings@[j]).0@ != keys
    }

    /// The first binding whose keys are `keys`, if any.
    pub fn find(&self, keys: &Vec<KeyPress>) -> (res: Option<usize>)
        ensures
            match res {
                Some(i) => self.first_binding(keys@, i as int),
                None => self.unbound(keys@),
            },
    {
        let mut i: usize = 0;
        while i < self.bindings.len()
            invariant
                i <= self.bindings.len(),
                forall|j: int| 0 <= j < i ==> (#[trigger] self.bindings@[j]).0@ != keys@,
            decreases self.bindings.len() - i,
        {
            if same_keys(&self.bindings[i].0, keys) {
                return Some(i);
            }
            i = i + 1;
        }
        None
    }

    /// Reads a key: a key bound on its own gives its binding; otherwise the key is added
    /// to the keys pressed so far, and those keys give their binding, if any.
    pub fn resolve(&self, pending: &mut Vec<KeyPress>, key: KeyPress) -> (res: Option<usize>)
        ensures
            !self.unbound(seq![key]) ==> {
                &&& final(pending)@ == old(pending)@
                &&& res is Some && self.first_binding(seq![key], res->0 as int)
            },
            self.unbound(seq![key]) ==> {
                &&& final(pending)@ == old(pending)@.push(key)
                &&& match res {
                    Some(i) => self.first_binding(final(pending)@, i as int),
                    None => self.unbound(final(pending)@),
                }
            },
    {
        let single = vec![key];
        assert(single@ =~= seq![key]);
        match self.find(&single) {
            Some(i) => Some(i),
            None => {
                pending.push(key);
                self.find(pending)
            },
        }
    }
}

/// Whether `a` and `b` are the same keys.
pub fn same_keys(a: &Vec<KeyPress>, b: &Vec<KeyPress>) -> (res: bool)
    ensures
        res == (a@ == b@),
{
    if a.len() != b.len() {
        return false;
    }
    let mut i: usize = 0;
    while i < a.len()
        invariant
            a.len() == b.len(),
            i <= a.len(),
            forall|j: int| 0 <= j < i ==> a@[j] == b@[j],
        decreases a.len() - i,
    {
        if a[i] != b[i] {
            return false;
        }
        i = i + 1;
    }
    assert(a@ =~= b@);
    true
}


/// The name a key is shown by: `space`, the character itself, or the key's name in lower
/// case.
pub open spec fn key_name(k: Key) -> Seq<char> {
    match k {
        Key::Char(' ') => "space"@,
        Key::Char(c) => seq![c],
        Key::Backspace => "backspace"@,
        Key::Enter => "enter"@,
        Key::Esc => "esc"@,
        Key::Tab => "tab"@,
        Key::BackTab => "backtab"@,
        Key::Up => "up"@,
        Key::Down => "down"@,
        Key::Left => "left"@,
        Key::Right => "right"@,
        Key::Other => Seq::<char>::empty(),
    }
}

/// The modifiers held, in the order ctrl, shift, alt, each followed by a hyphen.
pub open spec fn modifiers_label(k: KeyPress) -> Seq<char> {
    (if k.ctrl { "ctrl-"@ } else { Seq::<char>::empty() }) + (if k.shift { "shift-"@ } else { Seq::<char>::empty() }) + (
    if k.alt {
        "alt-"@
    } else {
        Seq::<char>::empty()
    })
}

/// How a key is shown: its modifiers, then its name (see `modifiers_label`, `key_name`).
pub open spec fn key_label(k: KeyPress) -> Seq<char> {
    modifiers_label(k) + key_name(k.key)
}

/// The labels of `keys`, separated by single spaces.
pub open spec fn keys_label(keys: Seq<KeyPress>) -> Seq<char>
    decreases keys.len(),
{
    if keys.len() == 0 {
        Seq::<char>::empty()
    } else if keys.len() == 1 {
        key_label(keys[0])
    } else {
        keys_label(keys.drop_last()) + seq![' '] + key_label(keys.last())
    }
}

/// The name of a key that is not a character other than a space (see `key_name`).
fn key_name_str(k: Key) -> (res: &'static str)
    requires
        k is Char ==> k == Key::Char(' '),
    ensures
        res@ == key_name(k),
{
    proof {
        reveal_strlit("space");
        reveal_strlit("backspace");
        reveal_strlit("enter");
        reveal_strlit("esc");
        reveal_strlit("tab");
        reveal_strlit("backtab");
        reveal_strlit("up");
        reveal_strlit("down");
        reveal_strlit("left");
        reveal_strlit("right");
        reveal_strlit("");
    }
    match k {
        Key::Char(_) => "space",
        Key::Backspace => "backspace",
        Key::Enter => "enter",
        Key::Esc => "esc",
        Key::Tab => "tab",
        Key::BackTab => "backtab",
        Key::Up => "up",
        Key::Down => "down",
        Key::Left => "left",
        Key::Right => "right",
        Key::Other => "",
    }
}

/// How a key is shown (see `key_label`).
pub fn key_label_string(k: KeyPress) -> (res: String)
    ensures
        res@ == key_label(k),
{
    proof {
        reveal_strlit("ctrl-");
        reveal_strlit("shift-");
        reveal_strlit("alt-");
    }
    let mut s = String::new();
    if k.ctrl {
        s.append("ctrl-");
    }
    if k.shift {
        s.append("shift-");
    }
    if k.alt {
        s.append("alt-");
    }
    assert(s@ =~= modifiers_label(k));
    match k.key {
        Key::Char(c) => {
            if c == ' ' {
                s.append(key_name_str(k.key));
            } else {
                s.push(c);
            }
        },
        _ => {
            s.append(key_name_str(k.key));
        },
    }
    assert(s@ =~= key_label(k));
    s
}

/// The labels of `keys`, separated by single spaces (see `keys_label`).
pub fn keys_label_string(keys: &Vec<KeyPress>) -> (res: String)
    ensures
        res@ == keys_label(keys@),
{
    let mut s = String::new();
    let mut i: usize = 0;
    while i < keys.len()
        invariant
            i <= keys.len(),
            s@ == keys_label(keys@.take(i as int)),
        decreases keys.len() - i,
    {
        assert(keys@.take(i + 1).drop_last() =~= keys@.take(i as int));
        if i > 0 {
            s.push(' ');
        }
        let label = key_label_string(keys[i]);
        s.append(label.as_str());
        if i == 0 {
            assert(s@ =~= keys_label(keys@.take(1)));
        } else {
            assert(s@ =~= keys_label(keys@.take(i + 1)));
        }
        i = i + 1;
    }
    assert(keys@.take(keys.len() as int) =~= keys@);
    s
}

impl KeyBindings {
    /// Each binding as the labels of its keys and the name of its action, in order.
    pub open spec fn rows(self) -> Seq<(Seq<char>, Seq<char>)> {
        self.bindings@.map_values(|b: (Vec<KeyPress>, Action)| (keys_label(b.0@), action_name(b.1)))
    }

    /// Each binding as the labels of its keys, separated by spaces, and the name of its
    /// action, for the help.
    pub fn keymap_rows(&self) -> (res: Vec<(String, String)>)
        ensures
            res@.map_values(|p: (String, String)| (p.0@, p.1@)) == self.rows(),
    {
        let mut res: Vec<(String, String)> = Vec::new();
        let mut i: usize = 0;
        while i < self.bindings.len()
            invariant
                i <= self.bindings.len(),
                res@.map_values(|p: (String, String)| (p.0@, p.1@)) == self.rows().take(i as int),
            decreases self.bindings.len() - i,
        {
            let ghost prev = res@;
            let keys = keys_label_string(&self.bindings[i].0);
            let name = String::from_str(self.bindings[i].1.name());
            res.push((keys, name));
            assert(res@.map_values(|p: (String, String)| (p.0@, p.1@)) =~= prev.map_values(|p: (String, String)| (p.0@, p.1@)).push((keys_label(self.bindings@[i as int].0@), action_name(self.bindings@[i as int].1))));
            assert(self.rows().take(i + 1) =~= self.rows().take(i as int).push(self.rows()[i as int]));
            i = i + 1;
        }
        assert(self.rows().take(self.bindings.len() as int) =~= self.rows());
        res
    }
}

} // verus!
