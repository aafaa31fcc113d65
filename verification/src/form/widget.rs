use vstd::prelude::*;

use crate::form::input::{false_chars, is_false_text, is_true_text, true_chars, FormInput};
use crate::key::Key;
use crate::text::{char_count, insert_char, remove_char, spec_insert_char};

verus! {

/// How a form reads keys: a form of inputs, a yes/no question, or neither.
#[derive(Clone, Copy, Debug, PartialEq, Eq, Structural)]
pub enum FormType {
    Standard,
    Confirmation,
    Custom,
}

/// What a key did to a form.
#[derive(Clone, Copy, Debug, PartialEq, Eq, Structural)]
pub enum FormEvent {
    Continue,
    Submit,
    Cancel,
}

/// An input of a form with its current text, the cursor position in characters, whether
/// its text was last found valid, and whether it is hidden.
pub struct FormInputState {
    pub form_input: FormInput,
    pub value: String,
    pub cursor_position: usize,
    pub is_valid: bool,
    pub hidden: bool,
}

/// A popup form: a title, a body text, how it reads keys, its inputs, and which input has
/// the focus.
pub struct Form {
    pub title: String,
    pub body: String,
    pub form_type: FormType,
    pub form_input_states: Vec<FormInputState>,
    pub focused: usize,
}

pub open spec fn min_int(a: int, b: int) -> int {
    if a < b {
        a
    } else {
        b
    }
}

/// `x + 1`, staying at the largest `usize`.
pub open spec fn sat_inc(x: int) -> int {
    if x < usize::MAX {
        x + 1
    } else {
        x
    }
}

/// `x - 1`, staying at zero.
pub open spec fn sat_dec(x: int) -> int {
    if x > 0 {
        x - 1
    } else {
        0
    }
}

impl FormInputState {
    /// Whether the focus may rest on this input.
    pub open spec fn focusable(self) -> bool {
        !self.hidden && !self.form_input.readonly
    }

    /// The two states differ at most in their text and cursor.
    pub open spec fn same_but_text(self, other: FormInputState) -> bool {
        &&& self.form_input == other.form_input
        &&& self.is_valid == other.is_valid
        &&& self.hidden == other.hidden
    }

    /// The two states differ at most in their cursor.
    pub open spec fn same_but_cursor(self, other: FormInputState) -> bool {
        &&& self.same_but_text(other)
        &&& self.value == other.value
    }
}

/// Whether `key` reads or edits the focused input.
pub open spec fn key_edits_focused(key: Key) -> bool {
    key is Char || key is Backspace || key is Left || key is Right
}

impl Form {
    /// Title, body and type are the same.
    pub open spec fn same_frame(self, other: Form) -> bool {
        &&& self.title == other.title
        &&& self.body == other.body
        &&& self.form_type == other.form_type
    }

    pub open spec fn focusable_at(self, j: int) -> bool {
        self.form_input_states@[j].focusable()
    }

    /// `g` is where the focus goes when moving forward: the first focusable input after
    /// the focused one, or the focused one itself when there is none.
    pub open spec fn next_focus(self, g: int) -> bool {
        let n = self.form_input_states@.len();
        let f = self.focused as int;
        ||| (g == f && forall|j: int| f < j < n ==> !#[trigger] self.focusable_at(j))
        ||| (f < g < n && self.focusable_at(g) && forall|j: int|
            f < j < g ==> !#[trigger] self.focusable_at(j))
    }

    /// `g` is where the focus goes when moving back: the last focusable input before the
    /// focused one, or the focused one itself when there is none.
    pub open spec fn prev_focus(self, g: int) -> bool {
        let f = self.focused as int;
        ||| (g == f && forall|j: int| 0 <= j < f ==> !#[trigger] self.focusable_at(j))
        ||| (0 <= g < f && self.focusable_at(g) && forall|j: int|
            g < j < f ==> !#[trigger] self.focusable_at(j))
    }

    /// What a key needs of the form for it to be read.
    pub open spec fn accepts_key(self, key: Key) -> bool {
        &&& key_edits_focused(key) ==> self.focused < self.form_input_states@.len()
        &&& (key is BackTab || key is Up) ==> self.focused <= self.form_input_states@.len()
    }

    /// Only the focused input's state changed, and in it at most text and cursor.
    pub open spec fn only_focused_text_changed(self, old: Form) -> bool {
        &&& self.same_frame(old)
        &&& self.focused == old.focused
        &&& self.form_input_states@.len() == old.form_input_states@.len()
        &&& forall|j: int|
            0 <= j < old.form_input_states@.len() && j != old.focused ==> #[trigger]
                self.form_input_states@[j] == old.form_input_states@[j]
        &&& old.focused < old.form_input_states@.len() ==> self.form_input_states@[old.focused as int].same_but_text(
            old.form_input_states@[old.focused as int],
        )
    }

    /// The effect of a key on an input's text `v` and cursor `c`, giving the new text and
    /// cursor.
    pub open spec fn edit_text(input: FormInput, v: Seq<char>, c: int, key: Key) -> (Seq<char>, int) {
        let n = v.len() as int;
        match key {
            Key::Char(x) => if input.readonly || !input.takes_text() {
                (v, c)
            } else {
                (spec_insert_char(v, c as nat, x), min_int(sat_inc(c), n + 1))
            },
            Key::Backspace => if !input.readonly && input.takes_text() && c > 0 && c - 1 < n {
                (v.remove(c - 1), c - 1)
            } else {
                (v, c)
            },
            Key::Left => (v, min_int(sat_dec(c), n)),
            Key::Right => (v, min_int(sat_inc(c), n)),
            _ => (v, c),
        }
    }

    /// An empty form of inputs.
    pub fn standard() -> (res: Form)
        ensures
            res.title@ == Seq::<char>::empty(),
            res.body@ == Seq::<char>::empty(),
            res.form_type == FormType::Standard,
            res.form_input_states@.len() == 0,
            res.focused == 0,
    {
        Form {
            title: String::new(),
            body: String::new(),
            form_type: FormType::Standard,
            form_input_states: Vec::new(),
            focused: 0,
        }
    }

    /// An empty yes/no form.
    pub fn confirmation() -> (res: Form)
        ensures
            res.title@ == Seq::<char>::empty(),
            res.body@ == Seq::<char>::empty(),
            res.form_type == FormType::Confirmation,
            res.form_input_states@.len() == 0,
            res.focused == 0,
    {
        Form {
            title: String::new(),
            body: String::new(),
            form_type: FormType::Confirmation,
            form_input_states: Vec::new(),
            focused: 0,
        }
    }

    /// An empty form that reads no keys.
    pub fn custom() -> (res: Form)
        ensures
            res.title@ == Seq::<char>::empty(),
            res.body@ == Seq::<char>::empty(),
            res.form_type == FormType::Custom,
            res.form_input_states@.len() == 0,
            res.focused == 0,
    {
        Form {
            title: String::new(),
            body: String::new(),
            form_type: FormType::Custom,
            form_input_states: Vec::new(),
            focused: 0,
        }
    }

    /// This form with the given title.
    pub fn title(self, title: &str) -> (res: Form)
        ensures
            res.title@ == title@,
            res.body == self.body,
            res.form_type == self.form_type,
            res.form_input_states == self.form_input_states,
            res.focused == self.focused,
    {
        let mut s = self;
        s.title = title.to_owned();
        s
    }

    /// This form with the given body text.
    pub fn body(self, body: String) -> (res: Form)
        ensures
            res.body == body,
            res.title == self.title,
            res.form_type == self.form_type,
            res.form_input_states == self.form_input_states,
            res.focused == self.focused,
    {
        let mut s = self;
        s.body = body;
        s
    }

    /// This form with the given inputs, each starting at its initial text with the cursor
    /// at its end, not yet validated and shown; the focus is on the first editable input,
    /// or on the first input when none is editable.
    pub fn inputs(self, form_inputs: Vec<FormInput>) -> (res: Form)
        ensures
            res.same_frame(self),
            res.form_input_states@.len() == form_inputs@.len(),
            forall|k: int|
                0 <= k < form_inputs@.len() ==> {
                    let st = #[trigger] res.form_input_states@[k];
                    &&& st.form_input == form_inputs@[k]
                    &&& st.value@ == form_inputs@[k].initial_value@
                    &&& st.cursor_position == form_inputs@[k].initial_value@.len()
                    &&& !st.is_valid
                    &&& !st.hidden
                },
            (exists|k: int| 0 <= k < form_inputs@.len() && !(#[trigger] form_inputs@[k]).readonly) ==> {
                &&& res.focused < form_inputs@.len()
                &&& !form_inputs@[res.focused as int].readonly
                &&& forall|k: int| 0 <= k < res.focused ==> (#[trigger] form_inputs@[k]).readonly
            },
            (forall|k: int| 0 <= k < form_inputs@.len() ==> (#[trigger] form_inputs@[k]).readonly)
                ==> res.focused == 0,
    {
        let ghost orig = form_inputs@;
        let mut rest = form_inputs;
        let mut states: Vec<FormInputState> = Vec::new();
        let mut first_editable: Option<usize> = None;
        while rest.len() > 0
            invariant
                states@.len() + rest@.len() == orig.len(),
                rest@ == orig.skip(states@.len() as int),
                forall|k: int|
                    0 <= k < states@.len() ==> {
                        let st = #[trigger] states@[k];
                        &&& st.form_input == orig[k]
                        &&& st.value@ == orig[k].initial_value@
                        &&& st.cursor_position == orig[k].initial_value@.len()
                        &&& !st.is_valid
                        &&& !st.hidden
                    },
                match first_editable {
                    Some(f) => f < states@.len() && !orig[f as int].readonly && forall|k: int|
                        0 <= k < f ==> (#[trigger] orig[k]).readonly,
                    None => forall|k: int| 0 <= k < states@.len() ==> (#[trigger] orig[k]).readonly,
                },
            decreases rest.len(),
        {
            let form_input = rest.remove(0);
            let value = form_input.initial_value.clone();
            let cursor_position = char_count(value.as_str());
            if first_editable.is_none() && !form_input.readonly {
                first_editable = Some(states.len());
            }
            let ghost k = states@.len();
            assert(form_input == orig[k as int]);
            states.push(
                FormInputState { form_input, value, cursor_position, is_valid: false, hidden: false },
            );
            assert(rest@ =~= orig.skip(states@.len() as int));
        }
        let mut s = self;
        s.form_input_states = states;
        s.focused = match first_editable {
            Some(f) => f,
            None => 0,
        };
        s
    }

    /// Reads a key according to the form's type: a form of inputs edits and moves between
    /// its inputs, a yes/no form answers, and any other form ignores the key.
    pub fn handle_key(&mut self, key: Key) -> (event: FormEvent)
        requires
            old(self).form_type == FormType::Standard ==> old(self).accepts_key(key),
        ensures
            old(self).form_type == FormType::Standard ==> Self::standard_key_effect(
                *old(self),
                key,
                *final(self),
                event,
            ),
            old(self).form_type == FormType::Confirmation ==> {
                &&& *final(self) == *old(self)
                &&& event == confirmation_event(key)
            },
            old(self).form_type == FormType::Custom ==> {
                &&& *final(self) == *old(self)
                &&& event == FormEvent::Continue
            },
    {
        match self.form_type {
            FormType::Standard => self.match_standard_input_key(key),
            FormType::Confirmation => self.match_confirmation_input_key(key),
            FormType::Custom => FormEvent::Continue,
        }
    }

    /// What reading `key` does to a form of inputs `old`, giving `new` and `event`.
    pub open spec fn standard_key_effect(old: Form, key: Key, new: Form, event: FormEvent) -> bool {
        match key {
            Key::Tab | Key::Down => {
                &&& new.same_frame(old)
                &&& new.form_input_states == old.form_input_states
                &&& old.next_focus(new.focused as int)
                &&& event == FormEvent::Continue
            },
            Key::BackTab | Key::Up => {
                &&& new.same_frame(old)
                &&& new.form_input_states == old.form_input_states
                &&& old.prev_focus(new.focused as int)
                &&& event == FormEvent::Continue
            },
            Key::Char(_) | Key::Backspace | Key::Left | Key::Right => {
                let st = old.form_input_states@[old.focused as int];
                let nst = new.form_input_states@[old.focused as int];
                let (v, c) = Self::edit_text(st.form_input, st.value@, st.cursor_position as int, key);
                &&& new.only_focused_text_changed(old)
                &&& nst.value@ == v
                &&& nst.cursor_position == c
                &&& (v == st.value@ ==> nst.value == st.value)
                &&& event == FormEvent::Continue
            },
            Key::Enter => new == old && event == FormEvent::Submit,
            Key::Esc => new == old && event == FormEvent::Cancel,
            Key::Other => new == old && event == FormEvent::Continue,
        }
    }

    /// Reads a key in a form of inputs: Tab and Down move the focus forward, BackTab and
    /// Up move it back (skipping hidden and read-only inputs), a character is typed at the
    /// cursor, Backspace deletes the character before the cursor, Left and Right move the
    /// cursor, Enter submits and Esc cancels.
    pub fn match_standard_input_key(&mut self, key: Key) -> (event: FormEvent)
        requires
            old(self).accepts_key(key),
        ensures
            Self::standard_key_effect(*old(self), key, *final(self), event),
    {
        match key {
            Key::Tab | Key::Down => {
                let n = self.form_input_states.len();
                if self.focused < n {
                    let mut next = self.focused + 1;
                    while next < n && (self.form_input_states[next].hidden
                        || self.form_input_states[next].form_input.readonly)
                        invariant
                            self.focused < next <= n,
                            n == self.form_input_states@.len(),
                            forall|j: int| self.focused < j < next ==> !#[trigger] self.focusable_at(j),
                        decreases n - next,
                    {
                        next = next + 1;
                    }
                    if next < n {
                        self.focused = next;
                    }
                }
                FormEvent::Continue
            },
            Key::BackTab | Key::Up => {
                let mut prev = self.focused;
                let ghost f = self.focused as int;
                let ghost before = *self;
                while prev > 0
                    invariant_except_break
                        f == before.focused,
                        prev <= f,
                        f <= self.form_input_states@.len(),
                        *self == before,
                        forall|j: int| prev <= j < f ==> !#[trigger] before.focusable_at(j),
                    ensures
                        self.form_input_states == before.form_input_states,
                        self.same_frame(before),
                        (self.focused == before.focused && forall|j: int| 0 <= j < f ==> !#[trigger] before.focusable_at(j))
                        || (0 <= self.focused < f && before.focusable_at(self.focused as int) && forall|j: int| self.focused < j < f ==> !#[trigger] before.focusable_at(j)),
                    decreases prev,
                {
                    prev = prev - 1;
                    if !(self.form_input_states[prev].hidden
                        || self.form_input_states[prev].form_input.readonly) {
                        self.focused = prev;
                        break;
                    }
                }
                FormEvent::Continue
            },
            Key::Char(c) => {
                let i = self.focused;
                if self.form_input_states[i].form_input.readonly {
                    return FormEvent::Continue;
                }
                if self.form_input_states[i].form_input.is_text() {
                    let new_value = insert_char(
                        self.form_input_states[i].value.as_str(),
                        self.form_input_states[i].cursor_position,
                        c,
                    );
                    self.form_input_states[i].value = new_value;
                    self.move_cursor_right();
                }
                FormEvent::Continue
            },
            Key::Backspace => {
                let i = self.focused;
                if self.form_input_states[i].form_input.readonly {
                    return FormEvent::Continue;
                }
                if self.form_input_states[i].form_input.is_text()
                    && self.form_input_states[i].cursor_position > 0 {
                    let n = char_count(self.form_input_states[i].value.as_str());
                    let at = self.form_input_states[i].cursor_position - 1;
                    if at < n {
                        let new_value = remove_char(self.form_input_states[i].value.as_str(), at);
                        self.form_input_states[i].value = new_value;
                        self.move_cursor_left();
                    }
                }
                FormEvent::Continue
            },
            Key::Left => {
                self.move_cursor_left();
                FormEvent::Continue
            },
            Key::Right => {
                self.move_cursor_right();
                FormEvent::Continue
            },
            Key::Enter => FormEvent::Submit,
            Key::Esc => FormEvent::Cancel,
            Key::Other => FormEvent::Continue,
        }
    }

    /// Reads a key in a yes/no form.
    pub fn match_confirmation_input_key(&mut self, key: Key) -> (event: FormEvent)
        ensures
            *final(self) == *old(self),
            event == confirmation_event(key),
    {
        match key {
            Key::Char('y') => FormEvent::Submit,
            Key::Char('n') | Key::Esc => FormEvent::Cancel,
            _ => FormEvent::Continue,
        }
    }

    /// `new_cursor_pos`, limited to the length of the focused input's text.
    fn clamp_cursor(&self, new_cursor_pos: usize) -> (res: usize)
        requires
            self.focused < self.form_input_states@.len(),
        ensures
            res == min_int(
                new_cursor_pos as int,
                self.form_input_states@[self.focused as int].value@.len() as int,
            ),
    {
        let n = char_count(self.form_input_states[self.focused].value.as_str());
        if new_cursor_pos < n {
            new_cursor_pos
        } else {
            n
        }
    }

    /// Moves the focused input's cursor one character left, within its text.
    fn move_cursor_left(&mut self)
        requires
            old(self).focused < old(self).form_input_states@.len(),
        ensures
            final(self).only_focused_text_changed(*old(self)),
            final(self).form_input_states@[old(self).focused as int].value == old(
                self,
            ).form_input_states@[old(self).focused as int].value,
            final(self).form_input_states@[old(self).focused as int].cursor_position == min_int(
                sat_dec(old(self).form_input_states@[old(self).focused as int].cursor_position as int),
                old(self).form_input_states@[old(self).focused as int].value@.len() as int,
            ),
    {
        let moved = if self.form_input_states[self.focused].cursor_position > 0 {
            self.form_input_states[self.focused].cursor_position - 1
        } else {
            0
        };
        let clamped = self.clamp_cursor(moved);
        let i = self.focused;
        self.form_input_states[i].cursor_position = clamped;
    }

    /// Moves the focused input's cursor one character right, within its text.
    fn move_cursor_right(&mut self)
        requires
            old(self).focused < old(self).form_input_states@.len(),
        ensures
            final(self).only_focused_text_changed(*old(self)),
            final(self).form_input_states@[old(self).focused as int].value == old(
                self,
            ).form_input_states@[old(self).focused as int].value,
            final(self).form_input_states@[old(self).focused as int].cursor_position == min_int(
                sat_inc(old(self).form_input_states@[old(self).focused as int].cursor_position as int),
                old(self).form_input_states@[old(self).focused as int].value@.len() as int,
            ),
    {
        let moved = if self.form_input_states[self.focused].cursor_position < usize::MAX {
            self.form_input_states[self.focused].cursor_position + 1
        } else {
            usize::MAX
        };
        let clamped = self.clamp_cursor(moved);
        let i = self.focused;
        self.form_input_states[i].cursor_position = clamped;
    }

    /// Whether input `k` is hidden after validation: an input that depends on a valid
    /// input `d` is shown exactly when `d` reads `true` and the input is shown for `true`,
    /// or `d` reads `false` and the input is shown for `false`; any other input keeps its
    /// state.
    pub open spec fn hidden_after_validation(self, k: int) -> bool {
        let st = self.form_input_states@[k];
        let n = self.form_input_states@.len();
        match st.form_input.dependant_on {
            Some((d, shown_when)) => if d < n && self.form_input_states@[d as int].form_input.accepts(
                self.form_input_states@[d as int].value@,
            ) {
                let v = self.form_input_states@[d as int].value@;
                !(v == true_chars() && shown_when || v == false_chars() && !shown_when)
            } else {
                st.hidden
            },
            None => st.hidden,
        }
    }

    /// `new` is `old` validated: each input's validity is whether its text meets its
    /// validations, and its visibility follows `hidden_after_validation`.
    pub open spec fn validation_of(old: Form, new: Form) -> bool {
        &&& new.same_frame(old)
        &&& new.focused == old.focused
        &&& new.form_input_states@.len() == old.form_input_states@.len()
        &&& forall|k: int|
            0 <= k < old.form_input_states@.len() ==> {
                let o = old.form_input_states@[k];
                let st = #[trigger] new.form_input_states@[k];
                &&& st.form_input == o.form_input
                &&& st.value == o.value
                &&& st.cursor_position == o.cursor_position
                &&& st.is_valid == o.form_input.accepts(o.value@)
                &&& st.hidden == old.hidden_after_validation(k)
            }
    }

    /// Checks each input's text against its validations, and hides or shows the inputs
    /// that depend on another input's value.
    pub fn validate(&mut self)
        ensures
            Self::validation_of(*old(self), *final(self)),
    {
        let n = self.form_input_states.len();
        let ghost orig = *self;
        let mut k: usize = 0;
        while k < n
            invariant
                n == self.form_input_states@.len(),
                n == orig.form_input_states@.len(),
                k <= n,
                self.same_frame(orig),
                self.focused == orig.focused,
                forall|j: int|
                    0 <= j < n ==> {
                        let o = orig.form_input_states@[j];
                        let st = #[trigger] self.form_input_states@[j];
                        &&& st.form_input == o.form_input
                        &&& st.value == o.value
                        &&& st.cursor_position == o.cursor_position
                        &&& st.hidden == o.hidden
                        &&& (j < k ==> st.is_valid == o.form_input.accepts(o.value@))
                        &&& (j >= k ==> st.is_valid == o.is_valid)
                    },
            decreases n - k,
        {
            let ok = self.form_input_states[k].form_input.is_valid(
                self.form_input_states[k].value.as_str(),
            );
            self.form_input_states[k].is_valid = ok;
            k = k + 1;
        }
        let ghost checked = *self;
        let mut k: usize = 0;
        while k < n
            invariant
                n == self.form_input_states@.len(),
                n == orig.form_input_states@.len(),
                k <= n,
                self.same_frame(orig),
                self.focused == orig.focused,
                forall|j: int|
                    0 <= j < n ==> {
                        let o = orig.form_input_states@[j];
                        let st = #[trigger] self.form_input_states@[j];
                        &&& st.form_input == o.form_input
                        &&& st.value == o.value
                        &&& st.cursor_position == o.cursor_position
                        &&& st.is_valid == o.form_input.accepts(o.value@)
                        &&& (j < k ==> st.hidden == orig.hidden_after_validation(j))
                        &&& (j >= k ==> st.hidden == o.hidden)
                    },
            decreases n - k,
        {
            if let Some((d, shown_when)) = self.form_input_states[k].form_input.dependant_on {
                if d < n && self.form_input_states[d].is_valid {
                    let v = self.form_input_states[d].value.as_str();
                    let hidden = !(is_true_text(v) && shown_when || is_false_text(v) && !shown_when);
                    self.form_input_states[k].hidden = hidden;
                }
            }
            k = k + 1;
        }
    }

    /// The current text of input `index`.
    pub fn value(&self, index: usize) -> (res: String)
        requires
            index < self.form_input_states@.len(),
        ensures
            res@ == self.form_input_states@[index as int].value@,
    {
        self.form_input_states[index].value.clone()
    }
}

/// What a key means to a form of inputs: Enter submits, Esc cancels, any other key goes on.
pub open spec fn standard_event(key: Key) -> FormEvent {
    match key {
        Key::Enter => FormEvent::Submit,
        Key::Esc => FormEvent::Cancel,
        _ => FormEvent::Continue,
    }
}

/// Reading a key in a form of inputs whose focus is on one of them keeps the number of
/// inputs, keeps the focus on one of them, and gives the event `standard_event(key)`.
pub proof fn lemma_standard_key_keeps_focus(old: Form, key: Key, new: Form, event: FormEvent)
    requires
        old.focused < old.form_input_states@.len(),
        Form::standard_key_effect(old, key, new, event),
    ensures
        new.focused < new.form_input_states@.len(),
        new.form_input_states@.len() == old.form_input_states@.len(),
        new.form_type == old.form_type,
        event == standard_event(key),
{
}

/// How a yes/no form answers a key: `y` submits, `n` and Esc cancel.
pub open spec fn confirmation_event(key: Key) -> FormEvent {
    match key {
        Key::Char(c) => if c == 'y' {
            FormEvent::Submit
        } else if c == 'n' {
            FormEvent::Cancel
        } else {
            FormEvent::Continue
        },
        Key::Esc => FormEvent::Cancel,
        _ => FormEvent::Continue,
    }
}

/// Typing a character into an editable text input and then pressing Backspace gives back
/// the text and the cursor.
pub proof fn lemma_type_then_backspace(input: FormInput, v: Seq<char>, c: int, x: char)
    requires
        !input.readonly,
        input.takes_text(),
        0 <= c <= v.len(),
        c < usize::MAX,
    ensures
        ({
            let (v1, c1) = Form::edit_text(input, v, c, Key::Char(x));
            Form::edit_text(input, v1, c1, Key::Backspace)
        }) == (v, c),
{
    let (v1, c1) = Form::edit_text(input, v, c, Key::Char(x));
    assert(c1 == c + 1);
    assert(v1.len() == v.len() + 1);
    assert(v1.remove(c) =~= v);
}

/// Keys keep the cursor within the text: when the cursor is at most the text's length
/// before a key, it is after.
pub proof fn lemma_cursor_stays_in_text(input: FormInput, v: Seq<char>, c: int, key: Key)
    requires
        0 <= c <= v.len(),
    ensures
        ({
            let (v1, c1) = Form::edit_text(input, v, c, key);
            0 <= c1 <= v1.len()
        }),
{
}

/// No key changes the text of a read-only input.
pub proof fn lemma_readonly_text_unchanged(input: FormInput, v: Seq<char>, c: int, key: Key)
    requires
        input.readonly,
    ensures
        Form::edit_text(input, v, c, key).0 == v,
{
}

/// Left then Right puts the cursor back, when it was inside the text and not at its start;
/// Right then Left puts it back when it was before the end of the text.
pub proof fn lemma_left_right_inverse(input: FormInput, v: Seq<char>, c: int)
    requires
        0 <= c <= v.len(),
        v.len() < usize::MAX,
    ensures
        c > 0 ==> ({
            let (v1, c1) = Form::edit_text(input, v, c, Key::Left);
            Form::edit_text(input, v1, c1, Key::Right)
        }) == (v, c),
        c < v.len() ==> ({
            let (v1, c1) = Form::edit_text(input, v, c, Key::Right);
            Form::edit_text(input, v1, c1, Key::Left)
        }) == (v, c),
{
}

/// When moving the focus forward leaves a focusable input, moving it back returns to
/// that input.
pub proof fn lemma_focus_forward_then_back(a: Form, b: Form, g: int)
    requires
        a.focused < a.form_input_states@.len(),
        a.focusable_at(a.focused as int),
        b.form_input_states == a.form_input_states,
        a.next_focus(b.focused as int),
        b.focused != a.focused,
        b.prev_focus(g),
    ensures
        g == a.focused,
{
    let f = a.focused as int;
    if g == b.focused as int {
        assert(!b.focusable_at(f));
    } else if g < f {
        assert(!b.focusable_at(f));
    } else if g > f {
        assert(!a.focusable_at(g));
    }
}

/// Validating a form twice gives what validating it once gives.
pub proof fn lemma_validate_idempotent(a: Form, b: Form, c: Form)
    requires
        Form::validation_of(a, b),
        Form::validation_of(b, c),
    ensures
        c.form_input_states@ == b.form_input_states@,
        c.focused == b.focused,
        c.same_frame(b),
{
    assert forall|k: int| 0 <= k < b.form_input_states@.len() implies #[trigger] c.form_input_states@[k]
        == b.form_input_states@[k] by {
        let bs = b.form_input_states@[k];
        let cs = c.form_input_states@[k];
        assert(cs.form_input == bs.form_input);
        assert(cs.is_valid == bs.is_valid);
        match bs.form_input.dependant_on {
            Some((d, w)) => {
                if d < b.form_input_states@.len() {
                    let ad = a.form_input_states@[d as int];
                    let bd = b.form_input_states@[d as int];
                    assert(bd.value == ad.value);
                    assert(bd.form_input == ad.form_input);
                }
            },
            None => {},
        }
        assert(cs.hidden == bs.hidden);
    }
    assert(c.form_input_states@ =~= b.form_input_states@);
}

} // verus!
