use vstd::prelude::*;

use crate::text::{chars_eq, str_eq, to_chars};

verus! {

/// A rule on the text of an input.
pub enum TextRule {
    /// The text is not empty.
    NonEmpty,
    /// The text is empty or one of the given options.
    OneOf(Vec<String>),
}

/// What an input accepts.
pub enum InputValidation {
    /// Free text that meets every rule.
    Text(Vec<TextRule>),
    /// Exactly `true` or `false`.
    Boolean,
}

pub open spec fn true_chars() -> Seq<char> {
    seq!['t', 'r', 'u', 'e']
}

pub open spec fn false_chars() -> Seq<char> {
    seq!['f', 'a', 'l', 's', 'e']
}

/// Whether `value` meets `rule`.
pub open spec fn rule_holds(rule: TextRule, value: Seq<char>) -> bool {
    match rule {
        TextRule::NonEmpty => value.len() > 0,
        TextRule::OneOf(options) => value.len() == 0 || one_of(options@, value),
    }
}

/// Whether `value` is one of `options`.
pub open spec fn one_of(options: Seq<String>, value: Seq<char>) -> bool {
    exists|k: int| 0 <= k < options.len() && #[trigger] options[k]@ == value
}

/// Whether `value` meets every rule in `rules`.
pub open spec fn all_rules_hold(rules: Seq<TextRule>, value: Seq<char>) -> bool {
    forall|k: int| 0 <= k < rules.len() ==> #[trigger] rule_holds(rules[k], value)
}

/// Whether `value` meets `validation`.
pub open spec fn validation_holds(validation: InputValidation, value: Seq<char>) -> bool {
    match validation {
        InputValidation::Text(rules) => all_rules_hold(rules@, value),
        InputValidation::Boolean => value == true_chars() || value == false_chars(),
    }
}

/// Whether `value` reads `true`.
pub fn is_true_text(value: &str) -> (res: bool)
    ensures
        res == (value@ == true_chars()),
{
    let chars = to_chars(value);
    let t = vec!['t', 'r', 'u', 'e'];
    assert(t@ =~= true_chars());
    chars_eq(&chars, &t)
}

/// Whether `value` reads `false`.
pub fn is_false_text(value: &str) -> (res: bool)
    ensures
        res == (value@ == false_chars()),
{
    let chars = to_chars(value);
    let f = vec!['f', 'a', 'l', 's', 'e'];
    assert(f@ =~= false_chars());
    chars_eq(&chars, &f)
}

fn rule_is_satisfied_by(rule: &TextRule, value: &str) -> (res: bool)
    ensures
        res == rule_holds(*rule, value@),
{
    match rule {
        TextRule::NonEmpty => !value.is_empty(),
        TextRule::OneOf(options) => {
            if value.is_empty() {
                return true;
            }
            let mut k: usize = 0;
            while k < options.len()
                invariant
                    *rule == TextRule::OneOf(*options),
                    k <= options.len(),
                    forall|j: int| 0 <= j < k ==> options@[j]@ != value@,
                decreases options.len() - k,
            {
                if str_eq(options[k].as_str(), value) {
                    assert(options@[k as int]@ == value@);
                    assert(one_of(options@, value@));
                    return true;
                }
                k = k + 1;
            }
            false
        },
    }
}

impl InputValidation {
    /// Whether `value` is accepted.
    pub fn is_satisfied_by(&self, value: &str) -> (res: bool)
        ensures
            res == validation_holds(*self, value@),
    {
        match self {
            InputValidation::Text(rules) => {
                let mut k: usize = 0;
                while k < rules.len()
                    invariant
                        *self == InputValidation::Text(*rules),
                        k <= rules.len(),
                        forall|j: int| 0 <= j < k ==> #[trigger] rule_holds(rules@[j], value@),
                    decreases rules.len() - k,
                {
                    if !rule_is_satisfied_by(&rules[k], value) {
                        assert(!rule_holds(rules@[k as int], value@));
                        assert(!all_rules_hold(rules@, value@));
                        return false;
                    }
                    k = k + 1;
                }
                assert(all_rules_hold(rules@, value@));
                true
            },
            InputValidation::Boolean => is_true_text(value) || is_false_text(value),
        }
    }
}

/// A builder call on an input: `label`, `initial_value`, `required` or `readonly`.
pub enum BuildStep {
    Label,
    InitialValue,
    Required,
    Readonly,
}

/// One input of a form: its label, the text it starts with, what it accepts, the boolean
/// input it depends on (its index, and the value for which it is shown), and whether it
/// can be edited.
pub struct FormInput {
    pub label: String,
    pub initial_value: String,
    pub input_validations: Vec<InputValidation>,
    pub dependant_on: Option<(usize, bool)>,
    pub readonly: bool,
}

impl FormInput {
    /// Whether `value` meets every validation of this input.
    pub open spec fn accepts(self, value: Seq<char>) -> bool {
        forall|k: int|
            0 <= k < self.input_validations@.len() ==> #[trigger] validation_holds(
                self.input_validations@[k],
                value,
            )
    }

    /// Whether this input takes free text.
    pub open spec fn takes_text(self) -> bool {
        exists|k: int|
            0 <= k < self.input_validations@.len() && #[trigger] self.input_validations@[k] is Text
    }

    /// `b` is what the builder call `step` makes of `a`: `label` and `initial_value` set
    /// their field, `required` adds a validation of non-empty text, and `readonly` makes
    /// the input read-only; nothing else changes.
    pub open spec fn built_by(a: FormInput, step: BuildStep, b: FormInput) -> bool {
        match step {
            BuildStep::Label => b == (FormInput { label: b.label, ..a }),
            BuildStep::InitialValue => b == (FormInput { initial_value: b.initial_value, ..a }),
            BuildStep::Required => {
                &&& b == (FormInput { input_validations: b.input_validations, ..a })
                &&& b.input_validations@.len() == a.input_validations@.len() + 1
                &&& b.input_validations@.drop_last() == a.input_validations@
                &&& b.input_validations@.last() matches InputValidation::Text(rules) && rules@ == seq![TextRule::NonEmpty]
            },
            BuildStep::Readonly => b == (FormInput { readonly: true, ..a }),
        }
    }

    /// An input with no label, no initial text, no validation, no dependency, editable.
    pub fn new() -> (res: FormInput)
        ensures
            res.label@ == Seq::<char>::empty(),
            res.initial_value@ == Seq::<char>::empty(),
            res.input_validations@.len() == 0,
            res.dependant_on is None,
            !res.readonly,
    {
        FormInput {
            label: String::new(),
            initial_value: String::new(),
            input_validations: Vec::new(),
            dependant_on: None,
            readonly: false,
        }
    }

    /// This input with the given label.
    pub fn label(self, label: String) -> (res: FormInput)
        ensures
            FormInput::built_by(self, BuildStep::Label, res),
            res.label == label,
            res.initial_value == self.initial_value,
            res.input_validations == self.input_validations,
            res.dependant_on == self.dependant_on,
            res.readonly == self.readonly,
    {
        let mut s = self;
        s.label = label;
        s
    }

    /// This input starting with the given text.
    pub fn initial_value(self, initial_value: String) -> (res: FormInput)
        ensures
            FormInput::built_by(self, BuildStep::InitialValue, res),
            res.initial_value == initial_value,
            res.label == self.label,
            res.input_validations == self.input_validations,
            res.dependant_on == self.dependant_on,
            res.readonly == self.readonly,
    {
        let mut s = self;
        s.initial_value = initial_value;
        s
    }

    /// This input, also taking text that must not be empty.
    pub fn required(self) -> (res: FormInput)
        ensures
            FormInput::built_by(self, BuildStep::Required, res),
            res.input_validations@ == self.input_validations@.push(
                InputValidation::Text(res.input_validations@.last()->Text_0),
            ),
            res.input_validations@.last()->Text_0@ == seq![TextRule::NonEmpty],
            res.label == self.label,
            res.initial_value == self.initial_value,
            res.dependant_on == self.dependant_on,
            res.readonly == self.readonly,
    {
        let mut s = self;
        let rules = vec![TextRule::NonEmpty];
        let ghost before = s.input_validations@;
        s.input_validations.push(InputValidation::Text(rules));
        assert(s.input_validations@.drop_last() =~= before);
        assert(s.input_validations@.last()->Text_0@ =~= seq![TextRule::NonEmpty]);
        s
    }

    /// This input, not editable.
    pub fn readonly(self) -> (res: FormInput)
        ensures
            FormInput::built_by(self, BuildStep::Readonly, res),
            res.readonly,
            res.label == self.label,
            res.initial_value == self.initial_value,
            res.input_validations == self.input_validations,
            res.dependant_on == self.dependant_on,
    {
        let mut s = self;
        s.readonly = true;
        s
    }

    /// Whether this input takes free text.
    pub fn is_text(&self) -> (res: bool)
        ensures
            res == self.takes_text(),
    {
        let mut k: usize = 0;
        while k < self.input_validations.len()
            invariant
                k <= self.input_validations.len(),
                forall|j: int| 0 <= j < k ==> !(self.input_validations@[j] is Text),
            decreases self.input_validations.len() - k,
        {
            if let InputValidation::Text(_) = &self.input_validations[k] {
                return true;
            }
            k = k + 1;
        }
        false
    }

    /// Whether `value` meets every validation of this input.
    pub fn is_valid(&self, value: &str) -> (res: bool)
        ensures
            res == self.accepts(value@),
    {
        let mut k: usize = 0;
        while k < self.input_validations.len()
            invariant
                k <= self.input_validations.len(),
                forall|j: int|
                    0 <= j < k ==> #[trigger] validation_holds(self.input_validations@[j], value@),
            decreases self.input_validations.len() - k,
        {
            if !self.input_validations[k].is_satisfied_by(value) {
                return false;
            }
            k = k + 1;
        }
        true
    }
}

/// An input made from one without validations (as `new` makes it) by any sequence of
/// builder calls takes free text exactly when `required` was among the calls:
/// `inputs[i + 1]` is what call `steps[i]` made of `inputs[i]`.
pub proof fn lemma_text_iff_required(inputs: Seq<FormInput>, steps: Seq<BuildStep>)
    requires
        inputs.len() == steps.len() + 1,
        inputs[0].input_validations@.len() == 0,
        forall|i: int| 0 <= i < steps.len() ==> FormInput::built_by(#[trigger] inputs[i], steps[i], inputs[i + 1]),
    ensures
        inputs.last().takes_text() <==> steps.contains(BuildStep::Required),
    decreases steps.len(),
{
    if steps.len() == 0 {
        assert(!inputs.last().takes_text());
    } else {
        let n = steps.len() - 1;
        let pi = inputs.drop_last();
        let ps = steps.drop_last();
        assert forall|i: int| 0 <= i < ps.len() implies FormInput::built_by(#[trigger] pi[i], ps[i], pi[i + 1]) by {
            assert(FormInput::built_by(inputs[i], steps[i], inputs[i + 1]));
        }
        lemma_text_iff_required(pi, ps);
        let a = inputs[n];
        let b = inputs[n + 1];
        assert(pi.last() == a);
        assert(FormInput::built_by(a, steps[n], b));
        assert(steps =~= ps.push(steps[n]));
        assert(steps.contains(BuildStep::Required) <==> (ps.contains(BuildStep::Required) || steps[n] == BuildStep::Required)) by {
            if steps.contains(BuildStep::Required) {
                let j = choose|j: int| 0 <= j < steps.len() && steps[j] == BuildStep::Required;
                if j < n {
                    assert(ps[j] == BuildStep::Required);
                }
            }
            if ps.contains(BuildStep::Required) {
                let j = choose|j: int| 0 <= j < ps.len() && ps[j] == BuildStep::Required;
                assert(steps[j] == BuildStep::Required);
            }
        }
        match steps[n] {
            BuildStep::Required => {
                let k = b.input_validations@.len() - 1;
                assert(b.input_validations@[k] is Text);
            },
            _ => {
                assert(b.input_validations == a.input_validations);
                assert(b.takes_text() == a.takes_text());
            },
        }
    }
}

} // verus!
