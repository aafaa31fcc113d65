use earthworm::form::input::FormInput;
use earthworm::form::widget::{Form, FormEvent};
use earthworm::key::Key;

fn one_input_form(value: &str, cursor: usize) -> Form {
    let mut form: Form = Form::standard().inputs(vec![FormInput::new().required()]);
    form.form_input_states[0].value = String::from(value);
    form.form_input_states[0].cursor_position = cursor;
    form
}

#[test]
fn test_validate_required_input() {
    let form_input: FormInput = FormInput::new().required();
    assert!(form_input.is_valid("hello world"));
    assert!(!form_input.is_valid(""));
}

#[test]
fn test_type_char_at_string_end() {
    let mut form: Form = Form::standard().inputs(vec![FormInput::new().required()]);
    form.match_standard_input_key(Key::Char('a'));
    assert_eq!(form.form_input_states[0].value, "a");
    assert_eq!(form.form_input_states[0].cursor_position, 1);
}

#[test]
fn test_type_char_mid_string() {
    let mut form = one_input_form("hello", 3);
    form.match_standard_input_key(Key::Char('g'));
    assert_eq!(form.form_input_states[0].value, "helglo");
    assert_eq!(form.form_input_states[0].cursor_position, 4);
}

#[test]
fn test_type_multi_byte_char() {
    let mut form: Form = Form::standard().inputs(vec![FormInput::new().required()]);
    form.match_standard_input_key(Key::Char('é'));
    assert_eq!(form.form_input_states[0].value, "é");
    assert_eq!(form.form_input_states[0].cursor_position, 1);
}

#[test]
fn test_backspace_at_zero_index() {
    let mut form = one_input_form("hello", 0);
    form.match_standard_input_key(Key::Backspace);
    assert_eq!(form.form_input_states[0].value, "hello");
    assert_eq!(form.form_input_states[0].cursor_position, 0);
}

#[test]
fn test_backspace_mid_string() {
    let mut form = one_input_form("hello", 2);
    form.match_standard_input_key(Key::Backspace);
    assert_eq!(form.form_input_states[0].value, "hllo");
    assert_eq!(form.form_input_states[0].cursor_position, 1);
}

#[test]
fn test_backspace_at_string_end() {
    let mut form = one_input_form("hello", 5);
    form.match_standard_input_key(Key::Backspace);
    assert_eq!(form.form_input_states[0].value, "hell");
    assert_eq!(form.form_input_states[0].cursor_position, 4);
}

#[test]
fn test_backspace_multi_byte_char() {
    let mut form = one_input_form("é", 1);
    form.match_standard_input_key(Key::Backspace);
    assert_eq!(form.form_input_states[0].value, "");
    assert_eq!(form.form_input_states[0].cursor_position, 0);
}

#[test]
fn test_cursor_left_at_zero_index() {
    let mut form = one_input_form("hello", 0);
    form.match_standard_input_key(Key::Left);
    assert_eq!(form.form_input_states[0].value, "hello");
    assert_eq!(form.form_input_states[0].cursor_position, 0);
}

#[test]
fn test_cursor_left_mid_string() {
    let mut form = one_input_form("hello", 3);
    form.match_standard_input_key(Key::Left);
    assert_eq!(form.form_input_states[0].value, "hello");
    assert_eq!(form.form_input_states[0].cursor_position, 2);
}

#[test]
fn test_cursor_left_at_string_end() {
    let mut form = one_input_form("hello", 5);
    form.match_standard_input_key(Key::Left);
    assert_eq!(form.form_input_states[0].value, "hello");
    assert_eq!(form.form_input_states[0].cursor_position, 4);
}

#[test]
fn test_cursor_right_at_zero_index() {
    let mut form = one_input_form("hello", 0);
    form.match_standard_input_key(Key::Right);
    assert_eq!(form.form_input_states[0].value, "hello");
    assert_eq!(form.form_input_states[0].cursor_position, 1);
}

#[test]
fn test_cursor_right_mid_string() {
    let mut form = one_input_form("hello", 3);
    form.match_standard_input_key(Key::Right);
    assert_eq!(form.form_input_states[0].value, "hello");
    assert_eq!(form.form_input_states[0].cursor_position, 4);
}

#[test]
fn test_cursor_right_at_string_end() {
    let mut form = one_input_form("hello", 5);
    form.match_standard_input_key(Key::Right);
    assert_eq!(form.form_input_states[0].value, "hello");
    assert_eq!(form.form_input_states[0].cursor_position, 5);
}

fn two_input_form() -> Form {
    Form::standard().inputs(vec![FormInput::new().required(), FormInput::new().required()])
}

#[test]
fn test_tab_moves_focus_down() {
    let mut form = two_input_form();
    form.focused = 0;
    form.match_standard_input_key(Key::Tab);
    assert_eq!(form.focused, 1);
}

#[test]
fn test_down_arrow_moves_focus_down() {
    let mut form = two_input_form();
    form.focused = 0;
    form.match_standard_input_key(Key::Down);
    assert_eq!(form.focused, 1);
}

#[test]
fn test_focus_down_has_no_effect_on_last_input() {
    let mut form = two_input_form();
    form.focused = 1;
    form.match_standard_input_key(Key::Tab);
    assert_eq!(form.focused, 1);
}

#[test]
fn test_backtab_moves_focus_up() {
    let mut form = two_input_form();
    form.focused = 1;
    form.match_standard_input_key(Key::BackTab);
    assert_eq!(form.focused, 0);
}

#[test]
fn test_up_arrow_moves_focus_up() {
    let mut form = two_input_form();
    form.focused = 1;
    form.match_standard_input_key(Key::Up);
    assert_eq!(form.focused, 0);
}

#[test]
fn test_focus_up_has_no_effect_on_first_input() {
    let mut form = two_input_form();
    assert_eq!(form.focused, 0);
    form.match_standard_input_key(Key::BackTab);
    assert_eq!(form.focused, 0);
}

#[test]
fn test_readonly_input_is_not_focusable() {
    let mut form: Form = Form::standard().inputs(vec![
        FormInput::new().initial_value(String::from("hello")).readonly(),
        FormInput::new().required(),
    ]);
    assert_eq!(form.focused, 1);
    form.match_standard_input_key(Key::Up);
    assert_eq!(form.focused, 1);
}

#[test]
fn test_readonly_input_is_not_editable() {
    let mut form: Form = Form::standard().inputs(vec![
        FormInput::new().initial_value(String::from("hello")).readonly(),
    ]);
    form.focused = 0;
    assert_eq!(form.form_input_states[0].value, "hello");
    form.match_standard_input_key(Key::Char('c'));
    assert_eq!(form.form_input_states[0].value, "hello");
    form.match_standard_input_key(Key::Backspace);
    assert_eq!(form.form_input_states[0].value, "hello");
}

#[test]
fn typing_then_backspace_gives_back_text_and_cursor() {
    let mut form = one_input_form("hello", 2);
    form.match_standard_input_key(Key::Char('x'));
    assert_eq!(form.form_input_states[0].value, "hexllo");
    form.match_standard_input_key(Key::Backspace);
    assert_eq!(form.form_input_states[0].value, "hello");
    assert_eq!(form.form_input_states[0].cursor_position, 2);
}

#[test]
fn left_then_right_puts_the_cursor_back() {
    let mut form = one_input_form("hello", 3);
    form.match_standard_input_key(Key::Left);
    form.match_standard_input_key(Key::Right);
    assert_eq!(form.form_input_states[0].cursor_position, 3);
    form.match_standard_input_key(Key::Right);
    form.match_standard_input_key(Key::Left);
    assert_eq!(form.form_input_states[0].cursor_position, 3);
}

#[test]
fn focus_forward_then_back_returns() {
    let mut form: Form = Form::standard().inputs(vec![
        FormInput::new().required(),
        FormInput::new().initial_value(String::from("fixed")).readonly(),
        FormInput::new().required(),
    ]);
    assert_eq!(form.focused, 0);
    form.match_standard_input_key(Key::Tab);
    assert_eq!(form.focused, 2);
    form.match_standard_input_key(Key::BackTab);
    assert_eq!(form.focused, 0);
}

#[test]
fn enter_submits_and_escape_cancels() {
    let mut form = one_input_form("", 0);
    assert!(matches!(form.handle_key(Key::Enter), FormEvent::Submit));
    assert!(matches!(form.handle_key(Key::Esc), FormEvent::Cancel));
    assert!(matches!(form.handle_key(Key::Char('a')), FormEvent::Continue));
    let mut question = Form::confirmation().title("Sure").body(String::from("Really?"));
    assert!(matches!(question.handle_key(Key::Char('y')), FormEvent::Submit));
    assert!(matches!(question.handle_key(Key::Char('n')), FormEvent::Cancel));
    assert!(matches!(question.handle_key(Key::Esc), FormEvent::Cancel));
    assert!(matches!(question.handle_key(Key::Enter), FormEvent::Continue));
    let mut custom = Form::custom();
    assert!(matches!(custom.handle_key(Key::Enter), FormEvent::Continue));
}

#[test]
fn validation_marks_inputs_and_value_reads_them() {
    let mut form: Form = Form::standard().inputs(vec![
        FormInput::new().label(String::from("Name")).required(),
        FormInput::new().label(String::from("Note")),
    ]);
    form.validate();
    assert!(!form.form_input_states[0].is_valid);
    assert!(form.form_input_states[1].is_valid);
    form.match_standard_input_key(Key::Char('a'));
    form.validate();
    assert!(form.form_input_states[0].is_valid);
    assert_eq!(form.value(0), "a");
    assert_eq!(form.form_input_states[0].form_input.label, "Name");
}

#[test]
fn builders_set_title_body_and_inputs() {
    let form = Form::standard().title("T").body(String::from("B")).inputs(vec![
        FormInput::new().initial_value(String::from("v")),
    ]);
    assert_eq!(form.title, "T");
    assert_eq!(form.body, "B");
    assert_eq!(form.form_input_states.len(), 1);
    assert_eq!(form.form_input_states[0].value, "v");
    assert_eq!(form.form_input_states[0].cursor_position, 1);
    assert!(!FormInput::new().is_text());
    assert!(FormInput::new().required().is_text());
    assert!(FormInput::new().readonly().readonly);
}
