use chat_console::input::{classify, Action, InputEvent, KeyCode, KeyEvent};

fn key(code: KeyCode, control: bool) -> InputEvent {
    InputEvent::Key(KeyEvent { code, control })
}

#[test]
fn printable_characters_are_appended() {
    assert_eq!(classify(&key(KeyCode::Char('a'), false)), Action::AppendChar('a'));
    assert_eq!(classify(&key(KeyCode::Char('Z'), false)), Action::AppendChar('Z'));
    assert_eq!(classify(&key(KeyCode::Char(' '), false)), Action::AppendChar(' '));
    assert_eq!(classify(&key(KeyCode::Char('7'), false)), Action::AppendChar('7'));
    assert_eq!(classify(&key(KeyCode::Char('é'), false)), Action::AppendChar('é'));
}

#[test]
fn chord_letters_without_control_are_appended() {
    assert_eq!(classify(&key(KeyCode::Char('q'), false)), Action::AppendChar('q'));
    assert_eq!(classify(&key(KeyCode::Char('s'), false)), Action::AppendChar('s'));
    assert_eq!(classify(&key(KeyCode::Char('n'), false)), Action::AppendChar('n'));
}

#[test]
fn control_q_quits() {
    assert_eq!(classify(&key(KeyCode::Char('q'), true)), Action::Quit);
}

#[test]
fn control_s_sends() {
    assert_eq!(classify(&key(KeyCode::Char('s'), true)), Action::Send);
}

#[test]
fn control_n_clears_the_history() {
    assert_eq!(classify(&key(KeyCode::Char('n'), true)), Action::ClearHistory);
}

#[test]
fn control_with_another_character_appends_it() {
    assert_eq!(classify(&key(KeyCode::Char('a'), true)), Action::AppendChar('a'));
    assert_eq!(classify(&key(KeyCode::Char('Q'), true)), Action::AppendChar('Q'));
}

#[test]
fn backspace_deletes() {
    assert_eq!(classify(&key(KeyCode::Backspace, false)), Action::DeleteChar);
    assert_eq!(classify(&key(KeyCode::Backspace, true)), Action::DeleteChar);
}

#[test]
fn unmapped_keys_are_ignored() {
    assert_eq!(classify(&key(KeyCode::Other, false)), Action::Ignore);
    assert_eq!(classify(&key(KeyCode::Other, true)), Action::Ignore);
}

#[test]
fn events_that_are_no_key_are_ignored() {
    assert_eq!(classify(&InputEvent::Other), Action::Ignore);
}

#[test]
fn classification_is_total_and_repeatable() {
    let events = [
        key(KeyCode::Char('x'), false),
        key(KeyCode::Backspace, false),
        key(KeyCode::Char('q'), true),
        key(KeyCode::Char('s'), true),
        key(KeyCode::Char('n'), true),
        key(KeyCode::Other, false),
        InputEvent::Other,
    ];
    let expected = [
        Action::AppendChar('x'),
        Action::DeleteChar,
        Action::Quit,
        Action::Send,
        Action::ClearHistory,
        Action::Ignore,
        Action::Ignore,
    ];
    for (event, action) in events.iter().zip(expected.iter()) {
        assert_eq!(classify(event), *action);
        assert_eq!(classify(event), classify(event));
    }
}
