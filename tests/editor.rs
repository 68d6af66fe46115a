use json_editor::{App, CurrentScreen, CurrentlyEditing, Flow, KeyCode, KeyInput, KeyPhase};

fn press(code: KeyCode) -> KeyInput {
    KeyInput { code, phase: KeyPhase::Press }
}

fn release(code: KeyCode) -> KeyInput {
    KeyInput { code, phase: KeyPhase::Release }
}

fn type_str(app: &mut App, s: &str) {
    for c in s.chars() {
        assert_eq!(app.handle_key(press(KeyCode::Char(c))), Flow::Running);
    }
}

fn commit_pair(app: &mut App, k: &str, v: &str) {
    app.handle_key(press(KeyCode::Char('e')));
    type_str(app, k);
    app.handle_key(press(KeyCode::Enter));
    type_str(app, v);
    app.handle_key(press(KeyCode::Enter));
}

fn pair_list(app: &App) -> Vec<(String, String)> {
    app.pairs().clone()
}

#[test]
fn new_session_is_empty_on_main() {
    let app = App::new();
    assert_eq!(app.key_input(), "");
    assert_eq!(app.value_input(), "");
    assert!(app.pairs().is_empty());
    assert_eq!(*app.current_screen(), CurrentScreen::Main);
    assert_eq!(app.currently_editing(), None);
    let d = App::default();
    assert_eq!(*d.current_screen(), CurrentScreen::Main);
    assert!(d.pairs().is_empty());
}

#[test]
fn typed_key_is_concatenation_of_pushes() {
    let mut app = App::new();
    app.begin_editing();
    for c in ['a', 'b', 'é', '1'] {
        app.push_char_to_active(c);
    }
    app.advance_or_commit();
    assert_eq!(app.key_input(), "abé1");
    assert_eq!(app.currently_editing(), Some(&CurrentlyEditing::Value));
    assert!(app.pairs().is_empty());
}

#[test]
fn pop_on_empty_buffer_is_noop() {
    let mut app = App::new();
    app.begin_editing();
    app.pop_char_from_active();
    assert_eq!(app.key_input(), "");
    app.toggle_editing();
    app.pop_char_from_active();
    assert_eq!(app.value_input(), "");
    assert_eq!(*app.current_screen(), CurrentScreen::Editing);
}

#[test]
fn pop_removes_whole_multibyte_char() {
    let mut app = App::new();
    app.begin_editing();
    app.push_char_to_active('a');
    app.push_char_to_active('ü');
    app.pop_char_from_active();
    assert_eq!(app.key_input(), "a");
    app.pop_char_from_active();
    app.pop_char_from_active();
    assert_eq!(app.key_input(), "");
}

#[test]
fn commit_same_key_twice_overwrites() {
    let mut app = App::new();
    commit_pair(&mut app, "a", "1");
    commit_pair(&mut app, "a", "2");
    assert_eq!(pair_list(&app), vec![("a".to_string(), "2".to_string())]);
}

#[test]
fn toggle_twice_returns_to_key() {
    let mut app = App::new();
    app.begin_editing();
    app.toggle_editing();
    assert_eq!(app.currently_editing(), Some(&CurrentlyEditing::Value));
    app.toggle_editing();
    assert_eq!(app.currently_editing(), Some(&CurrentlyEditing::Key));
}

#[test]
fn toggle_with_nothing_edited_selects_key() {
    let mut app = App::new();
    app.toggle_editing();
    assert_eq!(app.currently_editing(), Some(&CurrentlyEditing::Key));
}

#[test]
fn edit_and_commit_scenario() {
    let mut app = App::new();
    app.begin_editing();
    assert_eq!(*app.current_screen(), CurrentScreen::Editing);
    assert_eq!(app.currently_editing(), Some(&CurrentlyEditing::Key));
    app.push_char_to_active('x');
    app.advance_or_commit();
    assert_eq!(app.currently_editing(), Some(&CurrentlyEditing::Value));
    app.push_char_to_active('y');
    app.advance_or_commit();
    assert_eq!(app.currently_editing(), None);
    assert_eq!(*app.current_screen(), CurrentScreen::Main);
    assert_eq!(pair_list(&app), vec![("x".to_string(), "y".to_string())]);
    assert_eq!(app.key_input(), "");
    assert_eq!(app.value_input(), "");
}

#[test]
fn exit_declined_with_n_prints_nothing() {
    let mut app = App::new();
    assert_eq!(app.handle_key(press(KeyCode::Char('q'))), Flow::Running);
    assert_eq!(*app.current_screen(), CurrentScreen::Exiting);
    assert_eq!(
        app.handle_key(press(KeyCode::Char('n'))),
        Flow::Terminated { serialize: false }
    );
}

#[test]
fn exit_declined_with_q() {
    let mut app = App::new();
    app.request_exit();
    assert_eq!(
        app.handle_key(press(KeyCode::Char('q'))),
        Flow::Terminated { serialize: false }
    );
}

#[test]
fn exit_confirmed_with_y_serializes_pairs() {
    let mut app = App::new();
    commit_pair(&mut app, "x", "y");
    app.request_exit();
    assert_eq!(*app.current_screen(), CurrentScreen::Exiting);
    assert_eq!(
        app.handle_key(press(KeyCode::Char('y'))),
        Flow::Terminated { serialize: true }
    );
    assert_eq!(app.to_json(), Ok("{\"x\":\"y\"}".to_string()));
}

#[test]
fn exiting_screen_ignores_other_keys() {
    let mut app = App::new();
    app.request_exit();
    assert_eq!(app.handle_key(press(KeyCode::Char('x'))), Flow::Running);
    assert_eq!(app.handle_key(press(KeyCode::Enter)), Flow::Running);
    assert_eq!(*app.current_screen(), CurrentScreen::Exiting);
}

#[test]
fn key_release_is_ignored_on_every_screen() {
    let codes = [
        KeyCode::Char('e'),
        KeyCode::Char('q'),
        KeyCode::Char('y'),
        KeyCode::Char('n'),
        KeyCode::Char('x'),
        KeyCode::Enter,
        KeyCode::Backspace,
        KeyCode::Esc,
        KeyCode::Tab,
        KeyCode::Other,
    ];
    for screen in 0..3 {
        for code in codes {
            let mut app = App::new();
            commit_pair(&mut app, "k", "v");
            match screen {
                1 => {
                    app.begin_editing();
                    app.push_char_to_active('z');
                }
                2 => app.request_exit(),
                _ => {}
            }
            let key = app.key_input().to_string();
            let scr = *app.current_screen();
            let ed = app.currently_editing().copied();
            assert_eq!(app.handle_key(release(code)), Flow::Running);
            assert_eq!(app.key_input(), key);
            assert_eq!(*app.current_screen(), scr);
            assert_eq!(app.currently_editing().copied(), ed);
            assert_eq!(pair_list(&app), vec![("k".to_string(), "v".to_string())]);
        }
    }
}

#[test]
fn repeat_is_ignored_while_editing() {
    let mut app = App::new();
    app.begin_editing();
    let rep = KeyInput { code: KeyCode::Char('a'), phase: KeyPhase::Repeat };
    assert_eq!(app.handle_key(rep), Flow::Running);
    assert_eq!(app.key_input(), "");
}

#[test]
fn main_screen_ignores_other_keys() {
    let mut app = App::new();
    app.handle_key(press(KeyCode::Char('x')));
    app.handle_key(press(KeyCode::Enter));
    assert_eq!(*app.current_screen(), CurrentScreen::Main);
    assert_eq!(app.currently_editing(), None);
}

#[test]
fn dispatcher_editing_keys() {
    let mut app = App::new();
    app.handle_key(press(KeyCode::Char('e')));
    type_str(&mut app, "ab");
    app.handle_key(press(KeyCode::Backspace));
    assert_eq!(app.key_input(), "a");
    app.handle_key(press(KeyCode::Tab));
    type_str(&mut app, "q");
    assert_eq!(app.value_input(), "q");
    assert_eq!(*app.current_screen(), CurrentScreen::Editing);
    app.handle_key(press(KeyCode::Other));
    app.handle_key(press(KeyCode::Esc));
    assert_eq!(*app.current_screen(), CurrentScreen::Main);
    assert_eq!(app.currently_editing(), None);
    assert!(app.pairs().is_empty());
}

#[test]
fn cancel_keeps_buffers() {
    let mut app = App::new();
    app.begin_editing();
    app.push_char_to_active('k');
    app.cancel_editing();
    assert_eq!(*app.current_screen(), CurrentScreen::Main);
    assert_eq!(app.currently_editing(), None);
    assert_eq!(app.key_input(), "k");
    app.begin_editing();
    assert_eq!(app.key_input(), "k");
}

#[test]
fn push_with_nothing_edited_is_noop() {
    let mut app = App::new();
    app.push_char_to_active('a');
    app.pop_char_from_active();
    app.advance_or_commit();
    assert_eq!(app.key_input(), "");
    assert!(app.pairs().is_empty());
    assert_eq!(*app.current_screen(), CurrentScreen::Main);
}

#[test]
fn set_key_value_keeps_screen() {
    let mut app = App::new();
    app.begin_editing();
    app.push_char_to_active('k');
    app.toggle_editing();
    app.push_char_to_active('v');
    app.set_key_value();
    assert_eq!(*app.current_screen(), CurrentScreen::Editing);
    assert_eq!(app.currently_editing(), None);
    assert_eq!(pair_list(&app), vec![("k".to_string(), "v".to_string())]);
}

#[test]
fn confirm_and_decline_flags() {
    let app = App::new();
    assert!(app.confirm_exit());
    assert!(!app.decline_exit());
}

#[test]
fn empty_pairs_serialize_to_empty_object() {
    let app = App::new();
    assert_eq!(app.to_json(), Ok("{}".to_string()));
}

#[test]
fn pairs_serialize_in_insertion_order_with_escapes() {
    let mut app = App::new();
    commit_pair(&mut app, "b", "2");
    commit_pair(&mut app, "q\"t", "line\\x");
    commit_pair(&mut app, "", "");
    commit_pair(&mut app, "b", "3");
    assert_eq!(
        app.to_json(),
        Ok("{\"b\":\"3\",\"q\\\"t\":\"line\\\\x\",\"\":\"\"}".to_string())
    );
}

#[test]
fn control_and_non_ascii_characters_are_escaped_as_stated() {
    let mut app = App::new();
    app.begin_editing();
    for c in ['\u{1}', '\n', '\t', '\u{8}', '\u{c}', '\r', '\u{1f}'] {
        app.push_char_to_active(c);
    }
    app.advance_or_commit();
    for c in ['é', '/', '€'] {
        app.push_char_to_active(c);
    }
    app.advance_or_commit();
    assert_eq!(
        app.to_json(),
        Ok("{\"\\u0001\\n\\t\\b\\f\\r\\u001f\":\"é/€\"}".to_string())
    );
}
