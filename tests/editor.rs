use neotext::buffer::VecBuffer;
use neotext::common::{BaseAction, LineCol, Modal};
use neotext::editor::{Direction, Editor, KeyCode, KeyEvent, KeyModifiers};
use neotext::error::Error;

fn key(c: char) -> KeyEvent {
    let shift = c.is_ascii_uppercase();
    KeyEvent {
        code: KeyCode::Char(c),
        modifiers: KeyModifiers { shift, control: false, alt: false },
    }
}

fn special(code: KeyCode) -> KeyEvent {
    KeyEvent { code, modifiers: KeyModifiers { shift: false, control: false, alt: false } }
}

fn ctrl(c: char) -> KeyEvent {
    KeyEvent {
        code: KeyCode::Char(c),
        modifiers: KeyModifiers { shift: false, control: true, alt: false },
    }
}

fn editor_on(lines: &[&str]) -> Editor {
    Editor::new(VecBuffer::new(lines.iter().map(|s| s.to_string()).collect()), false)
}

fn lines(editor: &Editor) -> Vec<String> {
    editor.buffer().get_normal_text().to_vec()
}

#[test]
fn test_jump_two_boundaries() {
    // Create a VecBuffer with test content
    let content = vec![
        "Hello world! This is a test.".to_string(),
        "Multiple   spaces   between words.".to_string(),
        "Symbols: @#$% and _underscores_".to_string(),
    ];
    let buffer = VecBuffer::new(content);

    let mut editor = Editor::new(buffer, false);

    // Test forward word jump
    let result = editor.jump_two_boundaries(Direction::Forward, char::is_whitespace, |ch: char| {
        !ch.is_whitespace()
    });
    assert_eq!(
        result.unwrap(),
        BaseAction::SetCursor(LineCol { line: 0, col: 6 })
    );

    // Test backward word jump: the last whitespace up to the column after the cursor,
    // then the last non-whitespace before it
    editor.perform_action(BaseAction::SetCursor(LineCol { line: 0, col: 20 })).unwrap();
    let result = editor.jump_two_boundaries(Direction::Backward, char::is_whitespace, |ch: char| {
        !ch.is_whitespace()
    });
    assert_eq!(
        result.unwrap(),
        BaseAction::SetCursor(LineCol { line: 0, col: 19 })
    );

    // Test forward symbol jump
    editor.perform_action(BaseAction::SetCursor(LineCol { line: 2, col: 0 })).unwrap();
    let result = editor.jump_two_boundaries(
        Direction::Forward,
        |ch: char| ch.is_alphanumeric() || ch == '_',
        |ch: char| !ch.is_alphanumeric() && ch != '_' && !ch.is_whitespace(),
    );
    assert_eq!(
        result.unwrap(),
        BaseAction::SetCursor(LineCol { line: 2, col: 7 })
    );

    // Test backward symbol jump
    editor.perform_action(BaseAction::SetCursor(LineCol { line: 2, col: 20 })).unwrap();
    let result = editor.jump_two_boundaries(
        Direction::Backward,
        |ch: char| ch.is_alphanumeric() || ch == '_',
        |ch: char| !ch.is_alphanumeric() && ch != '_' && !ch.is_whitespace(),
    );
    assert_eq!(
        result.unwrap(),
        BaseAction::SetCursor(LineCol { line: 2, col: 12 })
    );

    // Test jump at end of buffer
    editor.perform_action(BaseAction::SetCursor(LineCol { line: 2, col: 30 })).unwrap();
    let result = editor.jump_two_boundaries(Direction::Forward, char::is_whitespace, |ch: char| {
        !ch.is_whitespace()
    });
    assert_eq!(result.unwrap(), BaseAction::Nothing);

    // Test jump at beginning of buffer
    editor.perform_action(BaseAction::SetCursor(LineCol { line: 0, col: 0 })).unwrap();
    let result = editor.jump_two_boundaries(Direction::Backward, char::is_whitespace, |ch: char| {
        !ch.is_whitespace()
    });
    assert_eq!(result.unwrap(), BaseAction::Nothing);
}

#[test]
fn insert_char_mid_line() {
    let mut editor = editor_on(&["Hello"]);
    editor.perform_action(BaseAction::SetCursor(LineCol { line: 0, col: 2 })).unwrap();
    editor.handle_key_event(key('i')).unwrap();
    assert_eq!(editor.modal(), Modal::Insert);
    editor.handle_key_event(key('X')).unwrap();
    assert_eq!(lines(&editor), vec!["HeXllo"]);
    assert_eq!(editor.cursor().pos, LineCol { line: 0, col: 3 });
}

#[test]
fn word_jump_over_spaces() {
    let mut editor = editor_on(&["Hello world! This is a test."]);
    editor.handle_key_event(key('W')).unwrap();
    assert_eq!(editor.cursor().pos, LineCol { line: 0, col: 6 });
}

#[test]
fn downward_move_at_last_line_is_clamped() {
    let mut editor = editor_on(&["aaaaaaaaaa", "bbbbbbbbbb", "cccccccccc"]);
    editor.perform_action(BaseAction::SetCursor(LineCol { line: 2, col: 5 })).unwrap();
    editor.handle_key_event(key('j')).unwrap();
    // the jump to the last line keeps the column
    assert_eq!(editor.cursor().pos, LineCol { line: 2, col: 5 });
    editor.handle_key_event(key('$')).unwrap();
    editor.handle_key_event(key('j')).unwrap();
    assert_eq!(editor.cursor().pos, LineCol { line: 2, col: 10 });
}

#[test]
fn find_via_command_mode() {
    let mut editor = editor_on(&["alpha", "beta gamma"]);
    for c in [':', '/', 'g', 'a', 'm'] {
        editor.handle_key_event(key(c)).unwrap();
    }
    assert_eq!(editor.modal(), Modal::Command);
    assert_eq!(editor.buffer().get_command_text(), "/gam");
    editor.handle_key_event(special(KeyCode::Enter)).unwrap();
    assert_eq!(editor.modal(), Modal::Normal);
    assert_eq!(editor.cursor().pos, LineCol { line: 1, col: 5 });
}

#[test]
fn undo_redo_round_trip() {
    let mut editor = editor_on(&["abc"]);
    editor.handle_key_event(key('i')).unwrap();
    editor.handle_key_event(key('z')).unwrap();
    editor.handle_key_event(special(KeyCode::Esc)).unwrap();
    assert_eq!(lines(&editor), vec!["zabc"]);
    editor.handle_key_event(key('u')).unwrap();
    assert_eq!(lines(&editor), vec!["abc"]);
    editor.handle_key_event(ctrl('r')).unwrap();
    assert_eq!(lines(&editor), vec!["zabc"]);
}

#[test]
fn undo_with_empty_history_is_reported_not_fatal() {
    let mut editor = editor_on(&["abc"]);
    assert!(editor.handle_key_event(key('u')).is_ok());
    assert_eq!(lines(&editor), vec!["abc"]);
    assert_eq!(editor.get_debug_messages().len(), 1);
}

#[test]
fn quit_command_ends_the_editor() {
    let mut editor = editor_on(&["abc"]);
    editor.handle_key_event(key(':')).unwrap();
    editor.handle_key_event(key('q')).unwrap();
    let r = editor.handle_key_event(special(KeyCode::Enter));
    assert!(matches!(r, Err(Error::ExitCall)));
}

#[test]
fn repeat_count_multiplies_single_primitive_and_resets() {
    let mut editor = editor_on(&["a", "b", "c", "d", "e", "f"]);
    editor.set_repeat(3);
    editor.handle_key_event(key('j')).unwrap();
    assert_eq!(editor.cursor().pos, LineCol { line: 3, col: 0 });
    editor.handle_key_event(key('j')).unwrap();
    assert_eq!(editor.cursor().pos, LineCol { line: 4, col: 0 });
}

#[test]
fn cursor_stays_in_bounds_and_shadow_follows() {
    let mut editor = editor_on(&["short", "a much longer line", ""]);
    let keys = ['l', 'l', 'l', 'l', 'l', 'l', 'l', 'j', 'j', 'k', 'h', 'G', 'g', '$', 'j'];
    for c in keys {
        editor.handle_key_event(key(c)).unwrap();
        let pos = editor.cursor().pos;
        let text = lines(&editor);
        assert!(pos.line < text.len());
        assert!(pos.col <= text[pos.line].chars().count());
        assert_eq!(editor.shadow_cursor().line, pos.line as i128);
        assert_eq!(editor.shadow_cursor().col, pos.col as i128);
    }
}

#[test]
fn delete_before_cursor_joins_nothing_at_line_start() {
    let mut editor = editor_on(&["abc"]);
    editor.handle_key_event(key('$')).unwrap();
    editor.handle_key_event(key('X')).unwrap();
    assert_eq!(lines(&editor), vec!["ab"]);
    editor.handle_key_event(key('_')).unwrap();
    editor.handle_key_event(key('x')).unwrap();
    assert_eq!(lines(&editor), vec!["b"]);
}

#[test]
fn replace_char_and_find_char() {
    let mut editor = editor_on(&["hello world"]);
    editor.handle_key_event(key('f')).unwrap();
    editor.handle_key_event(key('w')).unwrap();
    assert_eq!(editor.cursor().pos, LineCol { line: 0, col: 6 });
    editor.handle_key_event(key('r')).unwrap();
    editor.handle_key_event(key('W')).unwrap();
    assert_eq!(lines(&editor), vec!["hello World"]);
    editor.handle_key_event(key('F')).unwrap();
    editor.handle_key_event(key('e')).unwrap();
    assert_eq!(editor.cursor().pos, LineCol { line: 0, col: 1 });
}

#[test]
fn insert_newline_in_insert_mode() {
    let mut editor = editor_on(&["ab"]);
    editor.handle_key_event(key('i')).unwrap();
    editor.handle_key_event(special(KeyCode::Enter)).unwrap();
    assert_eq!(lines(&editor), vec!["ab", ""]);
    assert_eq!(editor.cursor().pos, LineCol { line: 1, col: 0 });
}

#[test]
fn unevaluated_position_is_a_programming_bug() {
    let mut buffer = VecBuffer::new(vec!["abc".to_string()]);
    let r = buffer.execute_action(&BaseAction::InsertAt(neotext::common::Lazy::new(), 'x'));
    assert!(matches!(r, Err(Error::ProgrammingBug { .. })));
}
