use neotext::bars::{get_info_bar_content, get_notif_bar_content, to_decimal, DebugMessages};
use neotext::buffer::{Stack, StateCapsule, VecBuffer};
use neotext::common::{BaseAction, Command, FindDirection, Lazy, LineCol, Modal, Selection};
use neotext::cursor::{Cursor, ShadowCursor};
use neotext::editor::{Direction, Editor};
use neotext::error::Error;
use neotext::pattern::{is_whitespace, CharClass};
use neotext::viewport::{line_number_label, Highlight, ViewPort};

fn buf(lines: &[&str]) -> VecBuffer {
    VecBuffer::new(lines.iter().map(|s| s.to_string()).collect())
}

fn text(b: &VecBuffer) -> Vec<String> {
    b.get_normal_text().to_vec()
}

#[test]
fn every_plane_keeps_a_line() {
    let mut b = buf(&["only"]);
    b.delete_selection(LineCol { line: 0, col: 0 }, LineCol { line: 0, col: 4 }).unwrap();
    assert_eq!(text(&b), vec![""]);
    let mut b = buf(&["one", "two"]);
    b.delete_line(0);
    b.delete_line(0);
    assert_eq!(text(&b), vec![""]);
    let b = VecBuffer::new(Vec::new());
    assert_eq!(b.line_count(), 1);
    assert_eq!(b.get_command_text(), "");
    assert_eq!(b.get_terminal_text(), "");
}

#[test]
fn insert_then_delete_gives_plane_back() {
    let mut b = buf(&["Hello", "world"]);
    b.insert(LineCol { line: 1, col: 2 }, 'X').unwrap();
    assert_eq!(text(&b), vec!["Hello", "woXrld"]);
    let at = b.delete(LineCol { line: 1, col: 3 }).unwrap();
    assert_eq!(at, LineCol { line: 1, col: 2 });
    assert_eq!(text(&b), vec!["Hello", "world"]);
}

#[test]
fn delete_at_line_start_joins_lines() {
    let mut b = buf(&["ab", "cd"]);
    let at = b.delete(LineCol { line: 1, col: 0 }).unwrap();
    assert_eq!(at, LineCol { line: 0, col: 2 });
    assert_eq!(text(&b), vec!["abcd"]);
}

#[test]
fn replace_equals_delete_then_insert() {
    let from = LineCol { line: 0, col: 2 };
    let to = LineCol { line: 1, col: 3 };
    let mut a = buf(&["alpha", "bravo", "charlie"]);
    a.replace(from, to, "XY\nZ").unwrap();
    let mut b = buf(&["alpha", "bravo", "charlie"]);
    b.delete_selection(from, to).unwrap();
    b.insert_text(from, "XY\nZ".to_string(), false).unwrap();
    assert_eq!(text(&a), text(&b));
    assert_eq!(text(&a), vec!["alXY", "Zvo", "charlie"]);
}

#[test]
fn text_put_back_leaves_buffer_unchanged() {
    let before = vec!["First line", "Second line", "Third line"];
    let mut b = buf(&before);
    let from = LineCol { line: 0, col: 3 };
    let to = LineCol { line: 2, col: 4 };
    let t = b.get_text(from, to).unwrap();
    assert_eq!(t, "st line\nSecond line\nThir");
    b.replace(from, to, &t).unwrap();
    assert_eq!(text(&b), before);
    let whole = b.get_text(LineCol { line: 1, col: 0 }, LineCol { line: 2, col: 0 }).unwrap();
    b.replace(LineCol { line: 1, col: 0 }, LineCol { line: 2, col: 0 }, &whole).unwrap();
    assert_eq!(text(&b), before);
}

#[test]
fn error_variants() {
    let mut b = buf(&["abc"]);
    assert!(matches!(b.insert(LineCol { line: 1, col: 0 }, 'x'), Err(Error::InvalidPosition)));
    assert!(matches!(b.insert(LineCol { line: 0, col: 4 }, 'x'), Err(Error::InvalidPosition)));
    assert!(matches!(
        b.delete_selection(LineCol { line: 0, col: 1 }, LineCol { line: 0, col: 1 }),
        Err(Error::InvalidRange(_, _))
    ));
    assert!(matches!(
        b.insert_text(LineCol { line: 0, col: 0 }, String::new(), false),
        Err(Error::InvalidInput)
    ));
    assert!(matches!(b.replace(LineCol { line: 0, col: 0 }, LineCol { line: 0, col: 1 }, ""), Err(Error::InvalidInput)));
    assert!(matches!(
        b.replace(LineCol { line: 0, col: 2 }, LineCol { line: 0, col: 1 }, "x"),
        Err(Error::InvalidRange(_, _))
    ));
    assert!(matches!(b.delete(LineCol { line: 0, col: 0 }), Err(Error::ImATeacup)));
    assert!(matches!(b.undo(LineCol { line: 0, col: 0 }), Err(Error::NowhereToGo)));
    assert!(matches!(b.redo(LineCol { line: 0, col: 0 }), Err(Error::NowhereToGo)));
    assert!(matches!(b.line(0), Err(Error::InvalidLineNumber)));
    assert!(matches!(
        b.get_text(LineCol { line: 0, col: 2 }, LineCol { line: 0, col: 1 }),
        Err(Error::InvalidRange(_, _))
    ));
    assert!(matches!(
        b.get_full_lines_buffer_window(Some(LineCol { line: 3, col: 0 }), None),
        Err(Error::InvalidInput)
    ));
    assert_eq!(text(&b), vec!["abc"]);
}

#[test]
fn buffer_edits_are_recorded_for_undo() {
    let mut b = buf(&["abc"]);
    b.execute_action(&BaseAction::InsertAt(Lazy::with_inner(LineCol { line: 0, col: 3 }), 'd')).unwrap();
    b.execute_action(&BaseAction::DeleteAt(Lazy::with_inner(LineCol { line: 0, col: 0 }), 1)).unwrap();
    assert_eq!(text(&b), vec!["bcd"]);
    b.undo(LineCol { line: 0, col: 0 }).unwrap();
    assert_eq!(text(&b), vec!["abcd"]);
    b.undo(LineCol { line: 0, col: 0 }).unwrap();
    assert_eq!(text(&b), vec!["abc"]);
    b.redo(LineCol { line: 0, col: 0 }).unwrap();
    assert_eq!(text(&b), vec!["abcd"]);
}

#[test]
fn history_stack_keeps_the_newest_thousand() {
    let mut s = Stack::new();
    for i in 0..1005usize {
        s.push(StateCapsule::new(vec![i.to_string()], LineCol { line: i, col: 0 }));
    }
    let mut count = 0;
    while s.pop().is_some() {
        count += 1;
    }
    assert_eq!(count, 1000);
    assert!(s.is_empty());
}

#[test]
fn windows_and_lines() {
    let b = buf(&["one", "two", "three"]);
    assert_eq!(
        b.get_full_lines_buffer_window(Some(LineCol { line: 1, col: 2 }), None).unwrap(),
        vec!["two", "three"]
    );
    assert_eq!(b.max_line(), 2);
    assert_eq!(b.max_col(2), 5);
    assert_eq!(b.max_linecol(), LineCol { line: 2, col: 5 });
    assert_eq!(b.line(1).unwrap(), "two");
    assert_eq!(
        b.get_buffer_window(None, Some(LineCol { line: 2, col: 0 })).unwrap(),
        vec!["one", "two"]
    );
}

#[test]
fn command_plane_utilities() {
    let mut b = buf(&["doc"]);
    assert!(b.is_command_empty());
    b.replace_command_text("/abc".to_string());
    assert_eq!(b.get_command_text(), "/abc");
    assert!(!b.is_command_empty());
    b.clear_command();
    assert!(b.is_command_empty());
    b.set_plane(&Modal::Find(FindDirection::Forwards));
    b.insert(LineCol { line: 0, col: 0 }, 'q').unwrap();
    assert_eq!(b.get_command_text(), "q");
    assert_eq!(text(&b), vec!["doc"]);
}

#[test]
fn repeat_multiplies_counts() {
    assert_eq!(BaseAction::MoveUp(2).repeat(3), BaseAction::MoveUp(6));
    assert_eq!(BaseAction::Paste('a', 1).repeat(4), BaseAction::Paste('a', 4));
    assert_eq!(BaseAction::Save.repeat(5), BaseAction::Save);
    assert_eq!(BaseAction::Undo(3).get_repeater(), Some(3));
    assert_eq!(BaseAction::Yank.get_repeater(), None);
}

#[test]
fn selection_and_positions() {
    let a = LineCol { line: 1, col: 5 };
    let b = LineCol { line: 2, col: 0 };
    assert!(a.precedes(&b));
    assert!(!b.precedes(&a));
    assert!(a < b);
    assert!(LineCol { line: 2, col: 3 } > b);
    assert_eq!(a.partial_cmp(&a), Some(std::cmp::Ordering::Equal));
    let s = Selection { start: b, end: a }.normalized();
    assert_eq!((s.start, s.end), (a, b));
    let s = Selection { start: LineCol { line: 1, col: 0 }, end: LineCol { line: 4, col: 0 } };
    assert!(s.line_is_in_selection(2));
    assert!(!s.line_is_in_selection(1));
    assert!(!s.line_is_in_selection(4));
}

#[test]
fn modal_names_and_tests() {
    assert_eq!(Modal::Normal.name(), "NORMAL");
    assert_eq!(Modal::VisualLine.name(), "VISUAL_LINE");
    assert_eq!(Modal::Find(FindDirection::Forwards).name(), "FORWARD FIND");
    assert_eq!(Modal::Find(FindDirection::Backwards).name(), "BACKWARD FIND");
    assert!(Modal::Find(FindDirection::Backwards).is_backwards_find());
    assert!(Modal::Find(FindDirection::Forwards).is_find());
    assert!(!Modal::Insert.is_normal());
    assert!(Modal::Command.is_command());
}

#[test]
fn lazy_values() {
    let mut l: Lazy<LineCol> = Lazy::new();
    assert!(!l.is_evaluated());
    l.set_inner(LineCol { line: 3, col: 1 });
    assert!(l.is_evaluated());
    assert_eq!(l.clone_inner(), LineCol { line: 3, col: 1 });
    assert_eq!(l.into_inner(), Some(LineCol { line: 3, col: 1 }));
}

#[test]
fn cursor_mode_changes() {
    let mut c = Cursor::default();
    c.go(&LineCol { line: 4, col: 7 });
    c.mod_change(&Modal::VisualLine);
    assert_eq!(c.last_text_mode_pos, LineCol { line: 4, col: 0 });
    assert_eq!(c.pos, LineCol { line: 4, col: 0 });
    c.go(&LineCol { line: 2, col: 3 });
    c.mod_change(&Modal::Command);
    assert_eq!(c.pos, LineCol { line: 0, col: 0 });
    assert_eq!(c.last_text_mode_pos, LineCol { line: 2, col: 3 });
    c.mod_change(&Modal::Normal);
    assert_eq!(c.pos, LineCol { line: 2, col: 3 });
    assert_eq!(c.text_mode_col(), 3);
    let mut s = ShadowCursor::from_pos(&LineCol { line: 0, col: 0 });
    s.execute_action(&BaseAction::MoveLeft(2)).unwrap();
    assert_eq!(s.col, -2);
}

#[test]
fn viewport_scrolls_and_highlights() {
    let mut v = ViewPort::new(80, 24);
    v.scroll_down(5);
    assert_eq!((v.top_border, v.bottom_border), (5, 29));
    v.scroll_up(10);
    assert_eq!((v.top_border, v.bottom_border), (0, 24));
    assert_eq!(v.visible_range(), (0, 23));
    assert_eq!(line_number_label(3, 2), 3);
    assert_eq!(line_number_label(1, 2), 2);
    assert_eq!(line_number_label(7, 2), 4);
    let mut c = Cursor::default();
    c.go(&LineCol { line: 1, col: 2 });
    c.mod_change(&Modal::Visual);
    c.go(&LineCol { line: 3, col: 4 });
    v.execute_action(&BaseAction::ChangeMode(Modal::Visual)).unwrap();
    assert_eq!(v.highlight(10, 1, &c), Highlight::Partial(2, 10));
    assert_eq!(v.highlight(10, 2, &c), Highlight::Whole);
    assert_eq!(v.highlight(10, 3, &c), Highlight::Partial(0, 4));
    assert_eq!(v.highlight(10, 4, &c), Highlight::Plain);
    assert_eq!(v.cursor_screen_position(&c), (11, 3));
}

#[test]
fn bars_text() {
    assert_eq!(to_decimal(0), "0");
    assert_eq!(to_decimal(1205), "1205");
    let s = get_info_bar_content(20, &Modal::Normal, LineCol { line: 0, col: 3 });
    assert_eq!(s, format!("NORMAL{}1:3 ", " ".repeat(9)));
    let mut q = DebugMessages::new();
    for i in 0..12 {
        q.push(format!("m{}", i));
    }
    assert_eq!(q.len(), 10);
    assert_eq!(get_notif_bar_content(&mut q), "m2");
    let mut empty = DebugMessages::new();
    assert_eq!(get_notif_bar_content(&mut empty), "");
}

#[test]
fn character_classes() {
    assert!(CharClass::WordChar.holds('a'));
    assert!(CharClass::WordChar.holds('_'));
    assert!(CharClass::WordChar.holds('7'));
    assert!(!CharClass::WordChar.holds('!'));
    assert!(CharClass::SymbolChar.holds('!'));
    assert!(!CharClass::SymbolChar.holds(' '));
    assert!(is_whitespace('\t'));
    assert!(is_whitespace('\u{3000}'));
    assert!(!is_whitespace('x'));
}

#[test]
fn command_line_parsing() {
    let mut e = Editor::new(buf(&["x"]), false);
    assert_eq!(e.parse_out_command(), Command::Unknown);
    e.perform_action(BaseAction::ChangeMode(Modal::Command)).unwrap();
    for c in ['?', 'a', 'b'] {
        e.perform_action(BaseAction::InsertAt(Lazy::new(), c)).unwrap();
        e.perform_action(BaseAction::MoveRight(1)).unwrap();
    }
    assert_eq!(e.parse_out_command(), Command::Rfind("ab".to_string()));
}

#[test]
fn editor_search_functions() {
    let e = Editor::new(buf(&["alpha beta", "gamma alpha"]), false);
    assert_eq!(e.find(&"alpha", LineCol { line: 0, col: 1 }).unwrap(), LineCol { line: 1, col: 6 });
    assert_eq!(e.rfind(&"alpha", LineCol { line: 1, col: 5 }).unwrap(), LineCol { line: 0, col: 0 });
    assert!(matches!(e.find(&"zeta", LineCol { line: 0, col: 0 }), Err(Error::PatternNotFound)));
    assert_eq!(
        e.resolve_find(&'m', Direction::Forward).unwrap(),
        BaseAction::SetCursor(LineCol { line: 1, col: 2 })
    );
    assert_eq!(
        e.resolve_find(&'z', Direction::Forward).unwrap(),
        BaseAction::SetCursor(LineCol { line: 0, col: 0 })
    );
}

#[test]
fn every_edit_can_be_undone_and_redone() {
    let mut b = buf(&["abc"]);
    b.insert(LineCol { line: 0, col: 0 }, 'z').unwrap();
    assert_eq!(text(&b), vec!["zabc"]);
    b.undo(LineCol { line: 0, col: 1 }).unwrap();
    assert_eq!(text(&b), vec!["abc"]);
    b.redo(LineCol { line: 0, col: 0 }).unwrap();
    assert_eq!(text(&b), vec!["zabc"]);

    let mut b = buf(&["ab", "cd"]);
    b.delete(LineCol { line: 1, col: 0 }).unwrap();
    assert_eq!(text(&b), vec!["abcd"]);
    b.undo(LineCol { line: 0, col: 2 }).unwrap();
    assert_eq!(text(&b), vec!["ab", "cd"]);

    let mut b = buf(&["one", "two"]);
    b.insert_text(LineCol { line: 0, col: 3 }, "!\n?".to_string(), false).unwrap();
    b.delete_selection(LineCol { line: 0, col: 0 }, LineCol { line: 0, col: 2 }).unwrap();
    b.replace(LineCol { line: 0, col: 0 }, LineCol { line: 0, col: 1 }, "E").unwrap();
    assert_eq!(text(&b), vec!["E!", "?", "two"]);
    b.undo(LineCol { line: 0, col: 0 }).unwrap();
    assert_eq!(text(&b), vec!["e!", "?", "two"]);
    b.undo(LineCol { line: 0, col: 0 }).unwrap();
    assert_eq!(text(&b), vec!["one!", "?", "two"]);
    b.undo(LineCol { line: 0, col: 0 }).unwrap();
    assert_eq!(text(&b), vec!["one", "two"]);
    assert!(matches!(b.undo(LineCol { line: 0, col: 0 }), Err(Error::NowhereToGo)));
}

#[test]
fn command_plane_edits_are_not_recorded() {
    let mut b = buf(&["doc"]);
    b.set_plane(&Modal::Command);
    b.insert(LineCol { line: 0, col: 0 }, 'q').unwrap();
    assert!(matches!(b.undo(LineCol { line: 0, col: 0 }), Err(Error::NowhereToGo)));
}

#[test]
fn replace_of_whole_lines_matches_delete_then_insert() {
    let mut a = buf(&["ab", "cd"]);
    a.replace(LineCol { line: 0, col: 0 }, LineCol { line: 0, col: 2 }, "x").unwrap();
    let mut b = buf(&["ab", "cd"]);
    b.delete_selection(LineCol { line: 0, col: 0 }, LineCol { line: 0, col: 2 }).unwrap();
    b.insert_text(LineCol { line: 0, col: 0 }, "x".to_string(), false).unwrap();
    assert_eq!(text(&a), text(&b));
    assert_eq!(text(&a), vec!["xcd"]);
    // nothing follows the deleted last line, so there is nowhere to insert
    let mut c = buf(&["ab", "cd"]);
    let r = c.replace(LineCol { line: 1, col: 0 }, LineCol { line: 1, col: 2 }, "x");
    assert!(matches!(r, Err(Error::InvalidPosition)));
    assert_eq!(text(&c), vec!["ab", "cd"]);
}

#[test]
fn out_of_bounds_end_and_newline_characters_are_refused() {
    let mut b = buf(&["abc", "de"]);
    assert!(matches!(
        b.delete_selection(LineCol { line: 0, col: 1 }, LineCol { line: 1, col: 3 }),
        Err(Error::InvalidRange(_, _))
    ));
    assert!(matches!(b.insert(LineCol { line: 0, col: 1 }, '\n'), Err(Error::InvalidInput)));
    assert_eq!(text(&b), vec!["abc", "de"]);
}
