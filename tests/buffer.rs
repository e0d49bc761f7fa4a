use neotext::buffer::VecBuffer;
use neotext::common::{LineCol, Modal};
use neotext::error::Result;

/// "First line"
/// "Second line"
/// "Third line"
fn new_test_buffer() -> VecBuffer {
    VecBuffer::new(vec![
        "First line".to_string(),
        "Second line".to_string(),
        "Third line".to_string(),
    ])
}

/// "First line with some text"
/// "Second line also has text"
/// "Third line is here too"
fn new_test_buffer_find() -> VecBuffer {
    VecBuffer::new(vec![
        "First line with some text".to_string(),
        "Second line also has text".to_string(),
        "Third line is here too".to_string(),
    ])
}

/// "First line"
/// "Second line"
/// "Third line"
/// "Fourth line"
fn new_test_buffer_get() -> VecBuffer {
    VecBuffer::new(vec![
        "First line".to_string(),
        "Second line".to_string(),
        "Third line".to_string(),
        "Fourth line".to_string(),
    ])
}

fn text(buf: &VecBuffer) -> Vec<String> {
    buf.get_normal_text().to_vec()
}

#[test]
fn test_replace_within_single_line() {
    let mut buf = new_test_buffer();
    buf.replace(
        LineCol { line: 0, col: 6 },
        LineCol { line: 0, col: 10 },
        "text",
    )
    .unwrap();
    assert_eq!(text(&buf)[0], "First text");
}

#[test]
fn test_replace_across_multiple_lines() {
    let mut buf = new_test_buffer();
    buf.replace(
        LineCol { line: 0, col: 6 },
        LineCol { line: 2, col: 5 },
        "new\nreplacement\ntext",
    )
    .unwrap();
    assert_eq!(
        text(&buf),
        vec![
            "First new".to_string(),
            "replacement".to_string(),
            "text line".to_string(),
        ]
    );
}

#[test]
fn test_replacing_at_line_end() {
    let mut buf = new_test_buffer();
    buf.replace(
        LineCol { line: 1, col: 7 },
        LineCol { line: 1, col: 11 },
        "replacement",
    )
    .unwrap();
    assert_eq!(
        text(&buf),
        vec![
            "First line".to_string(),
            "Second replacement".to_string(),
            "Third line".to_string(),
        ]
    );
}

#[test]
fn test_replacing_with_more_new_lines_than_old() {
    let mut buf = new_test_buffer();
    buf.replace(
        LineCol { line: 0, col: 6 },
        LineCol { line: 2, col: 5 },
        "new\nreplacement\ntext\nthis also",
    )
    .unwrap();
    assert_eq!(
        text(&buf),
        vec![
            "First new".to_string(),
            "replacement".to_string(),
            "text".to_string(),
            "this also line".to_string()
        ]
    );
}

#[test]
fn test_replacing_at_buffer_end() {
    let mut buf = new_test_buffer();
    buf.replace(
        LineCol { line: 2, col: 6 },
        LineCol { line: 2, col: 10 },
        "replacement",
    )
    .unwrap();
    assert_eq!(
        text(&buf),
        vec![
            "First line".to_string(),
            "Second line".to_string(),
            "Third replacement".to_string(),
        ]
    );
}

#[test]
fn test_get_text_single_line() -> Result<()> {
    let buffer = new_test_buffer_get();
    assert_eq!(
        buffer.get_text(LineCol { line: 0, col: 0 }, LineCol { line: 0, col: 5 })?,
        "First".to_string()
    );
    Ok(())
}

#[test]
fn test_get_text_multiple_lines() -> Result<()> {
    let buffer = new_test_buffer_get();
    assert_eq!(
        buffer.get_text(LineCol { line: 0, col: 6 }, LineCol { line: 2, col: 5 })?,
        "line\nSecond line\nThird".to_string()
    );
    Ok(())
}

#[test]
fn test_get_text_entire_line() -> Result<()> {
    let buffer = new_test_buffer_get();
    assert_eq!(
        buffer.get_text(LineCol { line: 1, col: 0 }, LineCol { line: 2, col: 0 })?,
        "Second line\n".to_string()
    );
    Ok(())
}

#[test]
fn test_get_text_across_all_lines() -> Result<()> {
    let buffer = new_test_buffer_get();
    assert_eq!(
        buffer.get_text(LineCol { line: 0, col: 0 }, LineCol { line: 3, col: 11 })?,
        "First line\nSecond line\nThird line\nFourth line".to_string()
    );
    Ok(())
}

#[test]
fn test_get_text_empty_range() -> Result<()> {
    let buffer = new_test_buffer_get();
    assert_eq!(
        buffer.get_text(LineCol { line: 1, col: 5 }, LineCol { line: 1, col: 5 })?,
        "".to_string()
    );
    Ok(())
}

#[test]
fn test_delete_within_line() {
    let mut buffer = new_test_buffer_get();
    buffer
        .delete_selection(LineCol { line: 0, col: 6 }, LineCol { line: 0, col: 10 })
        .unwrap();
    assert_eq!(text(&buffer)[0], "First ");
}

#[test]
fn test_delete_to_end_of_line() {
    let mut buffer = new_test_buffer_get();
    // an end past the end of the line is out of bounds
    let result =
        buffer.delete_selection(LineCol { line: 0, col: 6 }, LineCol { line: 0, col: 11 });
    assert!(matches!(result, Err(neotext::error::Error::InvalidRange(_, _))));
    buffer
        .delete_selection(LineCol { line: 0, col: 6 }, LineCol { line: 0, col: 10 })
        .unwrap();
    assert_eq!(text(&buffer)[0], "First ");
}

#[test]
fn test_delete_entire_line() {
    let mut buffer = new_test_buffer_get();
    buffer
        .delete_selection(LineCol { line: 1, col: 0 }, LineCol { line: 1, col: 11 })
        .unwrap();
    assert_eq!(text(&buffer).len(), 3);
    assert_eq!(text(&buffer)[1], "Third line");
}

#[test]
fn test_delete_across_lines() {
    let mut buffer = new_test_buffer_get();
    buffer
        .delete_selection(LineCol { line: 0, col: 6 }, LineCol { line: 2, col: 6 })
        .unwrap();
    assert_eq!(text(&buffer).len(), 2);
    assert_eq!(text(&buffer)[0], "First line");
}

#[test]
fn test_delete_multiple_full_lines() {
    let mut buffer = new_test_buffer_get();
    buffer
        .delete_selection(LineCol { line: 1, col: 0 }, LineCol { line: 2, col: 10 })
        .unwrap();
    assert_eq!(text(&buffer).len(), 2);
    assert_eq!(text(&buffer)[1], "Fourth line");
}

#[test]
fn test_delete_invalid_range() {
    let mut buffer = new_test_buffer_get();
    let result =
        buffer.delete_selection(LineCol { line: 2, col: 0 }, LineCol { line: 1, col: 0 });
    assert!(result.is_err());
}

#[test]
fn test_delete_out_of_bounds() {
    let mut buffer = new_test_buffer_get();
    let result =
        buffer.delete_selection(LineCol { line: 0, col: 0 }, LineCol { line: 4, col: 0 });
    assert!(result.is_err());
}

#[test]
fn test_insert_single_line_not_newline() {
    let mut buffer = new_test_buffer();
    buffer
        .insert_text(LineCol { line: 0, col: 5 }, "inserted ".to_string(), false)
        .unwrap();
    assert_eq!(text(&buffer)[0], "Firstinserted  line");
}

#[test]
fn test_insert_multi_line_not_newline() {
    let mut buffer = new_test_buffer();
    buffer
        .insert_text(
            LineCol { line: 0, col: 5 },
            "inserted\ntext".to_string(),
            false,
        )
        .unwrap();
    assert_eq!(text(&buffer)[0], "Firstinserted");
    assert_eq!(text(&buffer)[1], "text line");
}

#[test]
fn test_insert_single_line_newline() {
    let mut buffer = new_test_buffer();
    buffer
        .insert_text(LineCol { line: 1, col: 0 }, "New line".to_string(), true)
        .unwrap();
    assert_eq!(text(&buffer)[1], "Second line");
    assert_eq!(text(&buffer)[2], "New line");
    assert_eq!(text(&buffer)[3], "Third line");
}

#[test]
fn test_insert_multi_line_newline() {
    let mut buffer = new_test_buffer();
    buffer
        .insert_text(LineCol { line: 1, col: 0 }, "New\nlines".to_string(), true)
        .unwrap();
    assert_eq!(text(&buffer)[1], "Second line");
    assert_eq!(text(&buffer)[2], "New");
    assert_eq!(text(&buffer)[3], "lines");
    assert_eq!(text(&buffer)[4], "Third line");
}

#[test]
fn test_insert_at_end_of_line() {
    let mut buffer = new_test_buffer();
    buffer
        .insert_text(LineCol { line: 0, col: 10 }, " added".to_string(), false)
        .unwrap();
    assert_eq!(text(&buffer)[0], "First line added");
}

#[test]
fn test_insert_at_start_of_buffer() {
    let mut buffer = new_test_buffer();
    buffer
        .insert_text(LineCol { line: 0, col: 0 }, "Start: ".to_string(), false)
        .unwrap();
    assert_eq!(text(&buffer)[0], "Start: First line");
}

#[test]
fn test_insert_newline_at_end_of_buffer() {
    let mut buffer = new_test_buffer();
    buffer
        .insert_text(
            LineCol { line: 2, col: 0 },
            "New last line".to_string(),
            true,
        )
        .unwrap();
    assert_eq!(text(&buffer).last().unwrap(), "New last line");
}

#[test]
fn test_set_plane_and_buffer_operations() {
    let mut buffer = VecBuffer::default();

    // Start in Normal mode
    assert_eq!(buffer.get_entire_text(), buffer.get_normal_text());

    // Insert text in Normal mode
    buffer
        .insert_text(
            LineCol { line: 0, col: 0 },
            "Normal text".to_string(),
            false,
        )
        .unwrap();
    assert_eq!(text(&buffer), vec!["Normal text"]);

    // Switch to Command mode
    buffer.set_plane(&Modal::Command);
    assert_eq!(buffer.get_entire_text(), &[buffer.get_command_text().to_string()]);

    // Insert text in Command mode
    buffer
        .insert_text(
            LineCol { line: 0, col: 0 },
            "Command text".to_string(),
            false,
        )
        .unwrap();
    assert_eq!(buffer.get_entire_text().to_vec(), vec!["Command text"]);

    // Switch to Normal mode and verify text
    buffer.set_plane(&Modal::Normal);
    assert_eq!(buffer.get_entire_text(), buffer.get_normal_text());
    assert_eq!(text(&buffer), vec!["Normal text"]);
}

#[test]
fn test_buffer_independence() {
    let mut buffer = VecBuffer::default();

    // Insert text in Normal mode
    buffer.set_plane(&Modal::Normal);
    buffer
        .insert_text(
            LineCol { line: 0, col: 0 },
            "Normal text".to_string(),
            false,
        )
        .unwrap();

    // Insert text in Command mode
    buffer.set_plane(&Modal::Command);
    buffer
        .insert_text(
            LineCol { line: 0, col: 0 },
            "Command text".to_string(),
            false,
        )
        .unwrap();

    // Verify that buffers remain independent
    buffer.set_plane(&Modal::Normal);
    assert_eq!(text(&buffer), vec!["Normal text"]);
    buffer.set_plane(&Modal::Command);
    assert_eq!(buffer.get_entire_text().to_vec(), vec!["Command text"]);
}

#[test]
fn test_delete_across_buffers() {
    let mut buffer = VecBuffer::default();

    // Insert and delete in Normal mode
    buffer.set_plane(&Modal::Normal);
    buffer
        .insert_text(
            LineCol { line: 0, col: 0 },
            "Normal text".to_string(),
            false,
        )
        .unwrap();
    buffer
        .delete_selection(LineCol { line: 0, col: 0 }, LineCol { line: 0, col: 6 })
        .unwrap();
    assert_eq!(text(&buffer), vec![" text"]);

    // Insert and delete in Command mode
    buffer.set_plane(&Modal::Command);
    buffer
        .insert_text(
            LineCol { line: 0, col: 0 },
            "Command text".to_string(),
            false,
        )
        .unwrap();
    buffer
        .delete_selection(LineCol { line: 0, col: 0 }, LineCol { line: 0, col: 7 })
        .unwrap();
    assert_eq!(buffer.get_entire_text().to_vec(), vec![" text"]);

    // Verify Normal mode text remains unchanged
    buffer.set_plane(&Modal::Normal);
    assert_eq!(text(&buffer), vec![" text"]);
}

#[test]
fn test_get_partial_buffer_full_range() {
    let buf = new_test_buffer_find();
    let result = buf.get_buffer_window(None, None).unwrap();
    assert_eq!(result, text(&buf));
}

#[test]
fn test_get_partial_buffer_single_line() {
    let buf = new_test_buffer_find();
    let result = buf
        .get_buffer_window(
            Some(LineCol { line: 0, col: 6 }),
            Some(LineCol { line: 0, col: 10 }),
        )
        .unwrap();
    assert_eq!(result, vec!["line"]);
}

#[test]
fn test_get_partial_buffer_multiple_lines() {
    let buf = new_test_buffer_find();
    let result = buf
        .get_buffer_window(
            Some(LineCol { line: 0, col: 6 }),
            Some(LineCol { line: 2, col: 5 }),
        )
        .unwrap();
    assert_eq!(
        result,
        vec!["line with some text", "Second line also has text", "Third"]
    );
}

#[test]
fn test_get_partial_buffer_from_middle_to_end() {
    let buf = new_test_buffer_find();
    let result = buf
        .get_buffer_window(Some(LineCol { line: 1, col: 7 }), None)
        .unwrap();
    assert_eq!(result, vec!["line also has text", "Third line is here too"]);
}

#[test]
fn test_get_partial_buffer_from_start_to_middle() {
    let buf = new_test_buffer_find();
    let result = buf
        .get_buffer_window(None, Some(LineCol { line: 1, col: 7 }))
        .unwrap();
    assert_eq!(result, vec!["First line with some text", "Second "]);
}

#[test]
fn test_get_partial_buffer_invalid_range() {
    let buf = new_test_buffer_find();
    let result = buf.get_buffer_window(
        Some(LineCol { line: 2, col: 0 }),
        Some(LineCol { line: 1, col: 0 }),
    );
    assert!(result.is_err());
}

#[test]
fn test_get_partial_buffer_empty_range() {
    let buf = new_test_buffer_find();
    let result = buf
        .get_buffer_window(
            Some(LineCol { line: 1, col: 5 }),
            Some(LineCol { line: 1, col: 5 }),
        )
        .unwrap();
    assert_eq!(result, vec![""]);
}

#[test]
fn test_get_partial_buffer_last_line() {
    let buf = new_test_buffer_find();
    let result = buf
        .get_buffer_window(Some(LineCol { line: 2, col: 6 }), None)
        .unwrap();
    assert_eq!(result, vec!["line is here too"]);
}
