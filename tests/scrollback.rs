use record::scrollback::{ScrollbackBuffer, DEFAULT_SCROLLBACK_LINES, MAX_LINE_LENGTH};

#[test]
fn test_push_simple_text() {
    let mut buf = ScrollbackBuffer::new();
    buf.push(b"hello world");
    assert_eq!(buf.get_lines(None), "hello world");
}

#[test]
fn test_push_with_newlines() {
    let mut buf = ScrollbackBuffer::new();
    buf.push(b"line1\nline2\nline3");
    assert_eq!(buf.get_lines(None), "line1\nline2\nline3");
}

#[test]
fn test_get_last_n_lines() {
    let mut buf = ScrollbackBuffer::new();
    buf.push(b"line1\nline2\nline3\nline4\n");
    assert_eq!(buf.get_lines(Some(2)), "line3\nline4");
}

#[test]
fn test_cursor_position() {
    let mut buf = ScrollbackBuffer::new();
    buf.push(b"hello\nworld");
    let (row, col) = buf.cursor_position();
    assert_eq!(row, 1);
    assert_eq!(col, 5);
}

#[test]
fn test_clear() {
    let mut buf = ScrollbackBuffer::new();
    buf.push(b"some content\n");
    buf.clear();
    assert_eq!(buf.get_lines(None), "");
    assert_eq!(buf.cursor_position(), (0, 0));
}

#[test]
fn simple_text_cursor_is_end_of_line() {
    let mut buf = ScrollbackBuffer::new();
    buf.push(b"hello world");
    assert_eq!(buf.cursor_position(), (0, 11));
}

#[test]
fn empty_buffer_renders_nothing() {
    let buf = ScrollbackBuffer::new();
    assert_eq!(buf.get_lines(None), "");
    assert_eq!(buf.get_lines(Some(5)), "");
    assert_eq!(buf.cursor_position(), (0, 0));
}

#[test]
fn count_larger_than_history_gives_all_lines() {
    let mut buf = ScrollbackBuffer::new();
    buf.push(b"a\nb\nc");
    assert_eq!(buf.get_lines(Some(10)), "a\nb\nc");
}

#[test]
fn count_zero_gives_only_current_line() {
    let mut buf = ScrollbackBuffer::new();
    buf.push(b"a\nb\nc");
    assert_eq!(buf.get_lines(Some(0)), "c");
    buf.push(b"\n");
    assert_eq!(buf.get_lines(Some(0)), "");
}

#[test]
fn current_line_follows_empty_body_without_newline() {
    let mut buf = ScrollbackBuffer::new();
    buf.push(b"\nx");
    assert_eq!(buf.get_lines(None), "x");
    assert_eq!(buf.cursor_position(), (1, 1));
}

#[test]
fn carriage_return_resets_column_only() {
    let mut buf = ScrollbackBuffer::new();
    buf.push(b"abc\r");
    assert_eq!(buf.cursor_position(), (0, 0));
    buf.push(b"d");
    assert_eq!(buf.get_lines(None), "abcd");
    assert_eq!(buf.cursor_position(), (0, 1));
}

#[test]
fn backspace_deletes_before_cursor() {
    let mut buf = ScrollbackBuffer::new();
    buf.push(b"abc\x08");
    assert_eq!(buf.get_lines(None), "ab");
    assert_eq!(buf.cursor_position(), (0, 2));
    buf.push(b"\x08\x08\x08");
    assert_eq!(buf.get_lines(None), "");
    assert_eq!(buf.cursor_position(), (0, 0));
}

#[test]
fn backspace_after_carriage_return_removes_at_column() {
    let mut buf = ScrollbackBuffer::new();
    buf.push(b"abc\rxy\x08");
    assert_eq!(buf.get_lines(None), "acxy");
    assert_eq!(buf.cursor_position(), (0, 1));
}

#[test]
fn escape_and_non_ascii_bytes_are_dropped() {
    let mut buf = ScrollbackBuffer::new();
    buf.push(b"\x1b[31mred\x1b[0m");
    assert_eq!(buf.get_lines(None), "[31mred[0m");
    let mut buf = ScrollbackBuffer::new();
    buf.push("h\u{e9}!\t\x07".as_bytes());
    assert_eq!(buf.get_lines(None), "h!");
    assert_eq!(buf.cursor_position(), (0, 2));
}

#[test]
fn long_line_is_capped() {
    let mut buf = ScrollbackBuffer::new();
    let data = vec![b'x'; MAX_LINE_LENGTH + 10];
    buf.push(&data);
    assert_eq!(buf.get_lines(None).len(), MAX_LINE_LENGTH);
    assert_eq!(buf.cursor_position(), (0, MAX_LINE_LENGTH));
}

#[test]
fn line_cap_evicts_oldest_lines() {
    let mut buf = ScrollbackBuffer::new();
    for i in 0..(DEFAULT_SCROLLBACK_LINES + 5) {
        buf.push(format!("{}\n", i).as_bytes());
    }
    let (row, col) = buf.cursor_position();
    assert_eq!(row, DEFAULT_SCROLLBACK_LINES);
    assert_eq!(col, 0);
    let all = buf.get_lines(None);
    assert_eq!(all.lines().count(), DEFAULT_SCROLLBACK_LINES);
    assert!(all.starts_with("5\n"));
    assert_eq!(buf.get_lines(Some(2)), format!("{}\n{}", DEFAULT_SCROLLBACK_LINES + 3, DEFAULT_SCROLLBACK_LINES + 4));
}

#[test]
fn pushes_split_anywhere_give_same_state() {
    let mut whole = ScrollbackBuffer::new();
    whole.push(b"ab\ncd\x08e\rf\n");
    let mut parts = ScrollbackBuffer::new();
    parts.push(b"ab");
    parts.push(b"\ncd\x08");
    parts.push(b"e\rf\n");
    assert_eq!(whole.get_lines(None), parts.get_lines(None));
    assert_eq!(whole.cursor_position(), parts.cursor_position());
    assert_eq!(whole.get_lines(None), "ab\ncef");
}
