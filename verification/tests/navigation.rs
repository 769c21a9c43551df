//! Cursor and viewport behavior of a single pane.
use sidebyside::filewidget::FileWidget;
use sidebyside::input::{CursorMove, Key, KeyInput, Scrolling};

fn mk_lines(n: usize) -> Vec<String> {
    (0..n).map(|i| format!("line {i} of the file")).collect()
}

fn widget(lines: Vec<String>) -> FileWidget {
    FileWidget::new("file.txt", lines)
}

fn key(c: char) -> KeyInput {
    KeyInput { key: Key::Char(c), ctrl: false, alt: false, shift: false }
}

fn ctrl(c: char) -> KeyInput {
    KeyInput { key: Key::Char(c), ctrl: true, alt: false, shift: false }
}

#[test]
fn new_widget_starts_at_origin() {
    let w = widget(mk_lines(3));
    assert_eq!(w.cursor_row, 0);
    assert_eq!(w.cursor_col, 0);
    assert_eq!(w.scroll_row, 0);
    assert_eq!(w.scroll_col, 0);
    assert!(!w.active);
    assert_eq!(w.filename, "file.txt");
}

#[test]
fn down_moves_one_row_and_clamps_at_bottom() {
    let mut w = widget(mk_lines(3));
    w.move_cursor(CursorMove::Down);
    assert_eq!(w.cursor_row, 1);
    w.move_cursor(CursorMove::Down);
    assert_eq!(w.cursor_row, 2);
    w.move_cursor(CursorMove::Down);
    assert_eq!(w.cursor_row, 2);
}

#[test]
fn up_clamps_at_top() {
    let mut w = widget(mk_lines(3));
    w.move_cursor(CursorMove::Up);
    assert_eq!(w.cursor_row, 0);
    w.move_cursor(CursorMove::Down);
    w.move_cursor(CursorMove::Up);
    assert_eq!(w.cursor_row, 0);
}

#[test]
fn back_at_column_zero_is_a_no_op() {
    let mut w = widget(mk_lines(2));
    w.move_cursor(CursorMove::Back);
    assert_eq!(w.cursor_col, 0);
    assert_eq!(w.cursor_row, 0);
}

#[test]
fn forward_clamps_at_line_end() {
    let mut w = widget(vec!["ab".to_string()]);
    w.move_cursor(CursorMove::Forward);
    assert_eq!(w.cursor_col, 1);
    w.move_cursor(CursorMove::Forward);
    assert_eq!(w.cursor_col, 2);
    w.move_cursor(CursorMove::Forward);
    assert_eq!(w.cursor_col, 2);
}

#[test]
fn head_and_end_jump_within_the_line() {
    let mut w = widget(vec!["hello".to_string()]);
    w.move_cursor(CursorMove::End);
    assert_eq!(w.cursor_col, 5);
    w.move_cursor(CursorMove::Head);
    assert_eq!(w.cursor_col, 0);
}

#[test]
fn top_and_bottom_jump_within_the_buffer() {
    let mut w = widget(mk_lines(10));
    w.move_cursor(CursorMove::Bottom);
    assert_eq!(w.cursor_row, 9);
    w.move_cursor(CursorMove::Top);
    assert_eq!(w.cursor_row, 0);
}

#[test]
fn top_at_row_zero_keeps_cursor() {
    let mut w = widget(mk_lines(4));
    w.move_cursor(CursorMove::Forward);
    let col = w.cursor_col;
    w.move_cursor(CursorMove::Top);
    assert_eq!(w.cursor_row, 0);
    assert_eq!(w.cursor_col, col);
}

#[test]
fn bottom_at_last_row_keeps_cursor() {
    let mut w = widget(mk_lines(4));
    w.move_cursor(CursorMove::Bottom);
    let (row, col) = (w.cursor_row, w.cursor_col);
    w.move_cursor(CursorMove::Bottom);
    assert_eq!(w.cursor_row, row);
    assert_eq!(w.cursor_col, col);
}

#[test]
fn column_clamps_when_moving_to_a_shorter_line() {
    let mut w = widget(vec!["a long line".to_string(), "ab".to_string()]);
    w.move_cursor(CursorMove::End);
    assert_eq!(w.cursor_col, 11);
    w.move_cursor(CursorMove::Down);
    assert_eq!(w.cursor_row, 1);
    assert_eq!(w.cursor_col, 2);
}

#[test]
fn word_forward_stops_at_each_word_start_then_line_end() {
    let mut w = widget(vec!["foo bar  baz".to_string()]);
    w.move_cursor(CursorMove::WordForward);
    assert_eq!(w.cursor_col, 4);
    w.move_cursor(CursorMove::WordForward);
    assert_eq!(w.cursor_col, 9);
    w.move_cursor(CursorMove::WordForward);
    assert_eq!(w.cursor_col, 12);
    w.move_cursor(CursorMove::WordForward);
    assert_eq!(w.cursor_col, 12);
}

#[test]
fn word_back_stops_at_word_starts_then_column_zero() {
    let mut w = widget(vec!["foo bar  baz".to_string()]);
    w.move_cursor(CursorMove::End);
    w.move_cursor(CursorMove::WordBack);
    assert_eq!(w.cursor_col, 9);
    w.move_cursor(CursorMove::WordBack);
    assert_eq!(w.cursor_col, 4);
    w.move_cursor(CursorMove::WordBack);
    assert_eq!(w.cursor_col, 0);
    w.move_cursor(CursorMove::WordBack);
    assert_eq!(w.cursor_col, 0);
}

#[test]
fn word_back_from_inside_a_word_goes_to_its_start() {
    let mut w = widget(vec!["foo bar".to_string()]);
    for _ in 0..6 {
        w.move_cursor(CursorMove::Forward);
    }
    assert_eq!(w.cursor_col, 6);
    w.move_cursor(CursorMove::WordBack);
    assert_eq!(w.cursor_col, 4);
}

#[test]
fn scroll_delta_moves_viewport_and_clamps() {
    let mut w = widget(mk_lines(30));
    w.scroll(Scrolling::Delta(1, 0));
    assert_eq!(w.scroll_row, 1);
    w.scroll(Scrolling::Delta(-1, 0));
    assert_eq!(w.scroll_row, 0);
    w.scroll(Scrolling::Delta(-5, 0));
    assert_eq!(w.scroll_row, 0);
    w.scroll(Scrolling::Delta(1000, 0));
    assert_eq!(w.scroll_row, 29);
}

#[test]
fn half_page_down_advances_by_half_the_viewport_height() {
    let mut w = widget(mk_lines(100));
    w.set_viewport(20, 80);
    let (row, col) = (w.cursor_row, w.cursor_col);
    w.handle_events(ctrl('d'));
    assert_eq!(w.scroll_row, 10);
    assert_eq!(w.cursor_row, row);
    assert_eq!(w.cursor_col, col);
    w.handle_events(ctrl('d'));
    assert_eq!(w.scroll_row, 20);
    w.handle_events(ctrl('u'));
    assert_eq!(w.scroll_row, 10);
}

#[test]
fn page_scroll_moves_by_the_viewport_height() {
    let mut w = widget(mk_lines(100));
    w.set_viewport(20, 80);
    w.scroll(Scrolling::PageDown);
    assert_eq!(w.scroll_row, 20);
    w.scroll(Scrolling::PageUp);
    assert_eq!(w.scroll_row, 0);
}

#[test]
fn scroll_commands_never_move_the_cursor() {
    let mut w = widget(mk_lines(50));
    w.set_viewport(10, 40);
    w.move_cursor(CursorMove::Down);
    w.move_cursor(CursorMove::Forward);
    let (row, col) = (w.cursor_row, w.cursor_col);
    for s in [
        Scrolling::Delta(3, 0),
        Scrolling::HalfPageDown,
        Scrolling::HalfPageUp,
        Scrolling::PageDown,
        Scrolling::PageUp,
    ] {
        w.scroll(s);
        assert_eq!(w.cursor_row, row);
        assert_eq!(w.cursor_col, col);
    }
}

#[test]
fn cursor_moves_keep_the_cursor_visible() {
    let mut w = widget(mk_lines(50));
    w.set_viewport(10, 40);
    for _ in 0..15 {
        w.move_cursor(CursorMove::Down);
    }
    assert_eq!(w.cursor_row, 15);
    assert_eq!(w.scroll_row, 6);
    w.move_cursor(CursorMove::Top);
    assert_eq!(w.scroll_row, 0);
}

#[test]
fn viewport_follows_the_cursor_horizontally() {
    let mut w = widget(vec!["abcdefghijklmnopqrstuvwxyz1234".to_string()]);
    w.set_viewport(5, 10);
    w.move_cursor(CursorMove::End);
    assert_eq!(w.cursor_col, 30);
    assert_eq!(w.scroll_col, 21);
    w.move_cursor(CursorMove::Head);
    assert_eq!(w.scroll_col, 0);
}

#[test]
fn column_deltas_scroll_sideways_and_clamp() {
    let mut w = widget(vec!["abcdefghijklmnopqrstuvwxyz1234".to_string()]);
    w.scroll(Scrolling::Delta(0, 5));
    assert_eq!(w.scroll_col, 5);
    w.scroll(Scrolling::Delta(0, 1000));
    assert_eq!(w.scroll_col, 30);
    w.scroll(Scrolling::Delta(0, -7));
    assert_eq!(w.scroll_col, 23);
    w.scroll(Scrolling::Delta(0, -1000));
    assert_eq!(w.scroll_col, 0);
}

#[test]
fn empty_buffer_treats_every_command_as_a_no_op() {
    let mut w = widget(Vec::new());
    w.set_viewport(20, 80);
    for m in [
        CursorMove::Back,
        CursorMove::Forward,
        CursorMove::Up,
        CursorMove::Down,
        CursorMove::WordForward,
        CursorMove::WordBack,
        CursorMove::Head,
        CursorMove::End,
        CursorMove::Top,
        CursorMove::Bottom,
    ] {
        w.move_cursor(m);
        assert_eq!(w.cursor_row, 0);
        assert_eq!(w.cursor_col, 0);
    }
    for s in [
        Scrolling::Delta(1, 1),
        Scrolling::Delta(-1, -1),
        Scrolling::HalfPageDown,
        Scrolling::HalfPageUp,
        Scrolling::PageDown,
        Scrolling::PageUp,
    ] {
        w.scroll(s);
        assert_eq!(w.scroll_row, 0);
        assert_eq!(w.scroll_col, 0);
    }
    assert_eq!(w.lines.len(), 0);
    assert_eq!(w.filename, "file.txt");
}

#[test]
fn any_command_sequence_keeps_the_cursor_in_range() {
    let mut w = widget(vec![
        "a few words here".to_string(),
        "".to_string(),
        "x".to_string(),
        "\t indented\tline".to_string(),
        "the last line".to_string(),
    ]);
    w.set_viewport(3, 7);
    let moves = [
        CursorMove::Bottom,
        CursorMove::End,
        CursorMove::Forward,
        CursorMove::Up,
        CursorMove::WordBack,
        CursorMove::Down,
        CursorMove::WordForward,
        CursorMove::Top,
        CursorMove::Back,
        CursorMove::Head,
    ];
    for round in 0..5 {
        for (i, m) in moves.iter().enumerate() {
            w.move_cursor(*m);
            if (round + i) % 3 == 0 {
                w.scroll(Scrolling::Delta(1, 2));
            }
            assert!(w.cursor_row < w.lines.len());
            assert!(w.cursor_col <= w.lines[w.cursor_row].chars().count());
            assert!(w.scroll_row < w.lines.len());
        }
    }
}

#[test]
fn visible_rows_cover_the_viewport_and_stop_at_the_end() {
    let mut w = widget(mk_lines(50));
    w.set_viewport(10, 40);
    assert_eq!(w.visible_rows(), (0, 10));
    w.scroll(Scrolling::Delta(45, 0));
    assert_eq!(w.scroll_row, 45);
    assert_eq!(w.visible_rows(), (45, 50));
    let mut empty = widget(Vec::new());
    empty.set_viewport(10, 40);
    assert_eq!(empty.visible_rows(), (0, 0));
}

#[test]
fn unmapped_keys_leave_the_widget_unchanged() {
    let mut w = widget(mk_lines(5));
    w.handle_events(key('z'));
    w.handle_events(KeyInput { key: Key::Other, ctrl: false, alt: false, shift: false });
    assert_eq!(w.cursor_row, 0);
    assert_eq!(w.cursor_col, 0);
    assert_eq!(w.scroll_row, 0);
}
