//! The cursor layer walked through once more, one test per operation, on
//! the same buffers as the main cursor tests.

use orgparse::cursor::{Cursor, LexemeCursor, MetricCursor};
use orgparse::{Char, Line};

#[test]
fn cursor_essentials() {
    let input = "1234567890\nЗдравствуйте";
    let mut cursor = Cursor::new(input.as_bytes(), 0);
    assert_eq!('1', cursor.get_lnext::<Char>().unwrap());
    assert_eq!(1, cursor.pos());
    assert_eq!('2', cursor.get_lnext::<Char>().unwrap());
    assert_eq!(2, cursor.pos());
    assert_eq!(11, cursor.mnext::<Line>().unwrap());
    assert!(cursor.is_boundary::<Line>());
    assert_eq!('З', cursor.get_lnext::<Char>().unwrap());
    assert_eq!(13, cursor.pos());
    cursor.set(12);
    assert!(!cursor.is_boundary::<Char>());
}

#[test]
fn cursor_skip_whitespaces() {
    let rope = " \n\t\rorg-mode ";
    let mut cursor = Cursor::new(rope.as_bytes(), 0);
    cursor.skip_whitespace();
    assert_eq!(cursor.get_lnext::<Char>().unwrap(), 'o');

    let rope2 = "no_whitespace_for_you!";
    cursor = Cursor::new(rope2.as_bytes(), 0);
    cursor.skip_whitespace();
    assert_eq!(cursor.get_lnext::<Char>().unwrap(), 'n');

    let rope3 = " ";
    cursor = Cursor::new(rope3.as_bytes(), 0);
    cursor.skip_whitespace();
    assert_eq!(None, cursor.lnext::<Char>());
}

#[test]
fn cursor_line_begin() {
    let rope = "First line\nSecond line\r\nThird line";
    let mut cursor = Cursor::new(rope.as_bytes(), 13);
    assert_eq!(cursor.goto_line_begin(), 11);
    assert_eq!(cursor.goto_line_begin(), 11);
    assert_eq!(cursor.goto_line_begin(), 11);
    cursor.set(26);
    assert_eq!(cursor.goto_line_begin(), 24);
    assert!(cursor.is_bol());
    assert_eq!(cursor.get_lnext::<Char>().unwrap(), 'T');
    assert_eq!(cursor.goto_line_begin(), 24);
    assert_eq!(cursor.get_lnext::<Char>().unwrap(), 'T');
    cursor.set(3);
    assert_eq!(cursor.goto_line_begin(), 0);
    assert_eq!(cursor.get_lnext::<Char>().unwrap(), 'F');
}

#[test]
fn cursor_prev_line() {
    let rope = "First line\nSecond line\r\nThird line\nFour";
    let mut cursor = Cursor::new(rope.as_bytes(), rope.len());

    assert_eq!(cursor.goto_prev_line(), 24);
    assert_eq!(cursor.get_lnext::<Char>().unwrap(), 'T');

    assert_eq!(cursor.goto_prev_line(), 11);
    assert_eq!(cursor.get_lnext::<Char>().unwrap(), 'S');

    assert_eq!(cursor.goto_prev_line(), 0);
    assert_eq!(cursor.get_lnext::<Char>().unwrap(), 'F');
}

#[test]
fn cursor_line_begin_pos() {
    let rope = "One\nTwo\nThi\nFo4\nFiv\nSix\n7en";
    let mut cursor = Cursor::new(rope.as_bytes(), 13);

    assert_eq!(cursor.line_beginning_position(None), 12);
    assert_eq!(cursor.line_beginning_position(Some(1)), 12);
    assert_eq!(cursor.line_beginning_position(Some(2)), 16);
    assert_eq!(cursor.line_beginning_position(Some(3)), 20);

    assert_eq!(cursor.line_beginning_position(Some(0)), 8);
    assert_eq!(cursor.line_beginning_position(Some(-1)), 4);
    assert_eq!(cursor.line_beginning_position(Some(-2)), 0);
}

#[test]
fn cursor_line_end_pos() {
    let text = "One\nTwo\nThi\nFo4\nFiv\nSix\n7en";
    let mut cursor = Cursor::new(text.as_bytes(), 13);

    assert_eq!(27, text.len());
    assert_eq!(cursor.line_end_position(None), 15);
    assert_eq!(cursor.line_end_position(Some(1)), 15);
    assert_eq!(cursor.line_end_position(Some(2)), 19);
    assert_eq!(cursor.line_end_position(Some(3)), 23);
    assert_eq!(cursor.line_end_position(Some(4)), 26);

    assert_eq!(cursor.line_end_position(Some(0)), 11);
    assert_eq!(cursor.line_end_position(Some(-1)), 7);
    assert_eq!(cursor.line_end_position(Some(-2)), 3);
    assert_eq!(cursor.line_end_position(Some(-3)), 3);
}

#[test]
fn cursor_is_bol() {
    let rope = "One\nTwo\nThi\nFo4\nFiv\nSix\n7en";
    let mut cursor = Cursor::new(rope.as_bytes(), 0);
    assert!(cursor.is_bol());
    cursor.set(2);
    assert!(!cursor.is_bol());
    cursor.set(4);
    assert!(cursor.is_bol());
    cursor.set(rope.len());
    assert!(!cursor.is_bol());

    cursor.mprev::<Line>();
    assert!(cursor.is_bol());
    cursor.mprev::<Line>();
    assert!(cursor.is_bol());
    cursor.mnext::<Line>();
    assert!(cursor.is_bol());
}

#[test]
fn cursor_search_forward() {
    let text = "onetwothreefouronetwothreeonetwothreeonetwothreefouroneabababa";
    let mut cursor = Cursor::new(text.as_bytes(), 0);
    assert_eq!(cursor.search_forward(b"one", None, Some(2)), Some(18));
    assert_eq!(cursor.search_forward(b"one", None, None), Some(29));
    cursor.set(0);
    assert_eq!(cursor.search_forward(b"threeone", Some(10), None), None);
    assert_eq!(cursor.search_forward(b"threeone", Some(100), Some(10)), None);
    assert_eq!(cursor.search_forward(b"two", None, Some(4)), Some(43));
    assert_eq!(cursor.pos(), 43);
    assert_eq!(cursor.search_forward(b"aba", Some(10), None), None);
    assert_eq!(cursor.pos(), 43);
    assert_eq!(cursor.search_forward(b"aba", Some(10000), Some(2)), Some(62));
    cursor.set(0);
    assert_eq!(cursor.search_forward(b"aba", Some(10000), Some(6)), None);
}

#[test]
fn cursor_skip_chars_forward() {
    let text = "  k\t **hello";
    let mut cursor = Cursor::new(text.as_bytes(), 0);
    assert_eq!(cursor.skip_chars_forward(&[' '], None), 2);
    assert_eq!(cursor.pos(), 2);
    assert_eq!(cursor.skip_chars_forward(&[' ', 'k', '\t'], None), 3);
    cursor.set(0);
    assert_eq!(cursor.skip_chars_forward(&['*', ' ', 'k', '\t'], Some(2)), 3);
}
