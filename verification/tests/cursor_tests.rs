//! Tests of the cursor layer: metric moves, lexeme decoding and the
//! Emacs-style line operations.

use orgparse::cursor::{Cursor, LexemeCursor, MetricCursor};
use orgparse::pattern::Pattern;
use orgparse::{Char, Line};

#[test]
fn essentials() {
    let input = "1234567890\nЗдравствуйте";
    let mut cursor = Cursor::new(input.as_bytes(), 0);
    assert_eq!('1', cursor.get_lnext::<Char>().unwrap());
    assert_eq!(1, cursor.pos());
    assert_eq!('2', cursor.get_lnext::<Char>().unwrap());
    assert_eq!(2, cursor.pos());
    assert_eq!(11, cursor.mnext::<Line>().unwrap());
    assert!(cursor.is_boundary::<Line>());
    assert_eq!('З', cursor.get_lnext::<Char>().unwrap());
    assert_eq!(13, cursor.pos());
    cursor.set(12);
    assert!(!cursor.is_boundary::<Char>());
}

#[test]
fn count_between() {
    let input = "\n \n \n";
    let cursor = Cursor::new(input.as_bytes(), 0);
    assert_eq!(3, cursor.count_between::<Line>(0, 5));
}

#[test]
fn prev_line() {
    let rope = "First line\nSecond line\r\nThird line\nFour";
    let mut cursor = Cursor::new(rope.as_bytes(), rope.len());

    assert_eq!(cursor.get_lprev::<Line>(), Some(b"Third line\n".to_vec()));
    assert_eq!(cursor.get_lnext::<Char>().unwrap(), 'T');

    assert_eq!(cursor.lprev::<Line>().unwrap().start, 11);
    assert_eq!(cursor.get_lnext::<Char>().unwrap(), 'S');

    assert_eq!(cursor.lprev::<Line>().unwrap().start, 0);
    assert_eq!(cursor.get_lnext::<Char>().unwrap(), 'F');
}

#[test]
fn goto_prev_line_walk() {
    let rope = "First line\nSecond line\r\nThird line\nFour";
    let mut cursor = Cursor::new(rope.as_bytes(), rope.len());

    assert_eq!(cursor.goto_prev_line(), 24);
    assert_eq!(cursor.get_lnext::<Char>().unwrap(), 'T');

    assert_eq!(cursor.goto_prev_line(), 11);
    assert_eq!(cursor.get_lnext::<Char>().unwrap(), 'S');

    assert_eq!(cursor.goto_prev_line(), 0);
    assert_eq!(cursor.get_lnext::<Char>().unwrap(), 'F');
}

#[test]
fn line_begin() {
    let rope = "First line\nSecond line\r\nThird line";
    let mut cursor = Cursor::new(rope.as_bytes(), 13);
    assert_eq!(cursor.goto_line_begin(), 11);
    assert_eq!(cursor.goto_line_begin(), 11);
    assert_eq!(cursor.goto_line_begin(), 11);
    cursor.set(26);
    assert_eq!(cursor.goto_line_begin(), 24);
    assert!(cursor.is_bol());
    assert_eq!(cursor.get_lnext::<Char>().unwrap(), 'T');
    assert_eq!(cursor.goto_line_begin(), 24);
    assert_eq!(cursor.get_lnext::<Char>().unwrap(), 'T');
    cursor.set(3);
    assert_eq!(cursor.goto_line_begin(), 0);
    assert_eq!(cursor.get_lnext::<Char>().unwrap(), 'F');
}

#[test]
fn line_begin_pos() {
    let rope = "One\nTwo\nThi\nFo4\nFiv\nSix\n7en";
    let mut cursor = Cursor::new(rope.as_bytes(), 13);

    assert_eq!(cursor.line_beginning_position(None), 12);
    assert_eq!(cursor.line_beginning_position(Some(1)), 12);
    assert_eq!(cursor.line_beginning_position(Some(2)), 16);
    assert_eq!(cursor.line_beginning_position(Some(3)), 20);

    assert_eq!(cursor.line_beginning_position(Some(0)), 8);
    assert_eq!(cursor.line_beginning_position(Some(-1)), 4);
    assert_eq!(cursor.line_beginning_position(Some(-2)), 0);
    assert_eq!(cursor.pos(), 13);
}

#[test]
fn line_end_pos() {
    let text = "One\nTwo\nThi\nFo4\nFiv\nSix\n7en";
    let mut cursor = Cursor::new(text.as_bytes(), 13);

    assert_eq!(27, text.len());
    assert_eq!(cursor.line_end_position(None), 15);
    assert_eq!(cursor.line_end_position(Some(1)), 15);
    assert_eq!(cursor.line_end_position(Some(2)), 19);
    assert_eq!(cursor.line_end_position(Some(3)), 23);
    assert_eq!(cursor.line_end_position(Some(4)), 26);

    assert_eq!(cursor.line_end_position(Some(0)), 11);
    assert_eq!(cursor.line_end_position(Some(-1)), 7);
    assert_eq!(cursor.line_end_position(Some(-2)), 3);
    assert_eq!(cursor.line_end_position(Some(-3)), 3);
    assert_eq!(cursor.pos(), 13);
}

#[test]
fn is_bol() {
    let rope = "One\nTwo\nThi\nFo4\nFiv\nSix\n7en";
    let mut cursor = Cursor::new(rope.as_bytes(), 0);
    assert!(cursor.is_bol());
    cursor.set(2);
    assert!(!cursor.is_bol());
    cursor.set(4);
    assert!(cursor.is_bol());
    cursor.set(rope.len());
    assert!(!cursor.is_bol());

    cursor.mprev::<Line>();
    assert!(cursor.is_bol());
    cursor.mprev::<Line>();
    assert!(cursor.is_bol());
    cursor.mnext::<Line>();
    assert!(cursor.is_bol());
}

#[test]
fn skip_whitespaces() {
    let rope = " \n\t\rorg-mode ";
    let mut cursor = Cursor::new(rope.as_bytes(), 0);
    cursor.skip_whitespace();
    assert_eq!(cursor.get_lnext::<Char>().unwrap(), 'o');

    let rope2 = "no_whitespace_for_you!";
    cursor = Cursor::new(rope2.as_bytes(), 0);
    cursor.skip_whitespace();
    assert_eq!(cursor.get_lnext::<Char>().unwrap(), 'n');

    // Skipping all the remaining whitespace leaves an exhausted cursor at
    // the end of the buffer: the next character lookup finds nothing.
    let rope3 = " ";
    cursor = Cursor::new(rope3.as_bytes(), 0);
    cursor.skip_whitespace();
    assert_eq!(None, cursor.lnext::<Char>());
}

#[test]
fn looking_at_empty_line_re() {
    let text = "First line\n   \n\nFourth line";
    let mut cursor = Cursor::new(text.as_bytes(), 0);

    assert!(cursor.looking_at(Pattern::EmptyLine).is_none());
    cursor.mnext::<Line>();
    assert!(cursor.looking_at(Pattern::EmptyLine).is_some());
    cursor.mnext::<Line>();
    assert!(cursor.looking_at(Pattern::EmptyLine).is_some());
    cursor.mnext::<Line>();
    assert!(cursor.looking_at(Pattern::EmptyLine).is_none());
}

#[test]
fn looking_at_headline() {
    let rope = "Some text\n**** headline\n";
    let mut cursor = Cursor::new(rope.as_bytes(), 0);
    assert!(cursor.looking_at(Pattern::HeadlineShort).is_none());

    cursor.set(4);
    assert!(cursor.looking_at(Pattern::HeadlineShort).is_none());
    assert_eq!(4, cursor.pos());

    cursor.set(15);
    assert!(cursor.looking_at(Pattern::HeadlineShort).is_none());

    cursor.set(10);
    let m = cursor.looking_at(Pattern::HeadlineShort).unwrap();
    assert_eq!(0, m.start);
    assert_eq!(5, m.end);
    assert_eq!(10, cursor.pos());
}

#[test]
fn on_headline() {
    let rope = "Some text\n**** headline\n";
    let mut cursor = Cursor::new(rope.as_bytes(), 0);

    assert!(!cursor.on_headline());

    cursor.set(4);
    assert!(!cursor.on_headline());
    assert_eq!(4, cursor.pos());

    cursor.set(15);
    assert!(cursor.on_headline());

    cursor.set(10);
    assert!(cursor.on_headline());
    assert_eq!(10, cursor.pos());
}

#[test]
fn next_headline() {
    let string = "Some text\n**** headline\n";
    let mut cursor = Cursor::new(string.as_bytes(), 0);

    assert_eq!(Some(10), cursor.next_headline());
    assert_eq!(10, cursor.pos());

    let string2 = "* First\n** Second\n";
    cursor = Cursor::new(string2.as_bytes(), 0);
    assert_eq!(Some(8), cursor.next_headline());
    assert_eq!(8, cursor.pos());
}

#[test]
fn char_after_peeks() {
    let text = "a→b";
    let mut cursor = Cursor::new(text.as_bytes(), 0);
    assert_eq!(Some('a'), cursor.char_after(0));
    assert_eq!(Some('→'), cursor.char_after(1));
    assert_eq!(None, cursor.char_after(2));
    assert_eq!(Some('b'), cursor.char_after(4));
    assert_eq!(0, cursor.pos());
}

#[test]
fn goto_line_begin_idempotent() {
    let text = "alpha\nbeta gamma\ndelta";
    for start in [0, 3, 6, 9, 17, 22] {
        let mut cursor = Cursor::new(text.as_bytes(), start);
        let first = cursor.goto_line_begin();
        let second = cursor.goto_line_begin();
        assert_eq!(first, second);
    }
}

#[test]
fn decoding_rejects_ill_formed_bytes() {
    // A truncated multi-byte head: no character can be decoded, and the
    // cursor stays put.
    let bytes: [u8; 2] = [0xe0, 0x61];
    let mut cursor = Cursor::new(&bytes, 0);
    assert_eq!(None, cursor.get_lnext::<Char>());
    assert_eq!(0, cursor.pos());
    // The raw metric still steps by the advertised width.
    assert_eq!(Some(3), cursor.mnext::<Char>());
}

#[test]
fn empty_buffer_navigation() {
    let mut cursor = Cursor::new(b"", 0);
    assert_eq!(None, cursor.get_lnext::<Char>());
    assert_eq!(None, cursor.mnext::<Line>());
    assert_eq!(None, cursor.mprev::<Line>());
    assert!(cursor.is_bol());
    assert_eq!(0, cursor.goto_line_begin());
    assert_eq!(0, cursor.skip_whitespace());
    assert_eq!(0, cursor.line_beginning_position(None));
    assert_eq!(0, cursor.line_end_position(None));
}

#[test]
fn metric_at_or_moves() {
    let text = "ab\ncd";
    let mut cursor = Cursor::new(text.as_bytes(), 3);
    // Already on a line boundary: no movement.
    assert_eq!(Some(3), cursor.at_or_mprev::<Line>());
    assert_eq!(3, cursor.pos());
    cursor.set(4);
    assert_eq!(Some(3), cursor.at_or_mprev::<Line>());
    assert_eq!(3, cursor.pos());
    cursor.set(1);
    assert_eq!(Some(3), cursor.at_or_mnext::<Line>());
    assert_eq!(3, cursor.pos());
}

#[test]
fn count_between_chars() {
    let text = "aЗb";
    let cursor = Cursor::new(text.as_bytes(), 0);
    // Boundaries at 0, 1, 3 and the end of the buffer.
    assert_eq!(4, cursor.count_between::<Char>(0, 4));
}
