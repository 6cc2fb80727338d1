//! Tests of the search primitives: character-run skips, literal search and
//! pattern search.

use orgparse::cursor::{Cursor, LexemeCursor};
use orgparse::pattern::Pattern;
use orgparse::Char;

#[test]
fn search_forward() {
    let text = "onetwothreefouronetwothreeonetwothreeonetwothreefouroneabababa";
    let mut cursor = Cursor::new(text.as_bytes(), 0);
    assert_eq!(cursor.search_forward(b"one", None, Some(2)), Some(18));
    assert_eq!(cursor.search_forward(b"one", None, None), Some(29));
    cursor.set(0);
    assert_eq!(cursor.search_forward(b"threeone", Some(10), None), None);
    assert_eq!(cursor.search_forward(b"threeone", Some(100), Some(10)), None);
    assert_eq!(cursor.search_forward(b"two", None, Some(4)), Some(43));
    assert_eq!(cursor.pos(), 43);
    assert_eq!(cursor.search_forward(b"aba", Some(10), None), None);
    assert_eq!(cursor.pos(), 43);
    assert_eq!(cursor.search_forward(b"aba", Some(10000), Some(2)), Some(62));
    cursor.set(0);
    assert_eq!(cursor.search_forward(b"aba", Some(10000), Some(6)), None);
}

#[test]
fn skip_chars_forward() {
    let text = "  k\t **hello";
    let mut cursor = Cursor::new(text.as_bytes(), 0);
    assert_eq!(cursor.skip_chars_forward(&[' '], None), 2);
    assert_eq!(cursor.pos(), 2);
    assert_eq!(cursor.skip_chars_forward(&[' ', 'k', '\t'], None), 3);
    cursor.set(0);
    assert_eq!(cursor.skip_chars_forward(&['*', ' ', 'k', '\t'], Some(2)), 3);
}

#[test]
fn skip_chars_backward() {
    let text = "This is some text 123 \t\n\r";
    let mut cursor = Cursor::new(text.as_bytes(), text.len());
    assert_eq!(8, cursor.skip_chars_backward(&[' ', '\t', '\n', '\r', '1', '2', '3'], None));
    assert_eq!(17, cursor.pos());
    assert_eq!(' ', cursor.get_lnext::<Char>().unwrap());

    cursor.set(text.len());
    assert_eq!(1, cursor.skip_chars_backward(&[' ', '\t', '\n', '\r'], Some(24)));
    assert_eq!('\r', cursor.get_lnext::<Char>().unwrap());

    let txt2 = "Text";
    cursor = Cursor::new(txt2.as_bytes(), txt2.len());
    assert_eq!(0, cursor.skip_chars_backward(&[], None));
}

#[test]
fn re_search_forward() {
    let text = "One\nTwo\nThi\nFo4\nFiv\nSix\n7en";
    let mut cursor = Cursor::new(text.as_bytes(), 0);

    assert_eq!(14, cursor.re_search_forward(Pattern::Digit, None).unwrap().start);
    assert_eq!(15, cursor.pos());
    assert_eq!(None, cursor.re_search_forward(Pattern::Digit, Some(10)));
    assert_eq!(15, cursor.pos());
    assert_eq!(24, cursor.re_search_forward(Pattern::Digit, Some(25)).unwrap().start);
    assert_eq!(25, cursor.pos());
    assert_eq!(None, cursor.re_search_forward(Pattern::Digit, Some(24)));
    assert_eq!(25, cursor.pos());
}

#[test]
fn skip_chars_round_trip() {
    // Forward over a run, then backward bounded by the start: the cursor
    // returns exactly to the original offset with the same count.
    let text = "xaaab";
    let mut cursor = Cursor::new(text.as_bytes(), 1);
    let forward = cursor.skip_chars_forward(&['a'], None);
    assert_eq!(3, forward);
    assert_eq!(4, cursor.pos());
    let backward = cursor.skip_chars_backward(&['a'], Some(1));
    assert_eq!(forward, backward);
    assert_eq!(1, cursor.pos());
}

#[test]
fn skip_chars_round_trip_multibyte() {
    // The same round trip across two-byte encodings.
    let text = "xééy";
    let mut cursor = Cursor::new(text.as_bytes(), 1);
    let forward = cursor.skip_chars_forward(&['é'], None);
    assert_eq!(2, forward);
    assert_eq!(5, cursor.pos());
    let backward = cursor.skip_chars_backward(&['é'], Some(1));
    assert_eq!(forward, backward);
    assert_eq!(1, cursor.pos());
}
