use lexer::cursor::Cursor;
use lexer::decode::decode_at;
use lexer::{Error, Position};

#[test]
fn cursor_starts_at_line_one_column_one() {
    let cursor = Cursor::new(b"abc");
    assert_eq!(cursor.pos(), Position::new(1, 1));
    assert_eq!(cursor.pos().line_number(), 1);
    assert_eq!(cursor.pos().column_number(), 1);
}

#[test]
fn cursor_peek_does_not_read() {
    let mut cursor = Cursor::new(b"ab");
    assert_eq!(cursor.peek(), Some('a'));
    assert_eq!(cursor.peek(), Some('a'));
    assert_eq!(cursor.pos(), Position::new(1, 1));
    assert_eq!(cursor.next(), Some(Ok('a')));
    assert_eq!(cursor.peek(), Some('b'));
    assert_eq!(cursor.pos(), Position::new(1, 2));
    assert_eq!(cursor.next(), Some(Ok('b')));
    assert_eq!(cursor.peek(), None);
    assert_eq!(cursor.next(), None);
    assert_eq!(cursor.next(), None);
    assert_eq!(cursor.pos(), Position::new(1, 3));
}

#[test]
fn cursor_counts_characters_not_bytes() {
    let mut cursor = Cursor::new("a\u{e9}\u{4e16}\u{1F600}b".as_bytes());
    assert_eq!(cursor.next(), Some(Ok('a')));
    assert_eq!(cursor.next(), Some(Ok('\u{e9}')));
    assert_eq!(cursor.pos(), Position::new(1, 3));
    assert_eq!(cursor.next(), Some(Ok('\u{4e16}')));
    assert_eq!(cursor.pos(), Position::new(1, 4));
    assert_eq!(cursor.next(), Some(Ok('\u{1F600}')));
    assert_eq!(cursor.pos(), Position::new(1, 5));
    assert_eq!(cursor.next(), Some(Ok('b')));
    assert_eq!(cursor.pos(), Position::new(1, 6));
    assert_eq!(cursor.next(), None);
}

#[test]
fn cursor_moves_to_the_next_line_at_each_terminator() {
    let mut cursor = Cursor::new("a\nb\rc\r\nd\u{2028}e\u{2029}f\n\r\r\n".as_bytes());
    let mut seen = Vec::new();
    while let Some(read) = cursor.next() {
        seen.push((read.unwrap(), cursor.pos()));
    }
    assert_eq!(
        seen,
        vec![
            ('a', Position::new(1, 2)),
            ('\n', Position::new(2, 1)),
            ('b', Position::new(2, 2)),
            ('\r', Position::new(3, 1)),
            ('c', Position::new(3, 2)),
            ('\r', Position::new(4, 1)),
            ('d', Position::new(4, 2)),
            ('\u{2028}', Position::new(5, 1)),
            ('e', Position::new(5, 2)),
            ('\u{2029}', Position::new(6, 1)),
            ('f', Position::new(6, 2)),
            ('\n', Position::new(7, 1)),
            ('\r', Position::new(8, 1)),
            ('\r', Position::new(9, 1)),
        ]
    );
}

#[test]
fn cursor_stops_for_good_at_malformed_bytes() {
    let mut cursor = Cursor::new(b"a\xe2\x82z");
    assert_eq!(cursor.next(), Some(Ok('a')));
    assert_eq!(cursor.peek(), None);
    assert_eq!(cursor.next(), Some(Err(Error::Io(String::from("stream did not contain valid UTF-8")))));
    assert_eq!(cursor.next(), None);
    assert_eq!(cursor.peek(), None);
    assert_eq!(cursor.pos(), Position::new(1, 2));
}

#[test]
fn cursor_reports_a_sequence_that_the_source_ends_in() {
    let mut cursor = Cursor::new(b"\xf0\x9f\x98");
    assert_eq!(cursor.next(), Some(Err(Error::invalid_data())));
    assert_eq!(cursor.next(), None);
}

#[test]
fn cursor_next_if_reads_only_the_expected_character() {
    let mut cursor = Cursor::new(b"=>");
    assert!(!cursor.next_if('>'));
    assert_eq!(cursor.pos(), Position::new(1, 1));
    assert!(cursor.next_if('='));
    assert_eq!(cursor.pos(), Position::new(1, 2));
    assert!(cursor.next_if('>'));
    assert!(!cursor.next_if('>'));
    assert_eq!(cursor.pos(), Position::new(1, 3));
}

#[test]
fn cursor_halt_leaves_nothing_to_read() {
    let mut cursor = Cursor::new(b"ab\ncd");
    assert_eq!(cursor.next(), Some(Ok('a')));
    cursor.halt();
    assert_eq!(cursor.peek(), None);
    assert_eq!(cursor.next(), None);
    assert_eq!(cursor.pos(), Position::new(1, 2));
}

#[test]
fn decode_at_gives_the_character_and_its_width() {
    let bytes = "a\u{e9}\u{4e16}\u{1F600}".as_bytes();
    assert_eq!(decode_at(bytes, 0), Some(('a', 1)));
    assert_eq!(decode_at(bytes, 1), Some(('\u{e9}', 2)));
    assert_eq!(decode_at(bytes, 3), Some(('\u{4e16}', 3)));
    assert_eq!(decode_at(bytes, 6), Some(('\u{1F600}', 4)));
    assert_eq!(decode_at(bytes, 2), None);
    assert_eq!(decode_at(bytes, 7), None);
    assert_eq!(decode_at(b"\x7f", 0), Some(('\u{7f}', 1)));
    assert_eq!(decode_at(b"\xc2\x80", 0), Some(('\u{80}', 2)));
    assert_eq!(decode_at(b"\xdf\xbf", 0), Some(('\u{7ff}', 2)));
    assert_eq!(decode_at(b"\xe0\xa0\x80", 0), Some(('\u{800}', 3)));
    assert_eq!(decode_at(b"\xed\x9f\xbf", 0), Some(('\u{d7ff}', 3)));
    assert_eq!(decode_at(b"\xee\x80\x80", 0), Some(('\u{e000}', 3)));
    assert_eq!(decode_at(b"\xef\xbf\xbf", 0), Some(('\u{ffff}', 3)));
    assert_eq!(decode_at(b"\xf0\x90\x80\x80", 0), Some(('\u{10000}', 4)));
    assert_eq!(decode_at(b"\xf4\x8f\xbf\xbf", 0), Some(('\u{10ffff}', 4)));
}

#[test]
fn decode_at_refuses_what_is_not_well_formed() {
    for bytes in [
        &b"\x80"[..],
        &b"\xbf"[..],
        &b"\xc0\x80"[..],
        &b"\xc1\xbf"[..],
        &b"\xc2"[..],
        &b"\xc2\x41"[..],
        &b"\xe0\x9f\xbf"[..],
        &b"\xe1\x80"[..],
        &b"\xe1\x80\xc0"[..],
        &b"\xed\xa0\x80"[..],
        &b"\xed\xbf\xbf"[..],
        &b"\xf0\x8f\xbf\xbf"[..],
        &b"\xf0\x90\x80"[..],
        &b"\xf4\x90\x80\x80"[..],
        &b"\xf5\x80\x80\x80"[..],
        &b"\xf8\x88\x80\x80\x80"[..],
        &b"\xff"[..],
    ] {
        assert_eq!(decode_at(bytes, 0), None, "{:?}", bytes);
    }
}

#[test]
fn decode_at_agrees_with_the_standard_library() {
    for code in (0u32..0x11_0000).step_by(97).chain([0x7f, 0x80, 0x7ff, 0x800, 0xd7ff, 0xe000, 0xffff, 0x10000, 0x10ffff]) {
        if let Some(c) = char::from_u32(code) {
            let mut buffer = [0u8; 4];
            let encoded = c.encode_utf8(&mut buffer);
            assert_eq!(decode_at(encoded.as_bytes(), 0), Some((c, encoded.len())));
        }
    }
}
