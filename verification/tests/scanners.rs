use lexer::classify::{hex_digit_value, is_decimal_digit, is_identifier_part, is_identifier_start, is_line_terminator};
use lexer::comment::{skip_block_comment, skip_line_comment};
use lexer::cursor::Cursor;
use lexer::escape::read_escape;
use lexer::identifier::{classify_word, read_word, Identifier};
use lexer::keyword::spells;
use lexer::number::NumericLiteral;
use lexer::punctuator::read_punctuator;
use lexer::regex::RegexLiteral;
use lexer::scan::{error_of, read, Fault, Tokenizer};
use lexer::string::StringLiteral;
use lexer::template::TemplateLiteral;
use lexer::{Error, Keyword, Position, Punctuator, Span, TemplatePart, Token, TokenKind};

fn after_first(source: &str) -> (Cursor, Position) {
    let mut cursor = Cursor::new(source.as_bytes());
    let start = cursor.pos();
    cursor.next();
    (cursor, start)
}

#[test]
fn character_classes() {
    for c in ['\n', '\r', '\u{2028}', '\u{2029}'] {
        assert!(is_line_terminator(c));
    }
    for c in [' ', '\t', 'n', '\u{85}', '\u{2027}', '\u{202A}'] {
        assert!(!is_line_terminator(c));
    }
    for c in ['a', 'z', 'A', 'Z', '$', '_', 'm'] {
        assert!(is_identifier_start(c) && is_identifier_part(c));
    }
    for c in ['0', '9', '5'] {
        assert!(!is_identifier_start(c) && is_identifier_part(c) && is_decimal_digit(c));
    }
    for c in ['@', '[', '`', '{', '/', ':', ' ', '\u{e9}', '#'] {
        assert!(!is_identifier_start(c) && !is_identifier_part(c) && !is_decimal_digit(c));
    }
}

#[test]
fn hex_digits_have_their_values() {
    assert_eq!(hex_digit_value('0'), Some(0));
    assert_eq!(hex_digit_value('9'), Some(9));
    assert_eq!(hex_digit_value('a'), Some(10));
    assert_eq!(hex_digit_value('f'), Some(15));
    assert_eq!(hex_digit_value('A'), Some(10));
    assert_eq!(hex_digit_value('F'), Some(15));
    for c in ['g', 'G', '/', ':', '@', '`', ' '] {
        assert_eq!(hex_digit_value(c), None);
    }
}

#[test]
fn read_says_why_no_character_comes() {
    let mut cursor = Cursor::new(b"a");
    assert_eq!(read(&mut cursor), Ok('a'));
    assert_eq!(read(&mut cursor), Err(Fault::End));
    let mut cursor = Cursor::new(b"\xff");
    assert_eq!(read(&mut cursor), Err(Fault::Broken));
    assert_eq!(read(&mut cursor), Err(Fault::End));
}

#[test]
fn faults_become_errors() {
    let start = Position::new(2, 3);
    let slash = Position::new(2, 7);
    assert_eq!(error_of(Fault::End, "unterminated", start, slash), Error::Syntax(String::from("unterminated"), start));
    assert_eq!(error_of(Fault::Broken, "unterminated", start, slash), Error::Io(String::from("stream did not contain valid UTF-8")));
    assert_eq!(error_of(Fault::Invalid, "unterminated", start, slash), Error::Syntax(String::from("invalid escape sequence"), slash));
    assert_eq!(Error::syntax("unterminated", start).message(), "unterminated");
    assert_eq!(Error::invalid_data().message(), "stream did not contain valid UTF-8");
    assert_eq!(Error::unexpected('\'', start), Error::Syntax(String::from("unexpected character '''"), start));
}

#[test]
fn escapes_stand_for_their_characters() {
    for (source, expected) in [
        ("n", Some('\n')),
        ("t", Some('\t')),
        ("r", Some('\r')),
        ("b", Some('\u{8}')),
        ("f", Some('\u{c}')),
        ("v", Some('\u{b}')),
        ("0", Some('\0')),
        ("0a", Some('\0')),
        ("'", Some('\'')),
        ("\"", Some('"')),
        ("\\", Some('\\')),
        ("`", Some('`')),
        ("$", Some('$')),
        ("z", Some('z')),
        ("\u{e9}", Some('\u{e9}')),
        ("\n", None),
        ("\r", None),
        ("\r\n", None),
        ("\u{2028}", None),
        ("\u{2029}", None),
        ("x41", Some('A')),
        ("xfF", Some('\u{ff}')),
        ("x00", Some('\0')),
        ("u0041", Some('A')),
        ("uD7FF", Some('\u{d7ff}')),
        ("uE000", Some('\u{e000}')),
        ("uffff", Some('\u{ffff}')),
        ("u{41}", Some('A')),
        ("u{0}", Some('\0')),
        ("u{000000041}", Some('A')),
        ("u{10FFFF}", Some('\u{10ffff}')),
        ("u{1f600}", Some('\u{1F600}')),
    ] {
        let mut cursor = Cursor::new(source.as_bytes());
        assert_eq!(read_escape(&mut cursor), Ok(expected), "{:?}", source);
        assert_eq!(cursor.peek(), if source == "0a" { Some('a') } else { None }, "{:?}", source);
    }
}

#[test]
fn escapes_that_are_none_are_invalid() {
    for source in ["1", "7", "8", "9", "00", "09", "x", "x4", "x4g", "xg1", "u", "u41", "u004", "u004g", "uD800", "uDFFF", "u{}", "u{g}", "u{110000}", "u{D800}", "u{FFFFFFFFF}", "u{41"] {
        let mut cursor = Cursor::new(source.as_bytes());
        let expected = if source == "x" || source == "x4" || source == "u" || source == "u41" || source == "u004" || source == "u{41" {
            Err(Fault::End)
        } else {
            Err(Fault::Invalid)
        };
        assert_eq!(read_escape(&mut cursor), expected, "{:?}", source);
    }
    let mut cursor = Cursor::new(b"");
    assert_eq!(read_escape(&mut cursor), Err(Fault::End));
    let mut cursor = Cursor::new(b"x4\xff");
    assert_eq!(read_escape(&mut cursor), Err(Fault::Broken));
}

#[test]
fn string_scanner_reads_to_its_own_quote() {
    let (mut cursor, start) = after_first("'a\"b' rest");
    let token = StringLiteral::new('\'').lex(&mut cursor, start).unwrap();
    assert_eq!(token, Token::new(TokenKind::StringLiteral(String::from("a\"b")), Span::new(Position::new(1, 1), Position::new(1, 6))));
    assert_eq!(cursor.peek(), Some(' '));
    assert_eq!(StringLiteral::new('"').terminator, '"');
}

#[test]
fn string_scanner_reports_where_the_literal_began() {
    let mut cursor = Cursor::new(b"abc");
    let start = Position::new(1, 1);
    assert_eq!(
        StringLiteral::new('"').lex(&mut cursor, start),
        Err(Error::Syntax(String::from("unterminated string literal"), start))
    );
    assert_eq!(cursor.pos(), Position::new(1, 4));
}

#[test]
fn template_scanner_yields_each_part() {
    let (mut cursor, start) = after_first("`a${");
    assert_eq!(
        TemplateLiteral::new().lex(&mut cursor, start).unwrap().kind,
        TokenKind::TemplateLiteral(TemplatePart::Head, String::from("a"))
    );
    let (mut cursor, start) = after_first("`a$b{`");
    assert_eq!(
        TemplateLiteral::new().lex(&mut cursor, start).unwrap().kind,
        TokenKind::TemplateLiteral(TemplatePart::Whole, String::from("a$b{"))
    );
    let (mut cursor, start) = after_first("} b ${");
    let token = TemplateLiteral::resumed().lex(&mut cursor, start).unwrap();
    assert_eq!(token.kind, TokenKind::TemplateLiteral(TemplatePart::Middle, String::from(" b ")));
    assert_eq!(token.span.end(), Position::new(1, 7));
    let (mut cursor, start) = after_first("}\\u{41}\r\\\n`x");
    let token = TemplateLiteral::resumed().lex(&mut cursor, start).unwrap();
    assert_eq!(token.kind, TokenKind::TemplateLiteral(TemplatePart::Tail, String::from("A\n")));
    assert_eq!(token.span.end(), Position::new(3, 2));
    assert_eq!(cursor.peek(), Some('x'));
    assert!(!TemplateLiteral::new().resumed);
    assert!(TemplateLiteral::resumed().resumed);
}

#[test]
fn template_scanner_reports_invalid_escapes() {
    let (mut cursor, start) = after_first("`ab\\xg`");
    assert_eq!(
        TemplateLiteral::new().lex(&mut cursor, start),
        Err(Error::Syntax(String::from("invalid escape sequence"), Position::new(1, 4)))
    );
}

#[test]
fn regex_scanner_reads_body_and_flags() {
    let (mut cursor, start) = after_first("/a[/\\]]b\\/c/gim;");
    let token = RegexLiteral::new().lex(&mut cursor, start).unwrap();
    assert_eq!(token.kind, TokenKind::RegularExpressionLiteral(String::from("a[/\\]]b\\/c"), String::from("gim")));
    assert_eq!(token.span.start(), Position::new(1, 1));
    assert_eq!(token.span.end(), Position::new(1, 16));
    assert_eq!(cursor.peek(), Some(';'));
}

#[test]
fn number_scanner_reads_fraction_and_exponent() {
    let (mut cursor, start) = after_first("12.50e-7+");
    let token = NumericLiteral::new('1').lex(&mut cursor, start).unwrap();
    assert_eq!(token.kind, TokenKind::NumericLiteral(String::from("12.50e-7")));
    assert_eq!(token.span.end(), Position::new(1, 9));
    assert_eq!(cursor.peek(), Some('+'));
    let (mut cursor, start) = after_first(".5.5");
    let token = NumericLiteral::new('.').lex(&mut cursor, start).unwrap();
    assert_eq!(token.kind, TokenKind::NumericLiteral(String::from(".5")));
    assert_eq!(cursor.peek(), Some('.'));
    assert_eq!(NumericLiteral::new('7').first, '7');
}

#[test]
fn word_scanner_reads_the_longest_word() {
    let (mut cursor, start) = after_first("while1 x");
    let token = Identifier::new('w').lex(&mut cursor, start).unwrap();
    assert_eq!(token.kind, TokenKind::Identifier(String::from("while1")));
    assert_eq!(token.span.end(), Position::new(1, 7));
    let (mut cursor, start) = after_first("while(x)");
    let token = Identifier::new('w').lex(&mut cursor, start).unwrap();
    assert_eq!(token.kind, TokenKind::Keyword(Keyword::While));
    assert_eq!(cursor.peek(), Some('('));
    let mut cursor = Cursor::new(b"bc9_$ d");
    let mut word = String::from("a");
    read_word(&mut cursor, &mut word);
    assert_eq!(word, "abc9_$");
    assert_eq!(cursor.peek(), Some(' '));
    assert_eq!(Identifier::new('q').first, 'q');
}

#[test]
fn words_are_told_apart() {
    assert_eq!(classify_word(String::from("true")), TokenKind::BooleanLiteral(true));
    assert_eq!(classify_word(String::from("false")), TokenKind::BooleanLiteral(false));
    assert_eq!(classify_word(String::from("null")), TokenKind::NullLiteral);
    assert_eq!(classify_word(String::from("yield")), TokenKind::Keyword(Keyword::Yield));
    assert_eq!(classify_word(String::from("True")), TokenKind::Identifier(String::from("True")));
    assert_eq!(classify_word(String::from("nulls")), TokenKind::Identifier(String::from("nulls")));
    assert!(spells("abc", "abc"));
    assert!(!spells("abc", "abd"));
    assert!(!spells("abc", "ab"));
    assert!(!spells("", "a"));
    assert!(spells("", ""));
    assert!(spells("h\u{e9}", "h\u{e9}"));
}

#[test]
fn comment_readers_stop_behind_the_comment() {
    let mut cursor = Cursor::new(b" a comment\r\nnext");
    skip_line_comment(&mut cursor);
    assert_eq!(cursor.peek(), Some('n'));
    assert_eq!(cursor.pos(), Position::new(2, 1));
    let mut cursor = Cursor::new(b" to the end");
    skip_line_comment(&mut cursor);
    assert_eq!(cursor.peek(), None);
    assert_eq!(cursor.pos(), Position::new(1, 12));
    let mut cursor = Cursor::new(b" a * / ** comment **/next");
    assert_eq!(skip_block_comment(&mut cursor, Position::new(1, 1)), Ok(()));
    assert_eq!(cursor.peek(), Some('n'));
    let mut cursor = Cursor::new(b" a comment *");
    assert_eq!(
        skip_block_comment(&mut cursor, Position::new(4, 2)),
        Err(Error::Syntax(String::from("unterminated comment"), Position::new(4, 2)))
    );
    let mut cursor = Cursor::new(b" a \xff */");
    assert_eq!(
        skip_block_comment(&mut cursor, Position::new(4, 2)),
        Err(Error::Io(String::from("stream did not contain valid UTF-8")))
    );
}

#[test]
fn punctuator_reader_leaves_what_does_not_belong() {
    let mut cursor = Cursor::new(b">>=>");
    assert_eq!(read_punctuator('>', &mut cursor), Some(Punctuator::AssignURightSh));
    assert_eq!(cursor.peek(), Some('>'));
    let mut cursor = Cursor::new(b"=");
    assert_eq!(read_punctuator('a', &mut cursor), None);
    assert_eq!(cursor.peek(), Some('='));
    let mut cursor = Cursor::new(b"&&");
    assert_eq!(read_punctuator('&', &mut cursor), Some(Punctuator::BoolAnd));
    assert_eq!(read_punctuator('&', &mut cursor), Some(Punctuator::BoolAnd));
    assert_eq!(read_punctuator('&', &mut cursor), Some(Punctuator::And));
    assert_eq!(read_punctuator('.', &mut cursor), None);
}

#[test]
fn positions_are_ordered_by_line_then_column() {
    assert!(Position::new(1, 1).le(&Position::new(1, 1)));
    assert!(Position::new(1, 9).le(&Position::new(2, 1)));
    assert!(Position::new(2, 3).le(&Position::new(2, 4)));
    assert!(!Position::new(2, 1).le(&Position::new(1, 9)));
    assert!(!Position::new(2, 4).le(&Position::new(2, 3)));
    let span = Span::new(Position::new(2, 3), Position::new(4, 1));
    assert_eq!(span.start(), Position::new(2, 3));
    assert_eq!(span.end(), Position::new(4, 1));
    let token = Token::new(TokenKind::NullLiteral, span);
    assert_eq!(token.kind(), &TokenKind::NullLiteral);
    assert_eq!(token.span(), span);
}
