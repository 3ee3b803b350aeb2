use lexer::{Error, InputElement, Keyword, Lexer, Position, Punctuator, TemplatePart, Token, TokenKind};

fn kinds(source: &str) -> Vec<TokenKind> {
    let mut lexer = Lexer::new(source.as_bytes());
    let mut out = Vec::new();
    while let Some(answer) = lexer.next() {
        out.push(answer.expect("a token").kind);
    }
    out
}

fn tokens(source: &str) -> Vec<Token> {
    let mut lexer = Lexer::new(source.as_bytes());
    let mut out = Vec::new();
    while let Some(answer) = lexer.next() {
        out.push(answer.expect("a token"));
    }
    out
}

fn first(source: &str, goal: InputElement) -> Option<Result<Token, Error>> {
    let mut lexer = Lexer::new(source.as_bytes());
    lexer.set_goal(goal);
    lexer.next()
}

fn text(s: &str) -> String {
    String::from(s)
}

#[test]
fn check_single_line_comment() {
    let s1 = "var \n//This is a comment\ntrue";
    let mut lexer = Lexer::new(s1.as_bytes());

    assert_eq!(lexer.next().unwrap().unwrap().kind, TokenKind::Keyword(Keyword::Var));
    assert_eq!(lexer.next().unwrap().unwrap().kind, TokenKind::LineTerminator);
    assert_eq!(lexer.next().unwrap().unwrap().kind, TokenKind::BooleanLiteral(true));
    assert!(lexer.next().is_none());
}

#[test]
fn empty_source_gives_nothing() {
    let mut lexer = Lexer::new(b"");
    assert!(lexer.next().is_none());
    assert!(lexer.next().is_none());
    assert_eq!(lexer.pos(), Position::new(1, 1));
}

#[test]
fn whitespace_only_gives_nothing() {
    let source = " \t\u{000B}\u{000C}\u{00A0}\u{FEFF}\u{1680}\u{2000}\u{2005}\u{200A}\u{202F}\u{205F}\u{3000}";
    let mut lexer = Lexer::new(source.as_bytes());
    assert!(lexer.next().is_none());
    assert_eq!(lexer.pos(), Position::new(1, 14));
}

#[test]
fn whitespace_is_the_enumerated_set() {
    for c in [' ', '\t', '\u{000B}', '\u{000C}', '\u{00A0}', '\u{FEFF}', '\u{1680}', '\u{2000}', '\u{200A}', '\u{202F}', '\u{205F}', '\u{3000}'] {
        assert!(Lexer::is_whitespace(c));
    }
    for c in ['\n', '\r', '\u{2028}', '\u{2029}', 'a', '0', '\u{0085}', '\u{200B}', '\u{1FFF}', '\u{180E}'] {
        assert!(!Lexer::is_whitespace(c));
    }
}

#[test]
fn line_terminators_are_tokens() {
    assert_eq!(
        kinds("\n\r\u{2028}\u{2029}"),
        vec![TokenKind::LineTerminator, TokenKind::LineTerminator, TokenKind::LineTerminator, TokenKind::LineTerminator]
    );
}

#[test]
fn carriage_return_line_feed_is_one_terminator() {
    let all = tokens("a\r\nb");
    assert_eq!(all.len(), 3);
    assert_eq!(all[1].kind, TokenKind::LineTerminator);
    assert_eq!(all[1].span.start(), Position::new(1, 2));
    assert_eq!(all[1].span.end(), Position::new(2, 1));
    assert_eq!(all[2].kind, TokenKind::Identifier(text("b")));
    assert_eq!(all[2].span.start(), Position::new(2, 1));
}

#[test]
fn string_literal_without_escapes() {
    let all = tokens("\"hello, world\"");
    assert_eq!(all.len(), 1);
    assert_eq!(all[0].kind, TokenKind::StringLiteral(text("hello, world")));
    assert_eq!(all[0].span.start(), Position::new(1, 1));
    assert_eq!(all[0].span.end(), Position::new(1, 15));
}

#[test]
fn string_literal_in_single_quotes_holds_double_quotes() {
    assert_eq!(kinds("'say \"hi\"'"), vec![TokenKind::StringLiteral(text("say \"hi\""))]);
}

#[test]
fn string_literal_keeps_characters_outside_ascii() {
    assert_eq!(kinds("'h\u{e9}llo \u{4e16}\u{754c} \u{1F600}'"), vec![TokenKind::StringLiteral(text("h\u{e9}llo \u{4e16}\u{754c} \u{1F600}"))]);
}

#[test]
fn string_escapes_are_resolved() {
    assert_eq!(
        kinds(r#""a\n\t\r\b\f\v\0\\\"\'\q""#),
        vec![TokenKind::StringLiteral(text("a\n\t\r\u{8}\u{c}\u{b}\0\\\"'q"))]
    );
    assert_eq!(kinds(r#""\x41B\u{43}\u{1F600}\u{0}""#), vec![TokenKind::StringLiteral(text("AB\u{43}\u{1F600}\0"))]);
    assert_eq!(kinds("\"a\\\nb\\\r\nc\""), vec![TokenKind::StringLiteral(text("abc"))]);
}

#[test]
fn unterminated_string_is_reported_at_its_quote() {
    let mut lexer = Lexer::new(b"  \"abc");
    assert_eq!(
        lexer.next(),
        Some(Err(Error::Syntax(text("unterminated string literal"), Position::new(1, 3))))
    );
    assert!(lexer.next().is_none());
}

#[test]
fn string_across_lines_is_unterminated() {
    let mut lexer = Lexer::new(b"x\n 'abc\ndef'");
    assert_eq!(lexer.next().unwrap().unwrap().kind, TokenKind::Identifier(text("x")));
    assert_eq!(lexer.next().unwrap().unwrap().kind, TokenKind::LineTerminator);
    assert_eq!(
        lexer.next(),
        Some(Err(Error::Syntax(text("unterminated string literal"), Position::new(2, 2))))
    );
    assert!(lexer.next().is_none());
    assert!(lexer.next().is_none());
}

#[test]
fn invalid_escapes_are_reported_at_the_backslash() {
    for source in [r#""ab\1""#, r#""ab\01""#, r#""ab\xZ1""#, r#""ab\u12""#, r#""ab\u{}""#, r#""ab\u{110000}""#, r#""ab\uD800""#, r#""ab\u{12""#] {
        let mut lexer = Lexer::new(source.as_bytes());
        assert_eq!(
            lexer.next(),
            Some(Err(Error::Syntax(text("invalid escape sequence"), Position::new(1, 4)))),
            "{}",
            source
        );
        assert!(lexer.next().is_none());
    }
}

#[test]
fn malformed_bytes_are_an_io_error() {
    let mut lexer = Lexer::new(b"ab \xff cd");
    assert_eq!(lexer.next().unwrap().unwrap().kind, TokenKind::Identifier(text("ab")));
    assert_eq!(lexer.next(), Some(Err(Error::Io(text("stream did not contain valid UTF-8")))));
    assert!(lexer.next().is_none());
    assert_eq!(lexer.pos(), Position::new(1, 4));
}

#[test]
fn malformed_bytes_inside_a_string_are_an_io_error() {
    let mut lexer = Lexer::new(b"'ab\xc3");
    assert_eq!(lexer.next(), Some(Err(Error::Io(text("stream did not contain valid UTF-8")))));
    assert!(lexer.next().is_none());
}

#[test]
fn overlong_and_surrogate_encodings_are_malformed() {
    for source in [&b"\xc0\x80"[..], &b"\xe0\x80\x80"[..], &b"\xed\xa0\x80"[..], &b"\xf4\x90\x80\x80"[..], &b"\x80"[..], &b"\xf8\x88\x80\x80\x80"[..]] {
        let mut lexer = Lexer::new(source);
        assert_eq!(lexer.next(), Some(Err(Error::Io(text("stream did not contain valid UTF-8")))));
        assert!(lexer.next().is_none());
    }
}

#[test]
fn unexpected_character_is_named() {
    let mut lexer = Lexer::new("a #".as_bytes());
    assert_eq!(lexer.next().unwrap().unwrap().kind, TokenKind::Identifier(text("a")));
    assert_eq!(lexer.next(), Some(Err(Error::Syntax(text("unexpected character '#'"), Position::new(1, 3)))));
    assert!(lexer.next().is_none());
    let mut lexer = Lexer::new("\u{e9}".as_bytes());
    assert_eq!(lexer.next(), Some(Err(Error::Syntax(text("unexpected character '\u{e9}'"), Position::new(1, 1)))));
}

#[test]
fn line_comment_is_dropped_with_its_terminator() {
    assert_eq!(kinds("// nothing here"), vec![]);
    assert_eq!(kinds("a // b\nc"), vec![TokenKind::Identifier(text("a")), TokenKind::Identifier(text("c"))]);
    assert_eq!(kinds("a // b\r\n\nc"), vec![TokenKind::Identifier(text("a")), TokenKind::LineTerminator, TokenKind::Identifier(text("c"))]);
    let all = tokens("//a\u{2028}b");
    assert_eq!(all.len(), 1);
    assert_eq!(all[0].span.start(), Position::new(2, 1));
}

#[test]
fn block_comment_is_dropped() {
    assert_eq!(kinds("a /* b \n * c **/ d"), vec![TokenKind::Identifier(text("a")), TokenKind::Identifier(text("d"))]);
    assert_eq!(kinds("/**/"), vec![]);
    assert_eq!(kinds("/*/ */x"), vec![TokenKind::Identifier(text("x"))]);
}

#[test]
fn unterminated_comment_is_reported_at_its_start() {
    let mut lexer = Lexer::new(b"a\n  /* b *");
    assert_eq!(lexer.next().unwrap().unwrap().kind, TokenKind::Identifier(text("a")));
    assert_eq!(lexer.next().unwrap().unwrap().kind, TokenKind::LineTerminator);
    assert_eq!(lexer.next(), Some(Err(Error::Syntax(text("unterminated comment"), Position::new(2, 3)))));
    assert!(lexer.next().is_none());
}

#[test]
fn words_are_classified() {
    assert_eq!(
        kinds("true false null typeof instanceof $x _y1 truth"),
        vec![
            TokenKind::BooleanLiteral(true),
            TokenKind::BooleanLiteral(false),
            TokenKind::NullLiteral,
            TokenKind::Keyword(Keyword::TypeOf),
            TokenKind::Keyword(Keyword::InstanceOf),
            TokenKind::Identifier(text("$x")),
            TokenKind::Identifier(text("_y1")),
            TokenKind::Identifier(text("truth")),
        ]
    );
}

#[test]
fn every_keyword_is_found_by_its_spelling() {
    let all = [
        Keyword::Await, Keyword::Break, Keyword::Case, Keyword::Catch, Keyword::Class, Keyword::Const,
        Keyword::Continue, Keyword::Debugger, Keyword::Default, Keyword::Delete, Keyword::Do, Keyword::Else,
        Keyword::Enum, Keyword::Export, Keyword::Extends, Keyword::Finally, Keyword::For, Keyword::Function,
        Keyword::If, Keyword::Import, Keyword::In, Keyword::InstanceOf, Keyword::Let, Keyword::New,
        Keyword::Return, Keyword::Super, Keyword::Switch, Keyword::This, Keyword::Throw, Keyword::Try,
        Keyword::TypeOf, Keyword::Var, Keyword::Void, Keyword::While, Keyword::With, Keyword::Yield,
    ];
    for word in all {
        assert_eq!(Keyword::from_text(word.as_str()), Some(word));
        assert_eq!(kinds(word.as_str()), vec![TokenKind::Keyword(word)]);
    }
    assert_eq!(Keyword::from_text("vars"), None);
    assert_eq!(Keyword::from_text(""), None);
    assert_eq!(Keyword::from_text("Var"), None);
}

#[test]
fn numbers_keep_their_digits() {
    assert_eq!(
        kinds("0 42 3.14 5. .5 1e10 2E-3 7.e+2 .5e1"),
        vec![
            TokenKind::NumericLiteral(text("0")),
            TokenKind::NumericLiteral(text("42")),
            TokenKind::NumericLiteral(text("3.14")),
            TokenKind::NumericLiteral(text("5.")),
            TokenKind::NumericLiteral(text(".5")),
            TokenKind::NumericLiteral(text("1e10")),
            TokenKind::NumericLiteral(text("2E-3")),
            TokenKind::NumericLiteral(text("7.e+2")),
            TokenKind::NumericLiteral(text(".5e1")),
        ]
    );
    assert_eq!(
        kinds("1..x"),
        vec![TokenKind::NumericLiteral(text("1.")), TokenKind::Punctuator(Punctuator::Dot), TokenKind::Identifier(text("x"))]
    );
}

#[test]
fn invalid_numbers_are_reported_at_their_start() {
    for source in [" 1e", " 1e+", " 3in", " 0x1F", " 1.5e-x", " .5a"] {
        let mut lexer = Lexer::new(source.as_bytes());
        assert_eq!(
            lexer.next(),
            Some(Err(Error::Syntax(text("invalid numeric literal"), Position::new(1, 2)))),
            "{}",
            source
        );
        assert!(lexer.next().is_none());
    }
}

#[test]
fn punctuators_take_the_longest_match() {
    let all = [
        Punctuator::Add, Punctuator::And, Punctuator::Arrow, Punctuator::Assign, Punctuator::AssignAdd,
        Punctuator::AssignAnd, Punctuator::AssignBoolAnd, Punctuator::AssignBoolOr, Punctuator::AssignCoalesce,
        Punctuator::AssignDiv, Punctuator::AssignLeftSh, Punctuator::AssignMod, Punctuator::AssignMul,
        Punctuator::AssignOr, Punctuator::AssignPow, Punctuator::AssignRightSh, Punctuator::AssignSub,
        Punctuator::AssignURightSh, Punctuator::AssignXor, Punctuator::BoolAnd, Punctuator::BoolOr,
        Punctuator::CloseBlock, Punctuator::CloseBracket, Punctuator::CloseParen, Punctuator::Coalesce,
        Punctuator::Colon, Punctuator::Comma, Punctuator::Dec, Punctuator::Div, Punctuator::Dot, Punctuator::Eq,
        Punctuator::Exp, Punctuator::GreaterThan, Punctuator::GreaterThanOrEq, Punctuator::Inc,
        Punctuator::LeftSh, Punctuator::LessThan, Punctuator::LessThanOrEq, Punctuator::Mod, Punctuator::Mul,
        Punctuator::Neg, Punctuator::Not, Punctuator::NotEq, Punctuator::OpenBlock, Punctuator::OpenBracket,
        Punctuator::OpenParen, Punctuator::Or, Punctuator::Question, Punctuator::RightSh, Punctuator::Semicolon,
        Punctuator::Spread, Punctuator::StrictEq, Punctuator::StrictNotEq, Punctuator::Sub, Punctuator::URightSh,
        Punctuator::Xor,
    ];
    for p in all {
        let source = format!("{} x", p.as_str());
        let answer = first(&source, InputElement::Div).unwrap().unwrap();
        assert_eq!(answer.kind, TokenKind::Punctuator(p), "{}", source);
        assert_eq!(answer.span.start(), Position::new(1, 1));
        assert_eq!(answer.span.end(), Position::new(1, 1 + p.as_str().len() as u64));
    }
}

#[test]
fn punctuators_split_where_no_longer_one_is_spelled() {
    assert_eq!(
        kinds("a=>b>>>=c!==d??=e"),
        vec![
            TokenKind::Identifier(text("a")),
            TokenKind::Punctuator(Punctuator::Arrow),
            TokenKind::Identifier(text("b")),
            TokenKind::Punctuator(Punctuator::AssignURightSh),
            TokenKind::Identifier(text("c")),
            TokenKind::Punctuator(Punctuator::StrictNotEq),
            TokenKind::Identifier(text("d")),
            TokenKind::Punctuator(Punctuator::AssignCoalesce),
            TokenKind::Identifier(text("e")),
        ]
    );
    assert_eq!(
        kinds("+++ ==== ?."),
        vec![
            TokenKind::Punctuator(Punctuator::Inc),
            TokenKind::Punctuator(Punctuator::Add),
            TokenKind::Punctuator(Punctuator::StrictEq),
            TokenKind::Punctuator(Punctuator::Assign),
            TokenKind::Punctuator(Punctuator::Question),
            TokenKind::Punctuator(Punctuator::Dot),
        ]
    );
}

#[test]
fn two_dots_are_an_error() {
    let mut lexer = Lexer::new(b"a..b");
    assert_eq!(lexer.next().unwrap().unwrap().kind, TokenKind::Identifier(text("a")));
    assert_eq!(lexer.next(), Some(Err(Error::Syntax(text("unexpected character '.'"), Position::new(1, 2)))));
    assert!(lexer.next().is_none());
}

#[test]
fn default_goal_is_regexp() {
    assert_eq!(InputElement::default(), InputElement::RegExp);
    let lexer = Lexer::new(b"/a/");
    assert_eq!(lexer.goal(), InputElement::RegExp);
    assert_eq!(kinds("/a/"), vec![TokenKind::RegularExpressionLiteral(text("a"), text(""))]);
}

#[test]
fn slash_depends_on_the_goal() {
    let source = "/ab+c/gi.test";
    for goal in [InputElement::Div, InputElement::TemplateTail] {
        let answer = first(source, goal).unwrap().unwrap();
        assert_eq!(answer.kind, TokenKind::Punctuator(Punctuator::Div));
        assert_eq!(answer.span.end(), Position::new(1, 2));
    }
    for goal in [InputElement::RegExp, InputElement::RegExpOrTemplateTail] {
        let answer = first(source, goal).unwrap().unwrap();
        assert_eq!(answer.kind, TokenKind::RegularExpressionLiteral(text("ab+c"), text("gi")));
        assert_eq!(answer.span.end(), Position::new(1, 9));
    }
    assert_eq!(first("/=1/", InputElement::Div).unwrap().unwrap().kind, TokenKind::Punctuator(Punctuator::AssignDiv));
    assert_eq!(
        first("/=1/", InputElement::RegExp).unwrap().unwrap().kind,
        TokenKind::RegularExpressionLiteral(text("=1"), text(""))
    );
}

#[test]
fn comments_do_not_depend_on_the_goal() {
    for goal in [InputElement::Div, InputElement::RegExp, InputElement::RegExpOrTemplateTail, InputElement::TemplateTail] {
        assert_eq!(first("// a\n\n", goal).unwrap().unwrap().kind, TokenKind::LineTerminator);
        assert!(first("// a\n", goal).is_none());
        assert_eq!(first("/* a */ b", goal).unwrap().unwrap().kind, TokenKind::Identifier(text("b")));
    }
}

#[test]
fn regular_expression_body_is_kept_as_written() {
    assert_eq!(
        first(r"/[/]\/\d+/u rest", InputElement::RegExp).unwrap().unwrap().kind,
        TokenKind::RegularExpressionLiteral(text(r"[/]\/\d+"), text("u"))
    );
}

#[test]
fn unterminated_regular_expression_is_reported_at_its_start() {
    for source in [" /abc", " /abc\n/", " /ab\\", " /ab\\\n/", " /[/"] {
        let mut lexer = Lexer::new(source.as_bytes());
        assert_eq!(
            lexer.next(),
            Some(Err(Error::Syntax(text("unterminated regular expression literal"), Position::new(1, 2)))),
            "{}",
            source
        );
        assert!(lexer.next().is_none());
    }
}

#[test]
fn template_without_substitution() {
    let all = tokens("`a\\n$b\r\nc`");
    assert_eq!(all.len(), 1);
    assert_eq!(all[0].kind, TokenKind::TemplateLiteral(TemplatePart::Whole, text("a\n$b\nc")));
    assert_eq!(all[0].span.start(), Position::new(1, 1));
    assert_eq!(all[0].span.end(), Position::new(2, 3));
}

#[test]
fn template_with_substitutions_is_read_under_the_tail_goal() {
    let mut lexer = Lexer::new(b"`a${x}b${y / 2}c` }");
    assert_eq!(lexer.next().unwrap().unwrap().kind, TokenKind::TemplateLiteral(TemplatePart::Head, text("a")));
    lexer.set_goal(InputElement::RegExp);
    assert_eq!(lexer.next().unwrap().unwrap().kind, TokenKind::Identifier(text("x")));
    lexer.set_goal(InputElement::TemplateTail);
    assert_eq!(lexer.next().unwrap().unwrap().kind, TokenKind::TemplateLiteral(TemplatePart::Middle, text("b")));
    lexer.set_goal(InputElement::RegExp);
    assert_eq!(lexer.next().unwrap().unwrap().kind, TokenKind::Identifier(text("y")));
    lexer.set_goal(InputElement::Div);
    assert_eq!(lexer.next().unwrap().unwrap().kind, TokenKind::Punctuator(Punctuator::Div));
    lexer.set_goal(InputElement::RegExp);
    assert_eq!(lexer.next().unwrap().unwrap().kind, TokenKind::NumericLiteral(text("2")));
    lexer.set_goal(InputElement::RegExpOrTemplateTail);
    assert_eq!(lexer.next().unwrap().unwrap().kind, TokenKind::TemplateLiteral(TemplatePart::Tail, text("c")));
    lexer.set_goal(InputElement::Div);
    assert_eq!(lexer.next().unwrap().unwrap().kind, TokenKind::Punctuator(Punctuator::CloseBlock));
    assert!(lexer.next().is_none());
}

#[test]
fn unterminated_template_is_reported_at_its_start() {
    let mut lexer = Lexer::new(b"x `abc\ndef");
    assert_eq!(lexer.next().unwrap().unwrap().kind, TokenKind::Identifier(text("x")));
    assert_eq!(lexer.next(), Some(Err(Error::Syntax(text("unterminated template literal"), Position::new(1, 3)))));
    assert!(lexer.next().is_none());
    let mut lexer = Lexer::new(b"}abc");
    lexer.set_goal(InputElement::TemplateTail);
    assert_eq!(lexer.next(), Some(Err(Error::Syntax(text("unterminated template literal"), Position::new(1, 1)))));
}

#[test]
fn set_goal_twice_is_set_goal_once() {
    let source = "}a` /b/ }";
    for goal in [InputElement::Div, InputElement::RegExp, InputElement::RegExpOrTemplateTail, InputElement::TemplateTail] {
        let mut once = Lexer::new(source.as_bytes());
        once.set_goal(goal);
        let mut twice = Lexer::new(source.as_bytes());
        twice.set_goal(goal);
        twice.set_goal(goal);
        assert_eq!(once.goal(), twice.goal());
        loop {
            let a = once.next();
            let b = twice.next();
            assert_eq!(a, b);
            if a.is_none() {
                break;
            }
        }
    }
}

#[test]
fn set_goal_holds_until_it_is_set_again() {
    let mut lexer = Lexer::new(b"/a/ /b/");
    lexer.set_goal(InputElement::Div);
    assert_eq!(lexer.goal(), InputElement::Div);
    assert_eq!(lexer.next().unwrap().unwrap().kind, TokenKind::Punctuator(Punctuator::Div));
    assert_eq!(lexer.goal(), InputElement::Div);
    assert_eq!(lexer.next().unwrap().unwrap().kind, TokenKind::Identifier(text("a")));
    assert_eq!(lexer.next().unwrap().unwrap().kind, TokenKind::Punctuator(Punctuator::Div));
    lexer.set_goal(InputElement::RegExp);
    assert_eq!(lexer.next().unwrap().unwrap().kind, TokenKind::RegularExpressionLiteral(text("b"), text("")));
}

#[test]
fn spans_never_go_back() {
    let source = "var x = 'a\\\nb';\r\n/* c\n */ `t${ y }u`\n\t.5+z // end\n";
    let mut lexer = Lexer::new(source.as_bytes());
    let mut last = Position::new(1, 1);
    let mut count = 0;
    while let Some(answer) = lexer.next() {
        let token = answer.unwrap();
        assert!(last.le(&token.span.start()), "{:?}", token);
        assert!(token.span.start().le(&token.span.end()), "{:?}", token);
        last = token.span.end();
        count += 1;
        if token.kind == TokenKind::Identifier(text("y")) {
            lexer.set_goal(InputElement::TemplateTail);
        } else {
            lexer.set_goal(InputElement::RegExp);
        }
    }
    assert_eq!(count, 13);
    assert_eq!(lexer.pos(), Position::new(6, 1));
    assert!(last.le(&lexer.pos()));
}

#[test]
fn spans_are_exact() {
    let all = tokens("ab \"c\u{e9}\"\n  12");
    assert_eq!(all.len(), 4);
    assert_eq!((all[0].span.start(), all[0].span.end()), (Position::new(1, 1), Position::new(1, 3)));
    assert_eq!((all[1].span.start(), all[1].span.end()), (Position::new(1, 4), Position::new(1, 8)));
    assert_eq!((all[2].span.start(), all[2].span.end()), (Position::new(1, 8), Position::new(2, 1)));
    assert_eq!((all[3].span.start(), all[3].span.end()), (Position::new(2, 3), Position::new(2, 5)));
}
