//! What holds of the lexer for every source: laws of the model that the
//! executable lexer is proved to compute.

use vstd::prelude::*;
use vstd::utf8::encode_utf8;
use crate::classify::{line_terminator, whitespace};
use crate::comment::{block_comment, line_comment};
use crate::decode::lemma_scalars_of_encoded;
use crate::error::ErrorView;
use crate::escape::{escape, lemma_escape_reaches};
use crate::lexer::{lemma_lex_leads_on, lex, token_at, InputElement, LexerView};
use crate::position::{PositionView, SpanView};
use crate::punctuator::Punctuator;
use crate::regex::{class_after, regex_body};
use crate::scan::{lemma_take_reaches, take};
use crate::stream::Stream;
use crate::string::{lemma_string_errors, string_body, unterminated_string};
use crate::template::{part_of, template_body};
use crate::token::{KindView, TemplatePart, TokenView};

verus! {

/// A lexer over the bytes that encode a text reads that text, from line 1
/// and column 1 on, and meets nothing malformed.
pub proof fn lemma_source_of_text(text: Seq<char>)
    ensures
        Stream::of_bytes(encode_utf8(text)) == Stream::of_text(text),
        LexerView::over(encode_utf8(text)).stream == Stream::of_text(text),
{
    lemma_scalars_of_encoded(text);
}

/// The order of positions is transitive.
pub proof fn lemma_le_transitive(a: PositionView, b: PositionView, c: PositionView)
    requires
        a.le(b),
        b.le(c),
    ensures
        a.le(c),
{
}

/// After an error, and at the end of the source, every further request is
/// answered with `None` and changes nothing, whatever the goal symbol.
pub proof fn lemma_end_is_final(s: Stream, goal: InputElement, later: InputElement)
    requires
        !(lex(s, goal).output matches Some(Ok(_))),
    ensures
        lex(lex(s, goal).rest, later).output is None,
        lex(lex(s, goal).rest, later).rest == lex(s, goal).rest,
{
    lemma_lex_leads_on(s, goal);
}

/// The answers to as many requests as `goals` is long, where `goals[i]` is
/// the goal symbol in effect at the request `i`.
pub open spec fn answers(s: Stream, goals: Seq<InputElement>) -> Seq<
    Option<Result<TokenView, ErrorView>>,
>
    decreases goals.len(),
{
    if goals.len() == 0 {
        Seq::empty()
    } else {
        seq![lex(s, goals[0]).output] + answers(lex(s, goals[0]).rest, goals.skip(1))
    }
}

/// There is one answer for each request, and the answers behind the first
/// are those of the lexer that the first request leaves.
pub proof fn lemma_answers_unfold(s: Stream, goals: Seq<InputElement>, i: int)
    requires
        0 <= i < goals.len(),
    ensures
        answers(s, goals).len() == goals.len(),
        i == 0 ==> answers(s, goals)[i] == lex(s, goals[0]).output,
        i > 0 ==> answers(s, goals)[i] == answers(lex(s, goals[0]).rest, goals.skip(1))[i - 1],
    decreases goals.len(),
{
    lemma_answers_len(s, goals);
    lemma_answers_len(lex(s, goals[0]).rest, goals.skip(1));
}

proof fn lemma_answers_len(s: Stream, goals: Seq<InputElement>)
    ensures
        answers(s, goals).len() == goals.len(),
    decreases goals.len(),
{
    if goals.len() > 0 {
        lemma_answers_len(lex(s, goals[0]).rest, goals.skip(1));
    }
}

/// No token of a sequence of requests begins before the place where the
/// first request found the lexer.
pub proof fn lemma_tokens_begin_later(s: Stream, goals: Seq<InputElement>, j: int)
    requires
        0 <= j < goals.len(),
        answers(s, goals)[j] matches Some(Ok(_)),
    ensures
        s.position.le(answers(s, goals)[j]->0->Ok_0.span.start),
    decreases j,
{
    lemma_answers_unfold(s, goals, j);
    lemma_lex_leads_on(s, goals[0]);
    if j > 0 {
        let rest = lex(s, goals[0]).rest;
        lemma_tokens_begin_later(rest, goals.skip(1), j - 1);
        lemma_le_transitive(
            s.position,
            rest.position,
            answers(s, goals)[j]->0->Ok_0.span.start,
        );
    }
}

/// Positions never go back: of two tokens that one source yields, whatever
/// the goal symbols at the requests, the later one does not begin before
/// the earlier one ends.
pub proof fn lemma_spans_in_order(s: Stream, goals: Seq<InputElement>, i: int, j: int)
    requires
        0 <= i < j < goals.len(),
        answers(s, goals)[i] matches Some(Ok(_)),
        answers(s, goals)[j] matches Some(Ok(_)),
    ensures
        answers(s, goals)[i]->0->Ok_0.span.end.le(answers(s, goals)[j]->0->Ok_0.span.start),
    decreases i,
{
    lemma_answers_unfold(s, goals, i);
    lemma_answers_unfold(s, goals, j);
    let rest = lex(s, goals[0]).rest;
    if i == 0 {
        lemma_lex_leads_on(s, goals[0]);
        lemma_tokens_begin_later(rest, goals.skip(1), j - 1);
    } else {
        lemma_spans_in_order(rest, goals.skip(1), i - 1, j - 1);
    }
}

/// A source that is well-formed UTF-8 is never answered with an error of
/// reading it: whatever the requests, no answer is an `Io` error.
pub proof fn lemma_well_formed_source_is_read(s: Stream, goals: Seq<InputElement>, i: int)
    requires
        !s.broken,
        0 <= i < goals.len(),
    ensures
        !(answers(s, goals)[i] matches Some(Err(ErrorView::Io(_)))),
    decreases i,
{
    lemma_answers_unfold(s, goals, i);
    lemma_lex_leads_on(s, goals[0]);
    if i > 0 {
        lemma_well_formed_source_is_read(lex(s, goals[0]).rest, goals.skip(1), i - 1);
    }
}

/// A token never ends before it begins.
pub proof fn lemma_span_is_ordered(s: Stream, goal: InputElement)
    requires
        lex(s, goal).output matches Some(Ok(_)),
    ensures
        lex(s, goal).output->0->Ok_0.span.start.le(lex(s, goal).output->0->Ok_0.span.end),
{
    lemma_lex_leads_on(s, goal);
}

/// A source of nothing but white space yields no token: the first request
/// is answered with the end of the source.
pub proof fn lemma_whitespace_yields_nothing(s: Stream, goal: InputElement)
    requires
        !s.broken,
        forall|i: int| 0 <= i < s.chars.len() ==> whitespace(#[trigger] s.chars[i]),
    ensures
        lex(s, goal).output is None,
    decreases s.chars.len(),
{
    if s.chars.len() > 0 {
        lemma_whitespace_yields_nothing(s.advance(), goal);
    }
}

/// The bytes that encode nothing but white space yield no token.
pub proof fn lemma_whitespace_source_yields_nothing(text: Seq<char>, goal: InputElement)
    requires
        forall|i: int| 0 <= i < text.len() ==> whitespace(#[trigger] text[i]),
    ensures
        LexerView::over(encode_utf8(text)).with_goal(goal).answer() is None,
{
    lemma_scalars_of_encoded(text);
    lemma_whitespace_yields_nothing(Stream::of_bytes(encode_utf8(text)), goal);
}

/// Text that can stand between the quotes `quote` as it is: it holds
/// neither the quote, nor a backslash, nor a line terminator.
pub open spec fn plain(text: Seq<char>, quote: char) -> bool {
    forall|i: int|
        0 <= i < text.len() ==> {
            let c = #[trigger] text[i];
            c != quote && c != '\\' && !line_terminator(c)
        }
}

/// Inside a string, plain text is added to the string's text as it is.
pub proof fn lemma_string_takes_plain_text(
    s: Stream,
    quote: char,
    start: PositionView,
    before: Seq<char>,
    text: Seq<char>,
)
    requires
        plain(text, quote),
        text.len() <= s.chars.len(),
        s.chars.subrange(0, text.len() as int) == text,
    ensures
        string_body(s, quote, start, before) == string_body(
            s.shifted(text.len()),
            quote,
            start,
            before + text,
        ),
    decreases text.len(),
{
    if text.len() == 0 {
        assert(s.chars.skip(0) =~= s.chars);
    } else {
        let c = text[0];
        let t = s.advance();
        let tail = text.skip(1);
        assert(t.chars.subrange(0, tail.len() as int) =~= tail);
        lemma_string_takes_plain_text(t, quote, start, before.push(c), tail);
        assert(before.push(c) + tail =~= before + text);
        assert(t.chars.skip(tail.len() as int) =~= s.chars.skip(text.len() as int));
    }
}

/// A string literal without escapes, from quote to quote: the answer is one
/// string token that holds exactly the text between the quotes and spans
/// both quotes, and where nothing follows the literal it is the only answer.
pub proof fn lemma_plain_string_literal(
    s: Stream,
    quote: char,
    text: Seq<char>,
    goal: InputElement,
    later: InputElement,
)
    requires
        quote == '"' || quote == '\'',
        plain(text, quote),
        !s.broken,
        s.chars == seq![quote] + text + seq![quote],
    ensures
        lex(s, goal).output == Some(
            Ok::<TokenView, ErrorView>(
                TokenView {
                    kind: KindView::StringLiteral(text),
                    span: SpanView {
                        start: s.position,
                        end: PositionView {
                            line: s.position.line,
                            column: s.position.column + text.len() + 2,
                        },
                    },
                },
            ),
        ),
        lex(lex(s, goal).rest, later).output is None,
{
    let t = s.advance();
    assert(t.chars.subrange(0, text.len() as int) =~= text);
    lemma_string_takes_plain_text(t, quote, s.position, Seq::empty(), text);
}

/// A string that the source ends in, with no escapes before the end: the
/// answer is the syntax error for an unterminated string at the opening
/// quote, and it is the only answer.
pub proof fn lemma_unclosed_string_literal(
    s: Stream,
    quote: char,
    text: Seq<char>,
    goal: InputElement,
    later: InputElement,
)
    requires
        quote == '"' || quote == '\'',
        plain(text, quote),
        !s.broken,
        s.chars == seq![quote] + text,
    ensures
        lex(s, goal).output == Some(
            Err::<TokenView, ErrorView>(ErrorView::Syntax(unterminated_string(), s.position)),
        ),
        lex(lex(s, goal).rest, later).output is None,
{
    let t = s.advance();
    assert(t.chars.subrange(0, text.len() as int) =~= text);
    lemma_string_takes_plain_text(t, quote, s.position, Seq::empty(), text);
    lemma_end_is_final(s, goal, later);
}

/// Where a request finds a quote and fails, on a source that is
/// well-formed UTF-8, the error is that of an unterminated string at the
/// place of the quote, or that of an invalid escape sequence.
pub proof fn lemma_string_fails_at_its_quote(s: Stream, goal: InputElement)
    requires
        s.peek() == Some('"') || s.peek() == Some('\''),
        !s.broken,
    ensures
        lex(s, goal).output matches Some(Err(error)) ==> {
            ||| error == ErrorView::Syntax(unterminated_string(), s.position)
            ||| error matches ErrorView::Syntax(message, _) && message
                == "invalid escape sequence"@
        },
{
    lemma_string_errors(s.advance(), s.chars[0], s.position, Seq::empty());
    lemma_lex_leads_on(s, goal);
}

/// A string literal without escapes that is the whole source: the lexer
/// over the bytes of the source answers with one string token, which holds
/// the text between the quotes and spans from line 1, column 1 to behind
/// the closing quote, and then with the end of the source.
pub proof fn lemma_plain_string_source(
    quote: char,
    text: Seq<char>,
    goal: InputElement,
    later: InputElement,
)
    requires
        quote == '"' || quote == '\'',
        plain(text, quote),
    ensures
        ({
            let lexer = LexerView::over(encode_utf8(seq![quote] + text + seq![quote])).with_goal(
                goal,
            );
            &&& lexer.answer() == Some(
                Ok::<TokenView, ErrorView>(
                    TokenView {
                        kind: KindView::StringLiteral(text),
                        span: SpanView {
                            start: PositionView { line: 1, column: 1 },
                            end: PositionView { line: 1, column: text.len() + 3 },
                        },
                    },
                ),
            )
            &&& lexer.after().with_goal(later).answer() is None
        }),
{
    let source = seq![quote] + text + seq![quote];
    lemma_source_of_text(source);
    lemma_plain_string_literal(Stream::of_text(source), quote, text, goal, later);
}

/// A string that the source ends in, with no escapes: the lexer over the
/// bytes of the source answers with the syntax error for an unterminated
/// string at line 1, column 1, where the quote stands, and then with the
/// end of the source.
pub proof fn lemma_unclosed_string_source(
    quote: char,
    text: Seq<char>,
    goal: InputElement,
    later: InputElement,
)
    requires
        quote == '"' || quote == '\'',
        plain(text, quote),
    ensures
        ({
            let lexer = LexerView::over(encode_utf8(seq![quote] + text)).with_goal(goal);
            &&& lexer.answer() == Some(
                Err::<TokenView, ErrorView>(
                    ErrorView::Syntax(unterminated_string(), PositionView { line: 1, column: 1 }),
                ),
            )
            &&& lexer.after().with_goal(later).answer() is None
        }),
{
    let source = seq![quote] + text;
    lemma_source_of_text(source);
    lemma_unclosed_string_literal(Stream::of_text(source), quote, text, goal, later);
}

/// Setting the goal symbol twice to one value is setting it once: the
/// lexer is the same, and so is every answer that follows.
pub proof fn lemma_set_goal_idempotent(lexer: LexerView, goal: InputElement)
    ensures
        lexer.with_goal(goal).with_goal(goal) == lexer.with_goal(goal),
        lexer.with_goal(goal).with_goal(goal).answer() == lexer.with_goal(goal).answer(),
        lexer.with_goal(goal).with_goal(goal).after() == lexer.with_goal(goal).after(),
{
}

/// Setting the goal symbol changes nothing but the goal symbol, and the
/// last value set is the one that holds.
pub proof fn lemma_set_goal_overrides(lexer: LexerView, first: InputElement, second: InputElement)
    ensures
        lexer.with_goal(first).with_goal(second) == lexer.with_goal(second),
        lexer.with_goal(first).stream == lexer.stream,
{
}

/// What a slash is depends on the goal symbol alone. On one and the same
/// stream that begins with a slash which opens no comment, a goal under
/// which a slash divides yields the punctuator `/` or `/=`, and a goal
/// under which it opens a regular expression yields a regular-expression
/// token or an error, and never a punctuator: the two answers differ.
pub proof fn lemma_slash_follows_goal(s: Stream, divides: InputElement, opens: InputElement)
    requires
        s.peek() == Some('/'),
        s.advance().peek() != Some('/'),
        s.advance().peek() != Some('*'),
        !divides.slash_opens_regex(),
        opens.slash_opens_regex(),
    ensures
        lex(s, divides).output matches Some(Ok(token)) && (token.kind == KindView::Punctuator(
            Punctuator::Div,
        ) || token.kind == KindView::Punctuator(Punctuator::AssignDiv)),
        lex(s, opens).output is Some,
        lex(s, opens).output matches Some(Ok(token)) ==> token.kind is RegularExpressionLiteral,
        lex(s, divides).output != lex(s, opens).output,
{
    let t = s.advance();
    lemma_regex_yields_regex(t, s.position, false, Seq::empty());
}

/// What a closing brace is depends on the goal symbol alone. On one and
/// the same stream that begins with a closing brace, a goal under which it
/// is a punctuator yields the punctuator `}`, and a goal under which it
/// resumes a template yields a part of a template or an error: the two
/// answers differ.
pub proof fn lemma_brace_follows_goal(s: Stream, closes: InputElement, resumes: InputElement)
    requires
        s.peek() == Some('}'),
        !closes.brace_resumes_template(),
        resumes.brace_resumes_template(),
    ensures
        lex(s, closes).output matches Some(Ok(token)) && token.kind == KindView::Punctuator(
            Punctuator::CloseBlock,
        ),
        lex(s, resumes).output is Some,
        lex(s, resumes).output matches Some(Ok(token)) ==> (token.kind matches KindView::TemplateLiteral(
            part,
            _,
        ) && (part == TemplatePart::Middle || part == TemplatePart::Tail)),
        lex(s, closes).output != lex(s, resumes).output,
{
    lemma_template_yields_template(s.advance(), s.position, true, Seq::empty());
}

/// The scanner of templates yields no token but a part of a template: a
/// middle or a tail where it resumes one, a whole template or a head otherwise.
pub proof fn lemma_template_yields_template(
    s: Stream,
    start: PositionView,
    resumed: bool,
    text: Seq<char>,
)
    ensures
        template_body(s, start, resumed, text).output matches Ok(token) ==> (
        token.kind matches KindView::TemplateLiteral(part, _) && (part == part_of(resumed, true)
            || part == part_of(resumed, false))),
    decreases s.chars.len(),
{
    lemma_take_reaches(s);
    let (r, t) = take(s);
    if let Ok(c) = r {
        if c == '`' {
        } else if c == '$' && t.peek() == Some('{') {
        } else if c == '\\' {
            lemma_escape_reaches(t);
            let (e, u) = escape(t);
            if let Ok(piece) = e {
                lemma_template_yields_template(
                    u,
                    start,
                    resumed,
                    match piece {
                        Some(x) => text.push(x),
                        None => text,
                    },
                );
            }
        } else if c == '\r' {
            lemma_template_yields_template(t, start, resumed, text.push('\n'));
        } else {
            lemma_template_yields_template(t, start, resumed, text.push(c));
        }
    }
}

/// The goal symbol bears on nothing but a slash and a closing brace: a
/// token that begins with any other character is the same under every goal.
pub proof fn lemma_goal_bears_on_slash_and_brace(
    c: char,
    start: PositionView,
    t: Stream,
    one: InputElement,
    other: InputElement,
)
    requires
        c != '/',
        c != '}',
    ensures
        token_at(c, start, t, one) == token_at(c, start, t, other),
{
}

/// Where what is left to read holds neither a slash nor a closing brace,
/// the next answer is the same under every goal symbol.
pub proof fn lemma_goal_free_answer(s: Stream, one: InputElement, other: InputElement)
    requires
        forall|i: int| 0 <= i < s.chars.len() ==> #[trigger] s.chars[i] != '/' && s.chars[i] != '}',
    ensures
        lex(s, one) == lex(s, other),
    decreases s.chars.len(),
{
    if s.chars.len() > 0 {
        if whitespace(s.chars[0]) {
            lemma_goal_free_answer(s.advance(), one, other);
        }
    }
}

/// A line comment takes its line: the text up to the next line terminator,
/// and that line terminator with it.
pub proof fn lemma_line_comment_takes_its_line(s: Stream, text: Seq<char>)
    requires
        forall|i: int| 0 <= i < text.len() ==> !line_terminator(#[trigger] text[i]),
        text.len() < s.chars.len(),
        s.chars.subrange(0, text.len() as int) == text,
        line_terminator(s.chars[text.len() as int]),
    ensures
        line_comment(s) == s.shifted(text.len()).advance(),
    decreases text.len(),
{
    if text.len() == 0 {
        assert(s.chars.skip(0) =~= s.chars);
    } else {
        assert(s.chars[0] == s.chars.subrange(0, text.len() as int)[0]);
        let t = s.advance();
        let tail = text.skip(1);
        assert(t.chars.subrange(0, tail.len() as int) =~= tail);
        lemma_line_comment_takes_its_line(t, tail);
        assert(t.chars.skip(tail.len() as int) =~= s.chars.skip(text.len() as int));
    }
}

/// A comment yields no token: the answer to a request that finds a line
/// comment is the answer that the source behind the comment gives, and so
/// it is for a block comment that is closed.
pub proof fn lemma_comments_are_dropped(s: Stream, goal: InputElement)
    requires
        s.peek() == Some('/'),
    ensures
        s.advance().peek() == Some('/') ==> lex(s, goal) == lex(
            line_comment(s.advance().advance()),
            goal,
        ),
        s.advance().peek() == Some('*') && block_comment(s.advance().advance(), false).0 is Ok
            ==> lex(s, goal) == lex(block_comment(s.advance().advance(), false).1, goal),
{
}

/// The scanner of regular expressions yields no token but a regular expression.
pub proof fn lemma_regex_yields_regex(
    s: Stream,
    start: PositionView,
    in_class: bool,
    body: Seq<char>,
)
    ensures
        regex_body(s, start, in_class, body).output matches Ok(token)
            ==> token.kind is RegularExpressionLiteral,
    decreases s.chars.len(),
{
    lemma_take_reaches(s);
    let (r, t) = take(s);
    if let Ok(c) = r {
        if line_terminator(c) {
        } else if c == '/' && !in_class {
        } else if c == '\\' {
            lemma_take_reaches(t);
            let (r2, t2) = take(t);
            if let Ok(d) = r2 {
                if !line_terminator(d) {
                    lemma_regex_yields_regex(t2, start, in_class, body.push(c).push(d));
                }
            }
        } else {
            lemma_regex_yields_regex(
                t,
                start,
                class_after(in_class, c),
                body.push(c),
            );
        }
    }
}

} // verus!
