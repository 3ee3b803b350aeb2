//! Punctuators: the operators and delimiters of the language, and how one is
//! read from the cursor by taking the longest that the source spells.

use vstd::prelude::*;
use crate::classify::line_terminator;
use crate::cursor::Cursor;
use crate::stream::Stream;

verus! {

/// An operator or delimiter.
#[derive(Clone, Copy, Debug, PartialEq, Eq, Structural)]
pub enum Punctuator {
    /// `+`
    Add,
    /// `&`
    And,
    /// `=>`
    Arrow,
    /// `=`
    Assign,
    /// `+=`
    AssignAdd,
    /// `&=`
    AssignAnd,
    /// `&&=`
    AssignBoolAnd,
    /// `||=`
    AssignBoolOr,
    /// `??=`
    AssignCoalesce,
    /// `/=`
    AssignDiv,
    /// `<<=`
    AssignLeftSh,
    /// `%=`
    AssignMod,
    /// `*=`
    AssignMul,
    /// `|=`
    AssignOr,
    /// `**=`
    AssignPow,
    /// `>>=`
    AssignRightSh,
    /// `-=`
    AssignSub,
    /// `>>>=`
    AssignURightSh,
    /// `^=`
    AssignXor,
    /// `&&`
    BoolAnd,
    /// `||`
    BoolOr,
    /// `}`
    CloseBlock,
    /// `]`
    CloseBracket,
    /// `)`
    CloseParen,
    /// `??`
    Coalesce,
    /// `:`
    Colon,
    /// `,`
    Comma,
    /// `--`
    Dec,
    /// `/`
    Div,
    /// `.`
    Dot,
    /// `==`
    Eq,
    /// `**`
    Exp,
    /// `>`
    GreaterThan,
    /// `>=`
    GreaterThanOrEq,
    /// `++`
    Inc,
    /// `<<`
    LeftSh,
    /// `<`
    LessThan,
    /// `<=`
    LessThanOrEq,
    /// `%`
    Mod,
    /// `*`
    Mul,
    /// `~`
    Neg,
    /// `!`
    Not,
    /// `!=`
    NotEq,
    /// `{`
    OpenBlock,
    /// `[`
    OpenBracket,
    /// `(`
    OpenParen,
    /// `|`
    Or,
    /// `?`
    Question,
    /// `>>`
    RightSh,
    /// `;`
    Semicolon,
    /// `...`
    Spread,
    /// `===`
    StrictEq,
    /// `!==`
    StrictNotEq,
    /// `-`
    Sub,
    /// `>>>`
    URightSh,
    /// `^`
    Xor,
}

impl Punctuator {
    /// How the punctuator is spelled in the source.
    pub open spec fn text(self) -> Seq<char> {
        match self {
            Punctuator::Add => "+"@,
            Punctuator::And => "&"@,
            Punctuator::Arrow => "=>"@,
            Punctuator::Assign => "="@,
            Punctuator::AssignAdd => "+="@,
            Punctuator::AssignAnd => "&="@,
            Punctuator::AssignBoolAnd => "&&="@,
            Punctuator::AssignBoolOr => "||="@,
            Punctuator::AssignCoalesce => "??="@,
            Punctuator::AssignDiv => "/="@,
            Punctuator::AssignLeftSh => "<<="@,
            Punctuator::AssignMod => "%="@,
            Punctuator::AssignMul => "*="@,
            Punctuator::AssignOr => "|="@,
            Punctuator::AssignPow => "**="@,
            Punctuator::AssignRightSh => ">>="@,
            Punctuator::AssignSub => "-="@,
            Punctuator::AssignURightSh => ">>>="@,
            Punctuator::AssignXor => "^="@,
            Punctuator::BoolAnd => "&&"@,
            Punctuator::BoolOr => "||"@,
            Punctuator::CloseBlock => "}"@,
            Punctuator::CloseBracket => "]"@,
            Punctuator::CloseParen => ")"@,
            Punctuator::Coalesce => "??"@,
            Punctuator::Colon => ":"@,
            Punctuator::Comma => ","@,
            Punctuator::Dec => "--"@,
            Punctuator::Div => "/"@,
            Punctuator::Dot => "."@,
            Punctuator::Eq => "=="@,
            Punctuator::Exp => "**"@,
            Punctuator::GreaterThan => ">"@,
            Punctuator::GreaterThanOrEq => ">="@,
            Punctuator::Inc => "++"@,
            Punctuator::LeftSh => "<<"@,
            Punctuator::LessThan => "<"@,
            Punctuator::LessThanOrEq => "<="@,
            Punctuator::Mod => "%"@,
            Punctuator::Mul => "*"@,
            Punctuator::Neg => "~"@,
            Punctuator::Not => "!"@,
            Punctuator::NotEq => "!="@,
            Punctuator::OpenBlock => "{"@,
            Punctuator::OpenBracket => "["@,
            Punctuator::OpenParen => "("@,
            Punctuator::Or => "|"@,
            Punctuator::Question => "?"@,
            Punctuator::RightSh => ">>"@,
            Punctuator::Semicolon => ";"@,
            Punctuator::Spread => "..."@,
            Punctuator::StrictEq => "==="@,
            Punctuator::StrictNotEq => "!=="@,
            Punctuator::Sub => "-"@,
            Punctuator::URightSh => ">>>"@,
            Punctuator::Xor => "^"@,
        }
    }

    /// How the punctuator is spelled in the source.
    pub fn as_str(&self) -> (s: &'static str)
        ensures
            s@ == self.text(),
    {
        match self {
            Punctuator::Add => "+",
            Punctuator::And => "&",
            Punctuator::Arrow => "=>",
            Punctuator::Assign => "=",
            Punctuator::AssignAdd => "+=",
            Punctuator::AssignAnd => "&=",
            Punctuator::AssignBoolAnd => "&&=",
            Punctuator::AssignBoolOr => "||=",
            Punctuator::AssignCoalesce => "??=",
            Punctuator::AssignDiv => "/=",
            Punctuator::AssignLeftSh => "<<=",
            Punctuator::AssignMod => "%=",
            Punctuator::AssignMul => "*=",
            Punctuator::AssignOr => "|=",
            Punctuator::AssignPow => "**=",
            Punctuator::AssignRightSh => ">>=",
            Punctuator::AssignSub => "-=",
            Punctuator::AssignURightSh => ">>>=",
            Punctuator::AssignXor => "^=",
            Punctuator::BoolAnd => "&&",
            Punctuator::BoolOr => "||",
            Punctuator::CloseBlock => "}",
            Punctuator::CloseBracket => "]",
            Punctuator::CloseParen => ")",
            Punctuator::Coalesce => "??",
            Punctuator::Colon => ":",
            Punctuator::Comma => ",",
            Punctuator::Dec => "--",
            Punctuator::Div => "/",
            Punctuator::Dot => ".",
            Punctuator::Eq => "==",
            Punctuator::Exp => "**",
            Punctuator::GreaterThan => ">",
            Punctuator::GreaterThanOrEq => ">=",
            Punctuator::Inc => "++",
            Punctuator::LeftSh => "<<",
            Punctuator::LessThan => "<",
            Punctuator::LessThanOrEq => "<=",
            Punctuator::Mod => "%",
            Punctuator::Mul => "*",
            Punctuator::Neg => "~",
            Punctuator::Not => "!",
            Punctuator::NotEq => "!=",
            Punctuator::OpenBlock => "{",
            Punctuator::OpenBracket => "[",
            Punctuator::OpenParen => "(",
            Punctuator::Or => "|",
            Punctuator::Question => "?",
            Punctuator::RightSh => ">>",
            Punctuator::Semicolon => ";",
            Punctuator::Spread => "...",
            Punctuator::StrictEq => "===",
            Punctuator::StrictNotEq => "!==",
            Punctuator::Sub => "-",
            Punctuator::URightSh => ">>>",
            Punctuator::Xor => "^",
        }
    }
}

/// The choice between two punctuators by the next character: `longer` and
/// the stream behind `c` where `c` is next, `shorter` and the stream as it is
/// where it is not.
pub open spec fn either(s: Stream, c: char, longer: Punctuator, shorter: Punctuator) -> (
    Punctuator,
    Stream,
) {
    if s.peek() == Some(c) {
        (longer, s.advance())
    } else {
        (shorter, s)
    }
}

/// The choice among an operator, its doubled form and the assignments of
/// both: with `c` the operator's character, `cc=`, `cc`, `c=` or `c`.
pub open spec fn doubled(
    s: Stream,
    c: char,
    twice_assign: Punctuator,
    twice: Punctuator,
    assign: Punctuator,
    once: Punctuator,
) -> (Punctuator, Stream) {
    if s.peek() == Some(c) {
        either(s.advance(), '=', twice_assign, twice)
    } else {
        either(s, '=', assign, once)
    }
}

/// The punctuator that begins with `c` where `s` is the stream behind `c`,
/// and the stream behind the punctuator; `None` where `c` begins none. The
/// longest punctuator that the source spells is taken. A dot is not handled
/// here: it may begin a number.
pub open spec fn punctuator(c: char, s: Stream) -> Option<(Punctuator, Stream)> {
    if c == '{' {
        Some((Punctuator::OpenBlock, s))
    } else if c == '}' {
        Some((Punctuator::CloseBlock, s))
    } else if c == '(' {
        Some((Punctuator::OpenParen, s))
    } else if c == ')' {
        Some((Punctuator::CloseParen, s))
    } else if c == '[' {
        Some((Punctuator::OpenBracket, s))
    } else if c == ']' {
        Some((Punctuator::CloseBracket, s))
    } else if c == ';' {
        Some((Punctuator::Semicolon, s))
    } else if c == ',' {
        Some((Punctuator::Comma, s))
    } else if c == ':' {
        Some((Punctuator::Colon, s))
    } else if c == '~' {
        Some((Punctuator::Neg, s))
    } else if c == '<' {
        Some(
            doubled(
                s,
                '<',
                Punctuator::AssignLeftSh,
                Punctuator::LeftSh,
                Punctuator::LessThanOrEq,
                Punctuator::LessThan,
            ),
        )
    } else if c == '>' {
        if s.peek() == Some('>') && s.advance().peek() == Some('>') {
            Some(
                either(
                    s.advance().advance(),
                    '=',
                    Punctuator::AssignURightSh,
                    Punctuator::URightSh,
                ),
            )
        } else {
            Some(
                doubled(
                    s,
                    '>',
                    Punctuator::AssignRightSh,
                    Punctuator::RightSh,
                    Punctuator::GreaterThanOrEq,
                    Punctuator::GreaterThan,
                ),
            )
        }
    } else if c == '=' {
        if s.peek() == Some('=') {
            Some(either(s.advance(), '=', Punctuator::StrictEq, Punctuator::Eq))
        } else {
            Some(either(s, '>', Punctuator::Arrow, Punctuator::Assign))
        }
    } else if c == '!' {
        if s.peek() == Some('=') {
            Some(either(s.advance(), '=', Punctuator::StrictNotEq, Punctuator::NotEq))
        } else {
            Some((Punctuator::Not, s))
        }
    } else if c == '+' {
        if s.peek() == Some('+') {
            Some((Punctuator::Inc, s.advance()))
        } else {
            Some(either(s, '=', Punctuator::AssignAdd, Punctuator::Add))
        }
    } else if c == '-' {
        if s.peek() == Some('-') {
            Some((Punctuator::Dec, s.advance()))
        } else {
            Some(either(s, '=', Punctuator::AssignSub, Punctuator::Sub))
        }
    } else if c == '*' {
        Some(
            doubled(
                s,
                '*',
                Punctuator::AssignPow,
                Punctuator::Exp,
                Punctuator::AssignMul,
                Punctuator::Mul,
            ),
        )
    } else if c == '%' {
        Some(either(s, '=', Punctuator::AssignMod, Punctuator::Mod))
    } else if c == '&' {
        Some(
            doubled(
                s,
                '&',
                Punctuator::AssignBoolAnd,
                Punctuator::BoolAnd,
                Punctuator::AssignAnd,
                Punctuator::And,
            ),
        )
    } else if c == '|' {
        Some(
            doubled(
                s,
                '|',
                Punctuator::AssignBoolOr,
                Punctuator::BoolOr,
                Punctuator::AssignOr,
                Punctuator::Or,
            ),
        )
    } else if c == '^' {
        Some(either(s, '=', Punctuator::AssignXor, Punctuator::Xor))
    } else if c == '?' {
        if s.peek() == Some('?') {
            Some(either(s.advance(), '=', Punctuator::AssignCoalesce, Punctuator::Coalesce))
        } else {
            Some((Punctuator::Question, s))
        }
    } else if c == '/' {
        Some(either(s, '=', Punctuator::AssignDiv, Punctuator::Div))
    } else {
        None
    }
}

/// How each punctuator is spelled, character by character.
proof fn lemma_spellings()
    ensures
        forall|p: Punctuator| 1 <= #[trigger] p.text().len() <= 4,
        Punctuator::Add.text().len() == 1 && Punctuator::Add.text()[0] == '+',
        Punctuator::And.text().len() == 1 && Punctuator::And.text()[0] == '&',
        Punctuator::Arrow.text().len() == 2 && Punctuator::Arrow.text()[0] == '=' && Punctuator::Arrow.text()[1] == '>',
        Punctuator::Assign.text().len() == 1 && Punctuator::Assign.text()[0] == '=',
        Punctuator::AssignAdd.text().len() == 2 && Punctuator::AssignAdd.text()[0] == '+' && Punctuator::AssignAdd.text()[1] == '=',
        Punctuator::AssignAnd.text().len() == 2 && Punctuator::AssignAnd.text()[0] == '&' && Punctuator::AssignAnd.text()[1] == '=',
        Punctuator::AssignBoolAnd.text().len() == 3 && Punctuator::AssignBoolAnd.text()[0] == '&' && Punctuator::AssignBoolAnd.text()[1] == '&' && Punctuator::AssignBoolAnd.text()[2] == '=',
        Punctuator::AssignBoolOr.text().len() == 3 && Punctuator::AssignBoolOr.text()[0] == '|' && Punctuator::AssignBoolOr.text()[1] == '|' && Punctuator::AssignBoolOr.text()[2] == '=',
        Punctuator::AssignCoalesce.text().len() == 3 && Punctuator::AssignCoalesce.text()[0] == '?' && Punctuator::AssignCoalesce.text()[1] == '?' && Punctuator::AssignCoalesce.text()[2] == '=',
        Punctuator::AssignDiv.text().len() == 2 && Punctuator::AssignDiv.text()[0] == '/' && Punctuator::AssignDiv.text()[1] == '=',
        Punctuator::AssignLeftSh.text().len() == 3 && Punctuator::AssignLeftSh.text()[0] == '<' && Punctuator::AssignLeftSh.text()[1] == '<' && Punctuator::AssignLeftSh.text()[2] == '=',
        Punctuator::AssignMod.text().len() == 2 && Punctuator::AssignMod.text()[0] == '%' && Punctuator::AssignMod.text()[1] == '=',
        Punctuator::AssignMul.text().len() == 2 && Punctuator::AssignMul.text()[0] == '*' && Punctuator::AssignMul.text()[1] == '=',
        Punctuator::AssignOr.text().len() == 2 && Punctuator::AssignOr.text()[0] == '|' && Punctuator::AssignOr.text()[1] == '=',
        Punctuator::AssignPow.text().len() == 3 && Punctuator::AssignPow.text()[0] == '*' && Punctuator::AssignPow.text()[1] == '*' && Punctuator::AssignPow.text()[2] == '=',
        Punctuator::AssignRightSh.text().len() == 3 && Punctuator::AssignRightSh.text()[0] == '>' && Punctuator::AssignRightSh.text()[1] == '>' && Punctuator::AssignRightSh.text()[2] == '=',
        Punctuator::AssignSub.text().len() == 2 && Punctuator::AssignSub.text()[0] == '-' && Punctuator::AssignSub.text()[1] == '=',
        Punctuator::AssignURightSh.text().len() == 4 && Punctuator::AssignURightSh.text()[0] == '>' && Punctuator::AssignURightSh.text()[1] == '>' && Punctuator::AssignURightSh.text()[2] == '>' && Punctuator::AssignURightSh.text()[3] == '=',
        Punctuator::AssignXor.text().len() == 2 && Punctuator::AssignXor.text()[0] == '^' && Punctuator::AssignXor.text()[1] == '=',
        Punctuator::BoolAnd.text().len() == 2 && Punctuator::BoolAnd.text()[0] == '&' && Punctuator::BoolAnd.text()[1] == '&',
        Punctuator::BoolOr.text().len() == 2 && Punctuator::BoolOr.text()[0] == '|' && Punctuator::BoolOr.text()[1] == '|',
        Punctuator::CloseBlock.text().len() == 1 && Punctuator::CloseBlock.text()[0] == '}',
        Punctuator::CloseBracket.text().len() == 1 && Punctuator::CloseBracket.text()[0] == ']',
        Punctuator::CloseParen.text().len() == 1 && Punctuator::CloseParen.text()[0] == ')',
        Punctuator::Coalesce.text().len() == 2 && Punctuator::Coalesce.text()[0] == '?' && Punctuator::Coalesce.text()[1] == '?',
        Punctuator::Colon.text().len() == 1 && Punctuator::Colon.text()[0] == ':',
        Punctuator::Comma.text().len() == 1 && Punctuator::Comma.text()[0] == ',',
        Punctuator::Dec.text().len() == 2 && Punctuator::Dec.text()[0] == '-' && Punctuator::Dec.text()[1] == '-',
        Punctuator::Div.text().len() == 1 && Punctuator::Div.text()[0] == '/',
        Punctuator::Dot.text().len() == 1 && Punctuator::Dot.text()[0] == '.',
        Punctuator::Eq.text().len() == 2 && Punctuator::Eq.text()[0] == '=' && Punctuator::Eq.text()[1] == '=',
        Punctuator::Exp.text().len() == 2 && Punctuator::Exp.text()[0] == '*' && Punctuator::Exp.text()[1] == '*',
        Punctuator::GreaterThan.text().len() == 1 && Punctuator::GreaterThan.text()[0] == '>',
        Punctuator::GreaterThanOrEq.text().len() == 2 && Punctuator::GreaterThanOrEq.text()[0] == '>' && Punctuator::GreaterThanOrEq.text()[1] == '=',
        Punctuator::Inc.text().len() == 2 && Punctuator::Inc.text()[0] == '+' && Punctuator::Inc.text()[1] == '+',
        Punctuator::LeftSh.text().len() == 2 && Punctuator::LeftSh.text()[0] == '<' && Punctuator::LeftSh.text()[1] == '<',
        Punctuator::LessThan.text().len() == 1 && Punctuator::LessThan.text()[0] == '<',
        Punctuator::LessThanOrEq.text().len() == 2 && Punctuator::LessThanOrEq.text()[0] == '<' && Punctuator::LessThanOrEq.text()[1] == '=',
        Punctuator::Mod.text().len() == 1 && Punctuator::Mod.text()[0] == '%',
        Punctuator::Mul.text().len() == 1 && Punctuator::Mul.text()[0] == '*',
        Punctuator::Neg.text().len() == 1 && Punctuator::Neg.text()[0] == '~',
        Punctuator::Not.text().len() == 1 && Punctuator::Not.text()[0] == '!',
        Punctuator::NotEq.text().len() == 2 && Punctuator::NotEq.text()[0] == '!' && Punctuator::NotEq.text()[1] == '=',
        Punctuator::OpenBlock.text().len() == 1 && Punctuator::OpenBlock.text()[0] == '{',
        Punctuator::OpenBracket.text().len() == 1 && Punctuator::OpenBracket.text()[0] == '[',
        Punctuator::OpenParen.text().len() == 1 && Punctuator::OpenParen.text()[0] == '(',
        Punctuator::Or.text().len() == 1 && Punctuator::Or.text()[0] == '|',
        Punctuator::Question.text().len() == 1 && Punctuator::Question.text()[0] == '?',
        Punctuator::RightSh.text().len() == 2 && Punctuator::RightSh.text()[0] == '>' && Punctuator::RightSh.text()[1] == '>',
        Punctuator::Semicolon.text().len() == 1 && Punctuator::Semicolon.text()[0] == ';',
        Punctuator::Spread.text().len() == 3 && Punctuator::Spread.text()[0] == '.' && Punctuator::Spread.text()[1] == '.' && Punctuator::Spread.text()[2] == '.',
        Punctuator::StrictEq.text().len() == 3 && Punctuator::StrictEq.text()[0] == '=' && Punctuator::StrictEq.text()[1] == '=' && Punctuator::StrictEq.text()[2] == '=',
        Punctuator::StrictNotEq.text().len() == 3 && Punctuator::StrictNotEq.text()[0] == '!' && Punctuator::StrictNotEq.text()[1] == '=' && Punctuator::StrictNotEq.text()[2] == '=',
        Punctuator::Sub.text().len() == 1 && Punctuator::Sub.text()[0] == '-',
        Punctuator::URightSh.text().len() == 3 && Punctuator::URightSh.text()[0] == '>' && Punctuator::URightSh.text()[1] == '>' && Punctuator::URightSh.text()[2] == '>',
        Punctuator::Xor.text().len() == 1 && Punctuator::Xor.text()[0] == '^',
{
    reveal_strlit("+");
    assert("+"@.len() == 1 && "+"@[0] == '+');
    reveal_strlit("&");
    assert("&"@.len() == 1 && "&"@[0] == '&');
    reveal_strlit("=>");
    assert("=>"@.len() == 2 && "=>"@[0] == '=' && "=>"@[1] == '>');
    reveal_strlit("=");
    assert("="@.len() == 1 && "="@[0] == '=');
    reveal_strlit("+=");
    assert("+="@.len() == 2 && "+="@[0] == '+' && "+="@[1] == '=');
    reveal_strlit("&=");
    assert("&="@.len() == 2 && "&="@[0] == '&' && "&="@[1] == '=');
    reveal_strlit("&&=");
    assert("&&="@.len() == 3 && "&&="@[0] == '&' && "&&="@[1] == '&' && "&&="@[2] == '=');
    reveal_strlit("||=");
    assert("||="@.len() == 3 && "||="@[0] == '|' && "||="@[1] == '|' && "||="@[2] == '=');
    reveal_strlit("??=");
    assert("??="@.len() == 3 && "??="@[0] == '?' && "??="@[1] == '?' && "??="@[2] == '=');
    reveal_strlit("/=");
    assert("/="@.len() == 2 && "/="@[0] == '/' && "/="@[1] == '=');
    reveal_strlit("<<=");
    assert("<<="@.len() == 3 && "<<="@[0] == '<' && "<<="@[1] == '<' && "<<="@[2] == '=');
    reveal_strlit("%=");
    assert("%="@.len() == 2 && "%="@[0] == '%' && "%="@[1] == '=');
    reveal_strlit("*=");
    assert("*="@.len() == 2 && "*="@[0] == '*' && "*="@[1] == '=');
    reveal_strlit("|=");
    assert("|="@.len() == 2 && "|="@[0] == '|' && "|="@[1] == '=');
    reveal_strlit("**=");
    assert("**="@.len() == 3 && "**="@[0] == '*' && "**="@[1] == '*' && "**="@[2] == '=');
    reveal_strlit(">>=");
    assert(">>="@.len() == 3 && ">>="@[0] == '>' && ">>="@[1] == '>' && ">>="@[2] == '=');
    reveal_strlit("-=");
    assert("-="@.len() == 2 && "-="@[0] == '-' && "-="@[1] == '=');
    reveal_strlit(">>>=");
    assert(">>>="@.len() == 4 && ">>>="@[0] == '>' && ">>>="@[1] == '>' && ">>>="@[2] == '>' && ">>>="@[3] == '=');
    reveal_strlit("^=");
    assert("^="@.len() == 2 && "^="@[0] == '^' && "^="@[1] == '=');
    reveal_strlit("&&");
    assert("&&"@.len() == 2 && "&&"@[0] == '&' && "&&"@[1] == '&');
    reveal_strlit("||");
    assert("||"@.len() == 2 && "||"@[0] == '|' && "||"@[1] == '|');
    reveal_strlit("}");
    assert("}"@.len() == 1 && "}"@[0] == '}');
    reveal_strlit("]");
    assert("]"@.len() == 1 && "]"@[0] == ']');
    reveal_strlit(")");
    assert(")"@.len() == 1 && ")"@[0] == ')');
    reveal_strlit("??");
    assert("??"@.len() == 2 && "??"@[0] == '?' && "??"@[1] == '?');
    reveal_strlit(":");
    assert(":"@.len() == 1 && ":"@[0] == ':');
    reveal_strlit(",");
    assert(","@.len() == 1 && ","@[0] == ',');
    reveal_strlit("--");
    assert("--"@.len() == 2 && "--"@[0] == '-' && "--"@[1] == '-');
    reveal_strlit("/");
    assert("/"@.len() == 1 && "/"@[0] == '/');
    reveal_strlit(".");
    assert("."@.len() == 1 && "."@[0] == '.');
    reveal_strlit("==");
    assert("=="@.len() == 2 && "=="@[0] == '=' && "=="@[1] == '=');
    reveal_strlit("**");
    assert("**"@.len() == 2 && "**"@[0] == '*' && "**"@[1] == '*');
    reveal_strlit(">");
    assert(">"@.len() == 1 && ">"@[0] == '>');
    reveal_strlit(">=");
    assert(">="@.len() == 2 && ">="@[0] == '>' && ">="@[1] == '=');
    reveal_strlit("++");
    assert("++"@.len() == 2 && "++"@[0] == '+' && "++"@[1] == '+');
    reveal_strlit("<<");
    assert("<<"@.len() == 2 && "<<"@[0] == '<' && "<<"@[1] == '<');
    reveal_strlit("<");
    assert("<"@.len() == 1 && "<"@[0] == '<');
    reveal_strlit("<=");
    assert("<="@.len() == 2 && "<="@[0] == '<' && "<="@[1] == '=');
    reveal_strlit("%");
    assert("%"@.len() == 1 && "%"@[0] == '%');
    reveal_strlit("*");
    assert("*"@.len() == 1 && "*"@[0] == '*');
    reveal_strlit("~");
    assert("~"@.len() == 1 && "~"@[0] == '~');
    reveal_strlit("!");
    assert("!"@.len() == 1 && "!"@[0] == '!');
    reveal_strlit("!=");
    assert("!="@.len() == 2 && "!="@[0] == '!' && "!="@[1] == '=');
    reveal_strlit("{");
    assert("{"@.len() == 1 && "{"@[0] == '{');
    reveal_strlit("[");
    assert("["@.len() == 1 && "["@[0] == '[');
    reveal_strlit("(");
    assert("("@.len() == 1 && "("@[0] == '(');
    reveal_strlit("|");
    assert("|"@.len() == 1 && "|"@[0] == '|');
    reveal_strlit("?");
    assert("?"@.len() == 1 && "?"@[0] == '?');
    reveal_strlit(">>");
    assert(">>"@.len() == 2 && ">>"@[0] == '>' && ">>"@[1] == '>');
    reveal_strlit(";");
    assert(";"@.len() == 1 && ";"@[0] == ';');
    reveal_strlit("...");
    assert("..."@.len() == 3 && "..."@[0] == '.' && "..."@[1] == '.' && "..."@[2] == '.');
    reveal_strlit("===");
    assert("==="@.len() == 3 && "==="@[0] == '=' && "==="@[1] == '=' && "==="@[2] == '=');
    reveal_strlit("!==");
    assert("!=="@.len() == 3 && "!=="@[0] == '!' && "!=="@[1] == '=' && "!=="@[2] == '=');
    reveal_strlit("-");
    assert("-"@.len() == 1 && "-"@[0] == '-');
    reveal_strlit(">>>");
    assert(">>>"@.len() == 3 && ">>>"@[0] == '>' && ">>>"@[1] == '>' && ">>>"@[2] == '>');
    reveal_strlit("^");
    assert("^"@.len() == 1 && "^"@[0] == '^');
    assert forall|p: Punctuator| 1 <= #[trigger] p.text().len() <= 4 by {
        match p {
            Punctuator::Add => {},
            Punctuator::And => {},
            Punctuator::Arrow => {},
            Punctuator::Assign => {},
            Punctuator::AssignAdd => {},
            Punctuator::AssignAnd => {},
            Punctuator::AssignBoolAnd => {},
            Punctuator::AssignBoolOr => {},
            Punctuator::AssignCoalesce => {},
            Punctuator::AssignDiv => {},
            Punctuator::AssignLeftSh => {},
            Punctuator::AssignMod => {},
            Punctuator::AssignMul => {},
            Punctuator::AssignOr => {},
            Punctuator::AssignPow => {},
            Punctuator::AssignRightSh => {},
            Punctuator::AssignSub => {},
            Punctuator::AssignURightSh => {},
            Punctuator::AssignXor => {},
            Punctuator::BoolAnd => {},
            Punctuator::BoolOr => {},
            Punctuator::CloseBlock => {},
            Punctuator::CloseBracket => {},
            Punctuator::CloseParen => {},
            Punctuator::Coalesce => {},
            Punctuator::Colon => {},
            Punctuator::Comma => {},
            Punctuator::Dec => {},
            Punctuator::Div => {},
            Punctuator::Dot => {},
            Punctuator::Eq => {},
            Punctuator::Exp => {},
            Punctuator::GreaterThan => {},
            Punctuator::GreaterThanOrEq => {},
            Punctuator::Inc => {},
            Punctuator::LeftSh => {},
            Punctuator::LessThan => {},
            Punctuator::LessThanOrEq => {},
            Punctuator::Mod => {},
            Punctuator::Mul => {},
            Punctuator::Neg => {},
            Punctuator::Not => {},
            Punctuator::NotEq => {},
            Punctuator::OpenBlock => {},
            Punctuator::OpenBracket => {},
            Punctuator::OpenParen => {},
            Punctuator::Or => {},
            Punctuator::Question => {},
            Punctuator::RightSh => {},
            Punctuator::Semicolon => {},
            Punctuator::Spread => {},
            Punctuator::StrictEq => {},
            Punctuator::StrictNotEq => {},
            Punctuator::Sub => {},
            Punctuator::URightSh => {},
            Punctuator::Xor => {},
        }
    }
}

/// Two punctuators that are spelled alike are the same punctuator.
pub proof fn lemma_text_injective(p: Punctuator, q: Punctuator)
    requires
        p.text() == q.text(),
    ensures
        p == q,
{
    lemma_spellings();
    let n = p.text().len();
    assert(q.text().len() == n);
    assert(p.text()[0] == q.text()[0]);
    if n > 1 {
        assert(p.text()[1] == q.text()[1]);
    }
    if n > 2 {
        assert(p.text()[2] == q.text()[2]);
    }
    if n > 3 {
        assert(p.text()[3] == q.text()[3]);
    }
}

/// What the source spells where a punctuator begins with `c` and `s` is the stream behind `c`.
pub open spec fn spelling(c: char, s: Stream) -> Seq<char> {
    seq![c] + s.chars
}

/// Whether the source spells `p` where `c` stands and `s` is the stream behind `c`.
pub open spec fn spells_punctuator(p: Punctuator, c: char, s: Stream) -> bool {
    p.text().len() <= spelling(c, s).len() && spelling(c, s).subrange(0, p.text().len() as int)
        == p.text()
}

/// The punctuator that is read is the one that the source spells: its
/// characters are `c` and those that follow, and the stream that is left
/// begins behind them, on the same line.
pub proof fn lemma_punctuator_is_spelled(c: char, s: Stream)
    requires
        punctuator(c, s) is Some,
    ensures
        spells_punctuator((punctuator(c, s)->0).0, c, s),
        (punctuator(c, s)->0).1 == s.shifted(((punctuator(c, s)->0).0.text().len() - 1) as nat),
{
    lemma_spellings();
    lemma_shifts(c, s);
    let (p, rest) = punctuator(c, s)->0;
    assert(spelling(c, s).subrange(0, p.text().len() as int) =~= p.text());
}

/// Where the characters behind `c` stand in what the source spells, and
/// where the stream stands after reading up to three of them that end no line.
proof fn lemma_shifts(c: char, s: Stream)
    ensures
        spelling(c, s).len() == s.chars.len() + 1,
        spelling(c, s)[0] == c,
        forall|i: int| 0 <= i < s.chars.len() ==> spelling(c, s)[i + 1] == s.chars[i],
        s == s.shifted(0),
        s.chars.len() > 0 && !line_terminator(s.chars[0]) ==> s.advance() == s.shifted(1),
        s.chars.len() > 1 && !line_terminator(s.chars[0]) && !line_terminator(s.chars[1])
            ==> s.advance().advance() == s.shifted(2) && s.advance().chars[0] == s.chars[1],
        s.chars.len() > 2 && !line_terminator(s.chars[0]) && !line_terminator(s.chars[1])
            && !line_terminator(s.chars[2]) ==> s.advance().advance().advance() == s.shifted(3)
            && s.advance().advance().chars[0] == s.chars[2],
{
    assert(s.chars.skip(0) =~= s.chars);
    if s.chars.len() > 0 && !line_terminator(s.chars[0]) {
        let t = s.advance();
        if t.chars.len() > 0 && !line_terminator(t.chars[0]) {
            let u = t.advance();
            assert(u.chars =~= s.chars.skip(2));
            if u.chars.len() > 0 && !line_terminator(u.chars[0]) {
                assert(u.advance().chars =~= s.chars.skip(3));
            }
        }
    }
}

/// The punctuator that is read is the longest that the source spells: no
/// punctuator that the source spells at the same place is longer. A dot is
/// left out, as it is not read here.
pub proof fn lemma_punctuator_is_longest(c: char, s: Stream, other: Punctuator)
    requires
        c != '.',
        spells_punctuator(other, c, s),
    ensures
        punctuator(c, s) is Some,
        other.text().len() <= (punctuator(c, s)->0).0.text().len(),
{
    lemma_spellings();
    lemma_shifts(c, s);
    let here = spelling(c, s);
    let m = other.text().len();
    assert(here.subrange(0, m as int)[0] == here[0]);
    if m > 1 {
        assert(here.subrange(0, m as int)[1] == here[1]);
    }
    if m > 2 {
        assert(here.subrange(0, m as int)[2] == here[2]);
    }
    if m > 3 {
        assert(here.subrange(0, m as int)[3] == here[3]);
    }
}

/// Reading a punctuator leads on.
pub proof fn lemma_punctuator_reaches(c: char, s: Stream)
    ensures
        punctuator(c, s) matches Some((_, rest)) ==> s.reaches(rest),
{
    if s.chars.len() > 0 {
        let t = s.advance();
        if t.chars.len() > 0 {
            let u = t.advance();
            if u.chars.len() > 0 {
                assert(u.reaches(u.advance()));
            }
            assert(t.reaches(u));
        }
        assert(s.reaches(t));
    }
}

/// Reads `c` if it is next and gives `longer`; gives `shorter` otherwise.
fn read_either(cursor: &mut Cursor, c: char, longer: Punctuator, shorter: Punctuator) -> (p:
    Punctuator)
    ensures
        (p, final(cursor)@) == either(old(cursor)@, c, longer, shorter),
{
    if cursor.next_if(c) {
        longer
    } else {
        shorter
    }
}

/// Reads what follows an operator that can be doubled and assigned.
fn read_doubled(
    cursor: &mut Cursor,
    c: char,
    twice_assign: Punctuator,
    twice: Punctuator,
    assign: Punctuator,
    once: Punctuator,
) -> (p: Punctuator)
    ensures
        (p, final(cursor)@) == doubled(old(cursor)@, c, twice_assign, twice, assign, once),
{
    if cursor.next_if(c) {
        read_either(cursor, '=', twice_assign, twice)
    } else {
        read_either(cursor, '=', assign, once)
    }
}

/// Reads the rest of the punctuator that begins with `c`, which was read
/// just before: the longest that the source spells. `None`, with nothing
/// read, where `c` begins no punctuator.
pub fn read_punctuator(c: char, cursor: &mut Cursor) -> (p: Option<Punctuator>)
    ensures
        p is Some <==> punctuator(c, old(cursor)@) is Some,
        p matches Some(found) ==> (found, final(cursor)@) == punctuator(c, old(cursor)@)->0,
        p is None ==> final(cursor)@ == old(cursor)@,
{
    if c == '{' {
        Some(Punctuator::OpenBlock)
    } else if c == '}' {
        Some(Punctuator::CloseBlock)
    } else if c == '(' {
        Some(Punctuator::OpenParen)
    } else if c == ')' {
        Some(Punctuator::CloseParen)
    } else if c == '[' {
        Some(Punctuator::OpenBracket)
    } else if c == ']' {
        Some(Punctuator::CloseBracket)
    } else if c == ';' {
        Some(Punctuator::Semicolon)
    } else if c == ',' {
        Some(Punctuator::Comma)
    } else if c == ':' {
        Some(Punctuator::Colon)
    } else if c == '~' {
        Some(Punctuator::Neg)
    } else if c == '<' {
        Some(
            read_doubled(
                cursor,
                '<',
                Punctuator::AssignLeftSh,
                Punctuator::LeftSh,
                Punctuator::LessThanOrEq,
                Punctuator::LessThan,
            ),
        )
    } else if c == '>' {
        if cursor.next_if('>') {
            if cursor.next_if('>') {
                Some(
                    read_either(cursor, '=', Punctuator::AssignURightSh, Punctuator::URightSh),
                )
            } else {
                Some(read_either(cursor, '=', Punctuator::AssignRightSh, Punctuator::RightSh))
            }
        } else {
            Some(read_either(cursor, '=', Punctuator::GreaterThanOrEq, Punctuator::GreaterThan))
        }
    } else if c == '=' {
        if cursor.next_if('=') {
            Some(read_either(cursor, '=', Punctuator::StrictEq, Punctuator::Eq))
        } else {
            Some(read_either(cursor, '>', Punctuator::Arrow, Punctuator::Assign))
        }
    } else if c == '!' {
        if cursor.next_if('=') {
            Some(read_either(cursor, '=', Punctuator::StrictNotEq, Punctuator::NotEq))
        } else {
            Some(Punctuator::Not)
        }
    } else if c == '+' {
        if cursor.next_if('+') {
            Some(Punctuator::Inc)
        } else {
            Some(read_either(cursor, '=', Punctuator::AssignAdd, Punctuator::Add))
        }
    } else if c == '-' {
        if cursor.next_if('-') {
            Some(Punctuator::Dec)
        } else {
            Some(read_either(cursor, '=', Punctuator::AssignSub, Punctuator::Sub))
        }
    } else if c == '*' {
        Some(
            read_doubled(
                cursor,
                '*',
                Punctuator::AssignPow,
                Punctuator::Exp,
                Punctuator::AssignMul,
                Punctuator::Mul,
            ),
        )
    } else if c == '%' {
        Some(read_either(cursor, '=', Punctuator::AssignMod, Punctuator::Mod))
    } else if c == '&' {
        Some(
            read_doubled(
                cursor,
                '&',
                Punctuator::AssignBoolAnd,
                Punctuator::BoolAnd,
                Punctuator::AssignAnd,
                Punctuator::And,
            ),
        )
    } else if c == '|' {
        Some(
            read_doubled(
                cursor,
                '|',
                Punctuator::AssignBoolOr,
                Punctuator::BoolOr,
                Punctuator::AssignOr,
                Punctuator::Or,
            ),
        )
    } else if c == '^' {
        Some(read_either(cursor, '=', Punctuator::AssignXor, Punctuator::Xor))
    } else if c == '?' {
        if cursor.next_if('?') {
            Some(read_either(cursor, '=', Punctuator::AssignCoalesce, Punctuator::Coalesce))
        } else {
            Some(Punctuator::Question)
        }
    } else if c == '/' {
        Some(read_either(cursor, '=', Punctuator::AssignDiv, Punctuator::Div))
    } else {
        None
    }
}

} // verus!
