//! Lexical analysis for ECMAScript source text: a cursor that decodes UTF-8
//! source bytes and tracks line and column, scanners for comments, string,
//! template and regular-expression literals, and a lexer that hands out
//! classified tokens one request at a time under a settable goal symbol.
//!
//! Two choices are fixed here. A new lexer starts under the goal symbol
//! `RegExp`, the goal at the start of a script, until another is set. And
//! the first error ends the sequence of tokens: after it every request is
//! answered with `None`.
//!
//! Every scanner has a model: a function from the unread input, as a
//! mathematical [`stream::Stream`], to the token or error and the input that
//! is left. The executable scanners are proved to compute their models, and
//! the module [`laws`] holds what is proved of the models themselves.

pub mod classify;
pub mod comment;
pub mod cursor;
pub mod decode;
pub mod error;
pub mod escape;
pub mod identifier;
pub mod keyword;
pub mod laws;
pub mod lexer;
pub mod number;
pub mod position;
pub mod punctuator;
pub mod regex;
pub mod scan;
pub mod std_specs;
pub mod stream;
pub mod string;
pub mod template;
pub mod token;

pub use crate::cursor::Cursor;
pub use crate::error::Error;
pub use crate::keyword::Keyword;
pub use crate::lexer::{InputElement, Lexer};
pub use crate::position::{Position, Span};
pub use crate::punctuator::Punctuator;
pub use crate::token::{TemplatePart, Token, TokenKind};
