//! The reserved words of the language.

use vstd::prelude::*;
use vstd::string::*;

verus! {

/// A reserved word.
#[derive(Clone, Copy, Debug, PartialEq, Eq, Structural)]
pub enum Keyword {
    /// The word `await`.
    Await,
    /// The word `break`.
    Break,
    /// The word `case`.
    Case,
    /// The word `catch`.
    Catch,
    /// The word `class`.
    Class,
    /// The word `const`.
    Const,
    /// The word `continue`.
    Continue,
    /// The word `debugger`.
    Debugger,
    /// The word `default`.
    Default,
    /// The word `delete`.
    Delete,
    /// The word `do`.
    Do,
    /// The word `else`.
    Else,
    /// The word `enum`.
    Enum,
    /// The word `export`.
    Export,
    /// The word `extends`.
    Extends,
    /// The word `finally`.
    Finally,
    /// The word `for`.
    For,
    /// The word `function`.
    Function,
    /// The word `if`.
    If,
    /// The word `import`.
    Import,
    /// The word `in`.
    In,
    /// The word `instanceof`.
    InstanceOf,
    /// The word `let`.
    Let,
    /// The word `new`.
    New,
    /// The word `return`.
    Return,
    /// The word `super`.
    Super,
    /// The word `switch`.
    Switch,
    /// The word `this`.
    This,
    /// The word `throw`.
    Throw,
    /// The word `try`.
    Try,
    /// The word `typeof`.
    TypeOf,
    /// The word `var`.
    Var,
    /// The word `void`.
    Void,
    /// The word `while`.
    While,
    /// The word `with`.
    With,
    /// The word `yield`.
    Yield,
}

impl Keyword {
    /// How the word is spelled in the source.
    pub open spec fn text(self) -> Seq<char> {
        match self {
            Keyword::Await => "await"@,
            Keyword::Break => "break"@,
            Keyword::Case => "case"@,
            Keyword::Catch => "catch"@,
            Keyword::Class => "class"@,
            Keyword::Const => "const"@,
            Keyword::Continue => "continue"@,
            Keyword::Debugger => "debugger"@,
            Keyword::Default => "default"@,
            Keyword::Delete => "delete"@,
            Keyword::Do => "do"@,
            Keyword::Else => "else"@,
            Keyword::Enum => "enum"@,
            Keyword::Export => "export"@,
            Keyword::Extends => "extends"@,
            Keyword::Finally => "finally"@,
            Keyword::For => "for"@,
            Keyword::Function => "function"@,
            Keyword::If => "if"@,
            Keyword::Import => "import"@,
            Keyword::In => "in"@,
            Keyword::InstanceOf => "instanceof"@,
            Keyword::Let => "let"@,
            Keyword::New => "new"@,
            Keyword::Return => "return"@,
            Keyword::Super => "super"@,
            Keyword::Switch => "switch"@,
            Keyword::This => "this"@,
            Keyword::Throw => "throw"@,
            Keyword::Try => "try"@,
            Keyword::TypeOf => "typeof"@,
            Keyword::Var => "var"@,
            Keyword::Void => "void"@,
            Keyword::While => "while"@,
            Keyword::With => "with"@,
            Keyword::Yield => "yield"@,
        }
    }

    /// Two reserved words that are spelled alike are the same word.
    pub proof fn lemma_text_injective(self, other: Keyword)
        requires
            self.text() == other.text(),
        ensures
            self == other,
    {
        reveal_strlit("await");
        reveal_strlit("break");
        reveal_strlit("case");
        reveal_strlit("catch");
        reveal_strlit("class");
        reveal_strlit("const");
        reveal_strlit("continue");
        reveal_strlit("debugger");
        reveal_strlit("default");
        reveal_strlit("delete");
        reveal_strlit("do");
        reveal_strlit("else");
        reveal_strlit("enum");
        reveal_strlit("export");
        reveal_strlit("extends");
        reveal_strlit("finally");
        reveal_strlit("for");
        reveal_strlit("function");
        reveal_strlit("if");
        reveal_strlit("import");
        reveal_strlit("in");
        reveal_strlit("instanceof");
        reveal_strlit("let");
        reveal_strlit("new");
        reveal_strlit("return");
        reveal_strlit("super");
        reveal_strlit("switch");
        reveal_strlit("this");
        reveal_strlit("throw");
        reveal_strlit("try");
        reveal_strlit("typeof");
        reveal_strlit("var");
        reveal_strlit("void");
        reveal_strlit("while");
        reveal_strlit("with");
        reveal_strlit("yield");
        assert("await"@.len() == 5 && "await"@[0] == 'a' && "await"@[1] == 'w');
        assert("break"@.len() == 5 && "break"@[0] == 'b' && "break"@[1] == 'r');
        assert("case"@.len() == 4 && "case"@[0] == 'c' && "case"@[1] == 'a');
        assert("catch"@.len() == 5 && "catch"@[0] == 'c' && "catch"@[1] == 'a');
        assert("class"@.len() == 5 && "class"@[0] == 'c' && "class"@[1] == 'l');
        assert("const"@.len() == 5 && "const"@[0] == 'c' && "const"@[1] == 'o');
        assert("continue"@.len() == 8 && "continue"@[0] == 'c' && "continue"@[1] == 'o');
        assert("debugger"@.len() == 8 && "debugger"@[0] == 'd' && "debugger"@[1] == 'e');
        assert("default"@.len() == 7 && "default"@[0] == 'd' && "default"@[1] == 'e');
        assert("delete"@.len() == 6 && "delete"@[0] == 'd' && "delete"@[1] == 'e');
        assert("do"@.len() == 2 && "do"@[0] == 'd' && "do"@[1] == 'o');
        assert("else"@.len() == 4 && "else"@[0] == 'e' && "else"@[1] == 'l');
        assert("enum"@.len() == 4 && "enum"@[0] == 'e' && "enum"@[1] == 'n');
        assert("export"@.len() == 6 && "export"@[0] == 'e' && "export"@[1] == 'x');
        assert("extends"@.len() == 7 && "extends"@[0] == 'e' && "extends"@[1] == 'x');
        assert("finally"@.len() == 7 && "finally"@[0] == 'f' && "finally"@[1] == 'i');
        assert("for"@.len() == 3 && "for"@[0] == 'f' && "for"@[1] == 'o');
        assert("function"@.len() == 8 && "function"@[0] == 'f' && "function"@[1] == 'u');
        assert("if"@.len() == 2 && "if"@[0] == 'i' && "if"@[1] == 'f');
        assert("import"@.len() == 6 && "import"@[0] == 'i' && "import"@[1] == 'm');
        assert("in"@.len() == 2 && "in"@[0] == 'i' && "in"@[1] == 'n');
        assert("instanceof"@.len() == 10 && "instanceof"@[0] == 'i' && "instanceof"@[1] == 'n');
        assert("let"@.len() == 3 && "let"@[0] == 'l' && "let"@[1] == 'e');
        assert("new"@.len() == 3 && "new"@[0] == 'n' && "new"@[1] == 'e');
        assert("return"@.len() == 6 && "return"@[0] == 'r' && "return"@[1] == 'e');
        assert("super"@.len() == 5 && "super"@[0] == 's' && "super"@[1] == 'u');
        assert("switch"@.len() == 6 && "switch"@[0] == 's' && "switch"@[1] == 'w');
        assert("this"@.len() == 4 && "this"@[0] == 't' && "this"@[1] == 'h');
        assert("throw"@.len() == 5 && "throw"@[0] == 't' && "throw"@[1] == 'h');
        assert("try"@.len() == 3 && "try"@[0] == 't' && "try"@[1] == 'r');
        assert("typeof"@.len() == 6 && "typeof"@[0] == 't' && "typeof"@[1] == 'y');
        assert("var"@.len() == 3 && "var"@[0] == 'v' && "var"@[1] == 'a');
        assert("void"@.len() == 4 && "void"@[0] == 'v' && "void"@[1] == 'o');
        assert("while"@.len() == 5 && "while"@[0] == 'w' && "while"@[1] == 'h');
        assert("with"@.len() == 4 && "with"@[0] == 'w' && "with"@[1] == 'i');
        assert("yield"@.len() == 5 && "yield"@[0] == 'y' && "yield"@[1] == 'i');
    }

    /// How the word is spelled in the source.
    pub fn as_str(&self) -> (s: &'static str)
        ensures
            s@ == self.text(),
    {
        match self {
            Keyword::Await => "await",
            Keyword::Break => "break",
            Keyword::Case => "case",
            Keyword::Catch => "catch",
            Keyword::Class => "class",
            Keyword::Const => "const",
            Keyword::Continue => "continue",
            Keyword::Debugger => "debugger",
            Keyword::Default => "default",
            Keyword::Delete => "delete",
            Keyword::Do => "do",
            Keyword::Else => "else",
            Keyword::Enum => "enum",
            Keyword::Export => "export",
            Keyword::Extends => "extends",
            Keyword::Finally => "finally",
            Keyword::For => "for",
            Keyword::Function => "function",
            Keyword::If => "if",
            Keyword::Import => "import",
            Keyword::In => "in",
            Keyword::InstanceOf => "instanceof",
            Keyword::Let => "let",
            Keyword::New => "new",
            Keyword::Return => "return",
            Keyword::Super => "super",
            Keyword::Switch => "switch",
            Keyword::This => "this",
            Keyword::Throw => "throw",
            Keyword::Try => "try",
            Keyword::TypeOf => "typeof",
            Keyword::Var => "var",
            Keyword::Void => "void",
            Keyword::While => "while",
            Keyword::With => "with",
            Keyword::Yield => "yield",
        }
    }

    /// The reserved word that is spelled `text`, or `None` where `text` is not reserved.
    pub fn from_text(text: &str) -> (k: Option<Keyword>)
        ensures
            forall|w: Keyword| k == Some(w) <==> text@ == w.text(),
    {
        let k = Keyword::find(text);
        proof {
            assert forall|w: Keyword| k == Some(w) <==> text@ == w.text() by {
                if let Some(found) = k {
                    if text@ == w.text() {
                        found.lemma_text_injective(w);
                    }
                }
            }
        }
        k
    }

    fn find(text: &str) -> (k: Option<Keyword>)
        ensures
            k matches Some(w) ==> text@ == w.text(),
            k is None ==> forall|w: Keyword| text@ != w.text(),
    {
        if spells(text, "await") {
            Some(Keyword::Await)
        } else if spells(text, "break") {
            Some(Keyword::Break)
        } else if spells(text, "case") {
            Some(Keyword::Case)
        } else if spells(text, "catch") {
            Some(Keyword::Catch)
        } else if spells(text, "class") {
            Some(Keyword::Class)
        } else if spells(text, "const") {
            Some(Keyword::Const)
        } else if spells(text, "continue") {
            Some(Keyword::Continue)
        } else if spells(text, "debugger") {
            Some(Keyword::Debugger)
        } else if spells(text, "default") {
            Some(Keyword::Default)
        } else if spells(text, "delete") {
            Some(Keyword::Delete)
        } else if spells(text, "do") {
            Some(Keyword::Do)
        } else if spells(text, "else") {
            Some(Keyword::Else)
        } else if spells(text, "enum") {
            Some(Keyword::Enum)
        } else if spells(text, "export") {
            Some(Keyword::Export)
        } else if spells(text, "extends") {
            Some(Keyword::Extends)
        } else if spells(text, "finally") {
            Some(Keyword::Finally)
        } else if spells(text, "for") {
            Some(Keyword::For)
        } else if spells(text, "function") {
            Some(Keyword::Function)
        } else if spells(text, "if") {
            Some(Keyword::If)
        } else if spells(text, "import") {
            Some(Keyword::Import)
        } else if spells(text, "in") {
            Some(Keyword::In)
        } else if spells(text, "instanceof") {
            Some(Keyword::InstanceOf)
        } else if spells(text, "let") {
            Some(Keyword::Let)
        } else if spells(text, "new") {
            Some(Keyword::New)
        } else if spells(text, "return") {
            Some(Keyword::Return)
        } else if spells(text, "super") {
            Some(Keyword::Super)
        } else if spells(text, "switch") {
            Some(Keyword::Switch)
        } else if spells(text, "this") {
            Some(Keyword::This)
        } else if spells(text, "throw") {
            Some(Keyword::Throw)
        } else if spells(text, "try") {
            Some(Keyword::Try)
        } else if spells(text, "typeof") {
            Some(Keyword::TypeOf)
        } else if spells(text, "var") {
            Some(Keyword::Var)
        } else if spells(text, "void") {
            Some(Keyword::Void)
        } else if spells(text, "while") {
            Some(Keyword::While)
        } else if spells(text, "with") {
            Some(Keyword::With)
        } else if spells(text, "yield") {
            Some(Keyword::Yield)
        } else {
            None
        }
    }
}

/// Whether `text` and `word` hold the same characters.
pub fn spells(text: &str, word: &str) -> (same: bool)
    ensures
        same == (text@ == word@),
{
    let n = word.unicode_len();
    if text.unicode_len() != n {
        return false;
    }
    let mut i: usize = 0;
    while i < n
        invariant
            n == word@.len(),
            n == text@.len(),
            i <= n,
            forall|j: int| 0 <= j < i ==> text@[j] == word@[j],
        decreases n - i,
    {
        if text.get_char(i) != word.get_char(i) {
            return false;
        }
        i = i + 1;
    }
    assert(text@ =~= word@);
    true
}

} // verus!
