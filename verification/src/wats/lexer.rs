use vstd::prelude::*;

use crate::text::{chars_of, spells};

verus! {

/// A token of the language. Keywords and built-in type names take precedence over
/// identifiers of the same text; identifiers may contain hyphens (kebab-case).
#[derive(Debug, PartialEq, Clone)]
pub enum Token {
    KwFunc,
    KwLet,
    KwIf,
    KwElse,
    KwReturn,
    KwExport,
    KwImport,
    KwWorld,
    KwInterface,
    Equals,
    Colon,
    Semicolon,
    Comma,
    Dot,
    LParen,
    RParen,
    LBrace,
    RBrace,
    Arrow,
    Less,
    Greater,
    Plus,
    Minus,
    Mul,
    Div,
    TypeU32,
    TypeU64,
    TypeI32,
    TypeI64,
    TypeF32,
    TypeF64,
    TypeString,
    TypeBool,
    Identifier(String),
    Number(u64),
    /// A (possibly nested) block comment.
    _Comment,
}

/// The mathematical value of a [`Token`]: tokens without data stand for themselves.
pub enum TokenView {
    Plain(Token),
    Identifier(Seq<char>),
    Number(u64),
}

impl View for Token {
    type V = TokenView;

    open spec fn view(&self) -> TokenView {
        match self {
            Token::Identifier(s) => TokenView::Identifier(s@),
            Token::Number(n) => TokenView::Number(*n),
            _ => TokenView::Plain(*self),
        }
    }
}

/// A lexing error: no token starts at this character position.
#[derive(Debug, Clone, Copy, PartialEq, Eq, Structural)]
pub struct LexError {
    pub position: usize,
}

/// Whitespace that separates tokens: space, tab, line feed, form feed, carriage return.
pub open spec fn is_ws(ch: char) -> bool {
    ch == ' ' || ch == '\t' || ch == '\n' || ch == '\x0C' || ch == '\r'
}

/// A letter or underscore.
pub open spec fn is_ident_start(ch: char) -> bool {
    (97 <= ch as int <= 122) || (65 <= ch as int <= 90) || ch == '_'
}

/// A decimal digit.
pub open spec fn is_digit(ch: char) -> bool {
    48 <= ch as int <= 57
}

/// A character that may continue an identifier.
pub open spec fn is_ident_char(ch: char) -> bool {
    is_ident_start(ch) || is_digit(ch) || ch == '-'
}

/// The kinds of character runs that tokens are made of.
#[derive(Clone, Copy, PartialEq, Eq, Structural, Debug)]
pub enum CharClass {
    /// Whitespace.
    Space,
    /// Identifier characters.
    Word,
    /// Decimal digits.
    Digit,
    /// Anything but a line feed.
    Line,
}

/// Whether a character belongs to a class.
pub open spec fn in_class(ch: char, k: CharClass) -> bool {
    match k {
        CharClass::Space => is_ws(ch),
        CharClass::Word => is_ident_char(ch),
        CharClass::Digit => is_digit(ch),
        CharClass::Line => ch != '\n',
    }
}

/// End of the run of characters of class `k` starting at `i`.
pub open spec fn run_end(c: Seq<char>, i: int, k: CharClass) -> int
    decreases c.len() - i,
{
    if 0 <= i < c.len() && in_class(c[i], k) {
        run_end(c, i + 1, k)
    } else {
        i
    }
}

/// Scans the inside of a block comment from `i` at nesting `depth`: each `/*` opens and
/// each `*/` closes a level. Returns where the scan stopped and whether every level closed.
pub open spec fn comment_close(c: Seq<char>, i: int, depth: nat) -> (int, bool)
    decreases c.len() - i,
{
    if depth > 0 && 0 <= i && i + 1 < c.len() {
        if c[i] == '/' && c[i + 1] == '*' {
            comment_close(c, i + 2, depth + 1)
        } else if c[i] == '*' && c[i + 1] == '/' {
            comment_close(c, i + 2, (depth - 1) as nat)
        } else {
            comment_close(c, i + 1, depth)
        }
    } else {
        (i, depth == 0)
    }
}

/// The value of a digit.
pub open spec fn digit_value(ch: char) -> nat {
    (ch as int - 48) as nat
}

/// The value of a run of decimal digits.
pub open spec fn decimal(s: Seq<char>) -> nat
    decreases s.len(),
{
    if s.len() == 0 {
        0
    } else {
        decimal(s.drop_last()) * 10 + digit_value(s.last())
    }
}

/// The token for a whole run of identifier characters: a keyword or built-in type
/// name if it spells one, else an identifier.
pub open spec fn word_token(w: Seq<char>) -> TokenView {
    if w == "func"@ {
        TokenView::Plain(Token::KwFunc)
    } else if w == "let"@ {
        TokenView::Plain(Token::KwLet)
    } else if w == "if"@ {
        TokenView::Plain(Token::KwIf)
    } else if w == "else"@ {
        TokenView::Plain(Token::KwElse)
    } else if w == "return"@ {
        TokenView::Plain(Token::KwReturn)
    } else if w == "export"@ {
        TokenView::Plain(Token::KwExport)
    } else if w == "import"@ {
        TokenView::Plain(Token::KwImport)
    } else if w == "world"@ {
        TokenView::Plain(Token::KwWorld)
    } else if w == "interface"@ {
        TokenView::Plain(Token::KwInterface)
    } else if w == "u32"@ {
        TokenView::Plain(Token::TypeU32)
    } else if w == "u64"@ {
        TokenView::Plain(Token::TypeU64)
    } else if w == "i32"@ {
        TokenView::Plain(Token::TypeI32)
    } else if w == "i64"@ {
        TokenView::Plain(Token::TypeI64)
    } else if w == "f32"@ {
        TokenView::Plain(Token::TypeF32)
    } else if w == "f64"@ {
        TokenView::Plain(Token::TypeF64)
    } else if w == "string"@ {
        TokenView::Plain(Token::TypeString)
    } else if w == "bool"@ {
        TokenView::Plain(Token::TypeBool)
    } else {
        TokenView::Identifier(w)
    }
}

/// The text of a keyword or built-in type name token; none for other tokens.
pub open spec fn keyword_text(t: Token) -> Option<Seq<char>> {
    match t {
        Token::KwFunc => Some("func"@),
        Token::KwLet => Some("let"@),
        Token::KwIf => Some("if"@),
        Token::KwElse => Some("else"@),
        Token::KwReturn => Some("return"@),
        Token::KwExport => Some("export"@),
        Token::KwImport => Some("import"@),
        Token::KwWorld => Some("world"@),
        Token::KwInterface => Some("interface"@),
        Token::TypeU32 => Some("u32"@),
        Token::TypeU64 => Some("u64"@),
        Token::TypeI32 => Some("i32"@),
        Token::TypeI64 => Some("i64"@),
        Token::TypeF32 => Some("f32"@),
        Token::TypeF64 => Some("f64"@),
        Token::TypeString => Some("string"@),
        Token::TypeBool => Some("bool"@),
        _ => None,
    }
}

/// A word is lexed to a keyword token exactly when it is that keyword's text: each
/// keyword text gives its own token, and no other word gives a keyword token.
pub proof fn law_keyword_words(w: Seq<char>, t: Token)
    ensures
        keyword_text(t) matches Some(k) ==> word_token(k) == TokenView::Plain(t),
        word_token(w) == TokenView::Plain(t) ==> keyword_text(t) == Some(w),
{
    reveal_strlit("func");
    reveal_strlit("let");
    reveal_strlit("if");
    reveal_strlit("else");
    reveal_strlit("return");
    reveal_strlit("export");
    reveal_strlit("import");
    reveal_strlit("world");
    reveal_strlit("interface");
    reveal_strlit("u32");
    reveal_strlit("u64");
    reveal_strlit("i32");
    reveal_strlit("i64");
    reveal_strlit("f32");
    reveal_strlit("f64");
    reveal_strlit("string");
    reveal_strlit("bool");
    match t {
        Token::KwFunc => {

        },
        Token::KwLet => {
            assert("let"@.len() != "func"@.len());
        },
        Token::KwIf => {
            assert("if"@.len() != "func"@.len());
            assert("if"@.len() != "let"@.len());
        },
        Token::KwElse => {
            assert("else"@[0] != "func"@[0]);
            assert("else"@.len() != "let"@.len());
            assert("else"@.len() != "if"@.len());
        },
        Token::KwReturn => {
            assert("return"@.len() != "func"@.len());
            assert("return"@.len() != "let"@.len());
            assert("return"@.len() != "if"@.len());
            assert("return"@.len() != "else"@.len());
        },
        Token::KwExport => {
            assert("export"@.len() != "func"@.len());
            assert("export"@.len() != "let"@.len());
            assert("export"@.len() != "if"@.len());
            assert("export"@.len() != "else"@.len());
            assert("export"@[0] != "return"@[0]);
        },
        Token::KwImport => {
            assert("import"@.len() != "func"@.len());
            assert("import"@.len() != "let"@.len());
            assert("import"@.len() != "if"@.len());
            assert("import"@.len() != "else"@.len());
            assert("import"@[0] != "return"@[0]);
            assert("import"@[0] != "export"@[0]);
        },
        Token::KwWorld => {
            assert("world"@.len() != "func"@.len());
            assert("world"@.len() != "let"@.len());
            assert("world"@.len() != "if"@.len());
            assert("world"@.len() != "else"@.len());
            assert("world"@.len() != "return"@.len());
            assert("world"@.len() != "export"@.len());
            assert("world"@.len() != "import"@.len());
        },
        Token::KwInterface => {
            assert("interface"@.len() != "func"@.len());
            assert("interface"@.len() != "let"@.len());
            assert("interface"@.len() != "if"@.len());
            assert("interface"@.len() != "else"@.len());
            assert("interface"@.len() != "return"@.len());
            assert("interface"@.len() != "export"@.len());
            assert("interface"@.len() != "import"@.len());
            assert("interface"@.len() != "world"@.len());
        },
        Token::TypeU32 => {
            assert("u32"@.len() != "func"@.len());
            assert("u32"@[0] != "let"@[0]);
            assert("u32"@.len() != "if"@.len());
            assert("u32"@.len() != "else"@.len());
            assert("u32"@.len() != "return"@.len());
            assert("u32"@.len() != "export"@.len());
            assert("u32"@.len() != "import"@.len());
            assert("u32"@.len() != "world"@.len());
            assert("u32"@.len() != "interface"@.len());
        },
        Token::TypeU64 => {
            assert("u64"@.len() != "func"@.len());
            assert("u64"@[0] != "let"@[0]);
            assert("u64"@.len() != "if"@.len());
            assert("u64"@.len() != "else"@.len());
            assert("u64"@.len() != "return"@.len());
            assert("u64"@.len() != "export"@.len());
            assert("u64"@.len() != "import"@.len());
            assert("u64"@.len() != "world"@.len());
            assert("u64"@.len() != "interface"@.len());
            assert("u64"@[1] != "u32"@[1]);
        },
        Token::TypeI32 => {
            assert("i32"@.len() != "func"@.len());
            assert("i32"@[0] != "let"@[0]);
            assert("i32"@.len() != "if"@.len());
            assert("i32"@.len() != "else"@.len());
            assert("i32"@.len() != "return"@.len());
            assert("i32"@.len() != "export"@.len());
            assert("i32"@.len() != "import"@.len());
            assert("i32"@.len() != "world"@.len());
            assert("i32"@.len() != "interface"@.len());
            assert("i32"@[0] != "u32"@[0]);
            assert("i32"@[0] != "u64"@[0]);
        },
        Token::TypeI64 => {
            assert("i64"@.len() != "func"@.len());
            assert("i64"@[0] != "let"@[0]);
            assert("i64"@.len() != "if"@.len());
            assert("i64"@.len() != "else"@.len());
            assert("i64"@.len() != "return"@.len());
            assert("i64"@.len() != "export"@.len());
            assert("i64"@.len() != "import"@.len());
            assert("i64"@.len() != "world"@.len());
            assert("i64"@.len() != "interface"@.len());
            assert("i64"@[0] != "u32"@[0]);
            assert("i64"@[0] != "u64"@[0]);
            assert("i64"@[1] != "i32"@[1]);
        },
        Token::TypeF32 => {
            assert("f32"@.len() != "func"@.len());
            assert("f32"@[0] != "let"@[0]);
            assert("f32"@.len() != "if"@.len());
            assert("f32"@.len() != "else"@.len());
            assert("f32"@.len() != "return"@.len());
            assert("f32"@.len() != "export"@.len());
            assert("f32"@.len() != "import"@.len());
            assert("f32"@.len() != "world"@.len());
            assert("f32"@.len() != "interface"@.len());
            assert("f32"@[0] != "u32"@[0]);
            assert("f32"@[0] != "u64"@[0]);
            assert("f32"@[0] != "i32"@[0]);
            assert("f32"@[0] != "i64"@[0]);
        },
        Token::TypeF64 => {
            assert("f64"@.len() != "func"@.len());
            assert("f64"@[0] != "let"@[0]);
            assert("f64"@.len() != "if"@.len());
            assert("f64"@.len() != "else"@.len());
            assert("f64"@.len() != "return"@.len());
            assert("f64"@.len() != "export"@.len());
            assert("f64"@.len() != "import"@.len());
            assert("f64"@.len() != "world"@.len());
            assert("f64"@.len() != "interface"@.len());
            assert("f64"@[0] != "u32"@[0]);
            assert("f64"@[0] != "u64"@[0]);
            assert("f64"@[0] != "i32"@[0]);
            assert("f64"@[0] != "i64"@[0]);
            assert("f64"@[1] != "f32"@[1]);
        },
        Token::TypeString => {
            assert("string"@.len() != "func"@.len());
            assert("string"@.len() != "let"@.len());
            assert("string"@.len() != "if"@.len());
            assert("string"@.len() != "else"@.len());
            assert("string"@[0] != "return"@[0]);
            assert("string"@[0] != "export"@[0]);
            assert("string"@[0] != "import"@[0]);
            assert("string"@.len() != "world"@.len());
            assert("string"@.len() != "interface"@.len());
            assert("string"@.len() != "u32"@.len());
            assert("string"@.len() != "u64"@.len());
            assert("string"@.len() != "i32"@.len());
            assert("string"@.len() != "i64"@.len());
            assert("string"@.len() != "f32"@.len());
            assert("string"@.len() != "f64"@.len());
        },
        Token::TypeBool => {
            assert("bool"@[0] != "func"@[0]);
            assert("bool"@.len() != "let"@.len());
            assert("bool"@.len() != "if"@.len());
            assert("bool"@[0] != "else"@[0]);
            assert("bool"@.len() != "return"@.len());
            assert("bool"@.len() != "export"@.len());
            assert("bool"@.len() != "import"@.len());
            assert("bool"@.len() != "world"@.len());
            assert("bool"@.len() != "interface"@.len());
            assert("bool"@.len() != "u32"@.len());
            assert("bool"@.len() != "u64"@.len());
            assert("bool"@.len() != "i32"@.len());
            assert("bool"@.len() != "i64"@.len());
            assert("bool"@.len() != "f32"@.len());
            assert("bool"@.len() != "f64"@.len());
            assert("bool"@.len() != "string"@.len());
        },
        _ => {},
    }
}

/// A text that is one run of identifier characters, starting with a letter or
/// underscore, lexes to the single token of that word.
proof fn lemma_word_lexes(w: Seq<char>)
    requires
        w.len() > 0,
        is_ident_start(w[0]),
        run_end(w, 0, CharClass::Word) == w.len(),
    ensures
        lex(w) == Ok::<Seq<TokenView>, LexError>(seq![word_token(w)]),
{
    lemma_scan_advances(w, 0);
    assert(w.subrange(0, w.len() as int) =~= w);
    assert(scan(w, 0) == Scan::Emit(word_token(w), w.len() as int));
    assert(lex_from(w, w.len() as int) == Ok::<Seq<TokenView>, LexError>(Seq::empty()));
    assert(seq![word_token(w)] + Seq::<TokenView>::empty() =~= seq![word_token(w)]);
}

/// Every keyword and built-in type name, lexed on its own, gives exactly its own token.
pub proof fn law_keyword_lexes(t: Token)
    ensures
        keyword_text(t) matches Some(k) ==> lex(k) == Ok::<Seq<TokenView>, LexError>(
            seq![TokenView::Plain(t)],
        ),
{
    if let Some(k) = keyword_text(t) {
        law_keyword_words(k, t);
        reveal_with_fuel(run_end, 11);
        reveal_strlit("func");
        reveal_strlit("let");
        reveal_strlit("if");
        reveal_strlit("else");
        reveal_strlit("return");
        reveal_strlit("export");
        reveal_strlit("import");
        reveal_strlit("world");
        reveal_strlit("interface");
        reveal_strlit("u32");
        reveal_strlit("u64");
        reveal_strlit("i32");
        reveal_strlit("i64");
        reveal_strlit("f32");
        reveal_strlit("f64");
        reveal_strlit("string");
        reveal_strlit("bool");
        lemma_word_lexes(k);
    }
}

/// The token of a one-character symbol, if `ch` is one.
pub open spec fn symbol_token(ch: char) -> Option<Token> {
    if ch == '=' {
        Some(Token::Equals)
    } else if ch == ':' {
        Some(Token::Colon)
    } else if ch == ';' {
        Some(Token::Semicolon)
    } else if ch == ',' {
        Some(Token::Comma)
    } else if ch == '.' {
        Some(Token::Dot)
    } else if ch == '(' {
        Some(Token::LParen)
    } else if ch == ')' {
        Some(Token::RParen)
    } else if ch == '{' {
        Some(Token::LBrace)
    } else if ch == '}' {
        Some(Token::RBrace)
    } else if ch == '<' {
        Some(Token::Less)
    } else if ch == '>' {
        Some(Token::Greater)
    } else if ch == '+' {
        Some(Token::Plus)
    } else if ch == '-' {
        Some(Token::Minus)
    } else if ch == '*' {
        Some(Token::Mul)
    } else if ch == '/' {
        Some(Token::Div)
    } else {
        None
    }
}

/// What the longest match at a position gives: skipped text up to a position, a token
/// ending at a position, or nothing that matches.
pub enum Scan {
    Skip(int),
    Emit(TokenView, int),
    Fail,
}

/// The longest match at position `i`.
pub open spec fn scan(c: Seq<char>, i: int) -> Scan {
    let ch = c[i];
    let next_is = |d: char| i + 1 < c.len() && c[i + 1] == d;
    if is_ws(ch) {
        Scan::Skip(run_end(c, i, CharClass::Space))
    } else if ch == '/' && next_is('/') {
        Scan::Skip(run_end(c, i, CharClass::Line))
    } else if ch == '/' && next_is('*') {
        let (end, closed) = comment_close(c, i + 2, 1);
        if closed {
            Scan::Emit(TokenView::Plain(Token::_Comment), end)
        } else {
            Scan::Fail
        }
    } else if ch == '-' && next_is('>') {
        Scan::Emit(TokenView::Plain(Token::Arrow), i + 2)
    } else if is_ident_start(ch) {
        let e = run_end(c, i, CharClass::Word);
        Scan::Emit(word_token(c.subrange(i, e)), e)
    } else if is_digit(ch) {
        let e = run_end(c, i, CharClass::Digit);
        let v = decimal(c.subrange(i, e));
        if v <= u64::MAX {
            Scan::Emit(TokenView::Number(v as u64), e)
        } else {
            Scan::Fail
        }
    } else {
        match symbol_token(ch) {
            Some(t) => Scan::Emit(TokenView::Plain(t), i + 1),
            None => Scan::Fail,
        }
    }
}

/// Runs end no earlier than they start, and no later than the text.
proof fn lemma_run_ends(c: Seq<char>, i: int, k: CharClass)
    requires
        0 <= i <= c.len(),
    ensures
        i <= run_end(c, i, k) <= c.len(),
    decreases c.len() - i,
{
    if i < c.len() {
        lemma_run_ends(c, i + 1, k);
    }
}

/// A comment scan never moves backwards nor past the text.
proof fn lemma_comment_close_bounds(c: Seq<char>, i: int, depth: nat)
    requires
        0 <= i <= c.len(),
    ensures
        i <= comment_close(c, i, depth).0 <= c.len(),
    decreases c.len() - i,
{
    if depth > 0 && i + 1 < c.len() {
        if c[i] == '/' && c[i + 1] == '*' {
            lemma_comment_close_bounds(c, i + 2, depth + 1);
        } else if c[i] == '*' && c[i + 1] == '/' {
            lemma_comment_close_bounds(c, i + 2, (depth - 1) as nat);
        } else {
            lemma_comment_close_bounds(c, i + 1, depth);
        }
    }
}

/// Every match consumes at least one character and stays within the text.
pub proof fn lemma_scan_advances(c: Seq<char>, i: int)
    requires
        0 <= i < c.len(),
    ensures
        scan(c, i) matches Scan::Skip(j) ==> i < j <= c.len(),
        scan(c, i) matches Scan::Emit(_, j) ==> i < j <= c.len(),
{
    lemma_run_ends(c, i, CharClass::Space);
    lemma_run_ends(c, i, CharClass::Line);
    lemma_run_ends(c, i, CharClass::Word);
    lemma_run_ends(c, i, CharClass::Digit);
    lemma_run_ends(c, i + 1, CharClass::Space);
    lemma_run_ends(c, i + 1, CharClass::Line);
    lemma_run_ends(c, i + 1, CharClass::Word);
    lemma_run_ends(c, i + 1, CharClass::Digit);
    if i + 2 <= c.len() {
        lemma_comment_close_bounds(c, i + 2, 1);
    }
}

/// The tokens of `c` from position `i` on, or the position where no token matches.
pub open spec fn lex_from(c: Seq<char>, i: int) -> Result<Seq<TokenView>, LexError>
    decreases c.len() - i,
{
    if i < 0 || i >= c.len() {
        Ok(Seq::empty())
    } else {
        proof {
            lemma_scan_advances(c, i);
        }
        match scan(c, i) {
            Scan::Skip(j) => lex_from(c, j),
            Scan::Emit(t, j) => match lex_from(c, j) {
                Ok(rest) => Ok(seq![t] + rest),
                Err(e) => Err(e),
            },
            Scan::Fail => Err(LexError { position: i as usize }),
        }
    }
}

/// The tokens of a text: longest match at each position, whitespace and line comments
/// skipped, failing at the first position where nothing matches.
pub open spec fn lex(c: Seq<char>) -> Result<Seq<TokenView>, LexError> {
    lex_from(c, 0)
}

/// The views of a sequence of tokens.
pub open spec fn tokens_view(s: Seq<Token>) -> Seq<TokenView> {
    s.map_values(|t: Token| t@)
}

/// Whether a character belongs to a class.
fn char_in_class(ch: char, k: CharClass) -> (b: bool)
    ensures
        b == in_class(ch, k),
{
    match k {
        CharClass::Space => ch == ' ' || ch == '\t' || ch == '\n' || ch == '\x0C' || ch == '\r',
        CharClass::Word => ('a' <= ch && ch <= 'z') || ('A' <= ch && ch <= 'Z') || ch == '_' || ('0'
            <= ch && ch <= '9') || ch == '-',
        CharClass::Digit => '0' <= ch && ch <= '9',
        CharClass::Line => ch != '\n',
    }
}

/// End of the run of characters of class `k` starting at `i`.
fn run_end_at(c: &Vec<char>, i: usize, k: CharClass) -> (j: usize)
    requires
        i <= c@.len(),
    ensures
        j == run_end(c@, i as int, k),
{
    let mut j = i;
    while j < c.len() && char_in_class(c[j], k)
        invariant
            i <= j <= c@.len(),
            run_end(c@, i as int, k) == run_end(c@, j as int, k),
        decreases c@.len() - j,
    {
        j = j + 1;
    }
    j
}

/// Scans the inside of a block comment starting at `i` (just after its opening `/*`).
/// Returns where the scan stopped and whether the comment closed.
fn nested_comments(c: &Vec<char>, i: usize) -> (r: (usize, bool))
    requires
        i <= c@.len(),
    ensures
        (r.0 as int, r.1) == comment_close(c@, i as int, 1),
{
    let mut depth: usize = 1;
    let mut j = i;
    while depth > 0 && c.len() - j > 1
        invariant
            i <= j <= c@.len(),
            depth <= j + 1,
            comment_close(c@, i as int, 1) == comment_close(c@, j as int, depth as nat),
        decreases c@.len() - j,
    {
        if c[j] == '/' && c[j + 1] == '*' {
            depth = depth + 1;
            j = j + 2;
        } else if c[j] == '*' && c[j + 1] == '/' {
            depth = depth - 1;
            j = j + 2;
        } else {
            j = j + 1;
        }
    }
    (j, depth == 0)
}

/// The value of the digits `c[i..e]`, if it fits in 64 bits.
fn number_value(c: &Vec<char>, i: usize, e: usize) -> (v: Option<u64>)
    requires
        i <= e <= c@.len(),
        forall|t: int| i <= t < e ==> is_digit(#[trigger] c@[t]),
    ensures
        v == (if decimal(c@.subrange(i as int, e as int)) <= u64::MAX {
            Some(decimal(c@.subrange(i as int, e as int)) as u64)
        } else {
            None::<u64>
        }),
{
    let mut val: Option<u64> = Some(0);
    let mut j = i;
    proof {
        assert(c@.subrange(i as int, i as int).len() == 0);
    }
    while j < e
        invariant
            i <= j <= e <= c@.len(),
            forall|t: int| i <= t < e ==> is_digit(#[trigger] c@[t]),
            val == (if decimal(c@.subrange(i as int, j as int)) <= u64::MAX {
                Some(decimal(c@.subrange(i as int, j as int)) as u64)
            } else {
                None::<u64>
            }),
        decreases e - j,
    {
        let ghost prev = c@.subrange(i as int, j as int);
        let ghost next = c@.subrange(i as int, j + 1);
        proof {
            assert(next.drop_last() =~= prev);
            assert(next.last() == c@[j as int]);
            assert(is_digit(c@[j as int]));
        }
        let ch = c[j];
        let d = (ch as u32 - 48) as u64;
        val = match val {
            Some(x) => match x.checked_mul(10) {
                Some(y) => y.checked_add(d),
                None => None,
            },
            None => None,
        };
        j = j + 1;
    }
    val
}

/// The token for the identifier run `c[i..e]` (whose text is also `src[i..e]`).
fn word_token_at(c: &Vec<char>, src: &str, i: usize, e: usize) -> (t: Token)
    requires
        i <= e <= c@.len(),
        c@ == src@,
    ensures
        t@ == word_token(c@.subrange(i as int, e as int)),
{
    if spells(c, i, e, "func") {
        Token::KwFunc
    } else if spells(c, i, e, "let") {
        Token::KwLet
    } else if spells(c, i, e, "if") {
        Token::KwIf
    } else if spells(c, i, e, "else") {
        Token::KwElse
    } else if spells(c, i, e, "return") {
        Token::KwReturn
    } else if spells(c, i, e, "export") {
        Token::KwExport
    } else if spells(c, i, e, "import") {
        Token::KwImport
    } else if spells(c, i, e, "world") {
        Token::KwWorld
    } else if spells(c, i, e, "interface") {
        Token::KwInterface
    } else if spells(c, i, e, "u32") {
        Token::TypeU32
    } else if spells(c, i, e, "u64") {
        Token::TypeU64
    } else if spells(c, i, e, "i32") {
        Token::TypeI32
    } else if spells(c, i, e, "i64") {
        Token::TypeI64
    } else if spells(c, i, e, "f32") {
        Token::TypeF32
    } else if spells(c, i, e, "f64") {
        Token::TypeF64
    } else if spells(c, i, e, "string") {
        Token::TypeString
    } else if spells(c, i, e, "bool") {
        Token::TypeBool
    } else {
        let text = src.substring_char(i, e).to_owned();
        Token::Identifier(text)
    }
}

/// The token of a one-character symbol, if `ch` is one.
fn symbol_at(ch: char) -> (t: Option<Token>)
    ensures
        t == symbol_token(ch),
{
    match ch {
        '=' => Some(Token::Equals),
        ':' => Some(Token::Colon),
        ';' => Some(Token::Semicolon),
        ',' => Some(Token::Comma),
        '.' => Some(Token::Dot),
        '(' => Some(Token::LParen),
        ')' => Some(Token::RParen),
        '{' => Some(Token::LBrace),
        '}' => Some(Token::RBrace),
        '<' => Some(Token::Less),
        '>' => Some(Token::Greater),
        '+' => Some(Token::Plus),
        '-' => Some(Token::Minus),
        '*' => Some(Token::Mul),
        '/' => Some(Token::Div),
        _ => None,
    }
}

/// One step of lexing: text skipped up to a position, a token ending at a position, or a failure.
enum Step {
    Skip(usize),
    Emit(Token, usize),
    Fail,
}

/// Whether a step is the spec's longest match.
spec fn step_is(s: Step, sc: Scan) -> bool {
    match s {
        Step::Skip(j) => sc == Scan::Skip(j as int),
        Step::Emit(t, j) => sc == Scan::Emit(t@, j as int),
        Step::Fail => sc is Fail,
    }
}

/// The longest match at position `i`.
fn scan_at(c: &Vec<char>, src: &str, i: usize) -> (s: Step)
    requires
        i < c@.len(),
        c@ == src@,
    ensures
        step_is(s, scan(c@, i as int)),
{
    let ch = c[i];
    let n = c.len();
    if char_in_class(ch, CharClass::Space) {
        return Step::Skip(run_end_at(c, i, CharClass::Space));
    }
    if ch == '/' && i + 1 < n && c[i + 1] == '/' {
        return Step::Skip(run_end_at(c, i, CharClass::Line));
    }
    if ch == '/' && i + 1 < n && c[i + 1] == '*' {
        let (end, closed) = nested_comments(c, i + 2);
        if closed {
            return Step::Emit(Token::_Comment, end);
        } else {
            return Step::Fail;
        }
    }
    if ch == '-' && i + 1 < n && c[i + 1] == '>' {
        return Step::Emit(Token::Arrow, i + 2);
    }
    if ('a' <= ch && ch <= 'z') || ('A' <= ch && ch <= 'Z') || ch == '_' {
        let e = run_end_at(c, i, CharClass::Word);
        proof {
            lemma_run_ends(c@, i as int, CharClass::Word);
        }
        return Step::Emit(word_token_at(c, src, i, e), e);
    }
    if '0' <= ch && ch <= '9' {
        let e = run_end_at(c, i, CharClass::Digit);
        proof {
            lemma_run_ends(c@, i as int, CharClass::Digit);
            lemma_run_digits(c@, i as int);
        }
        return match number_value(c, i, e) {
            Some(x) => Step::Emit(Token::Number(x), e),
            None => Step::Fail,
        };
    }
    match symbol_at(ch) {
        Some(t) => Step::Emit(t, i + 1),
        None => Step::Fail,
    }
}

/// Every character of a digit run is a digit.
proof fn lemma_run_digits(c: Seq<char>, i: int)
    requires
        0 <= i <= c.len(),
    ensures
        forall|t: int| i <= t < run_end(c, i, CharClass::Digit) ==> is_digit(#[trigger] c[t]),
    decreases c.len() - i,
{
    if i < c.len() && is_digit(c[i]) {
        lemma_run_digits(c, i + 1);
    }
}

/// The tokens already produced, followed by the result of lexing the rest.
pub open spec fn after_prefix(done: Seq<TokenView>, rest: Result<Seq<TokenView>, LexError>) -> Result<Seq<TokenView>, LexError> {
    match rest {
        Ok(r) => Ok(done + r),
        Err(e) => Err(e),
    }
}

/// The view of a lexing result.
pub open spec fn lexed(r: Result<Vec<Token>, LexError>) -> Result<Seq<TokenView>, LexError> {
    match r {
        Ok(v) => Ok(tokens_view(v@)),
        Err(e) => Err(e),
    }
}

/// Splits a text into tokens (see [`lex`]): whitespace and `//` line comments are
/// skipped, `/* */` block comments nest and yield a comment token. Fails with the
/// character position of the first place where no token matches (an unknown character,
/// an unclosed block comment, or a number that does not fit in 64 bits).
pub fn tokenize(src: &str) -> (res: Result<Vec<Token>, LexError>)
    ensures
        lexed(res) == lex(src@),
{
    let c = chars_of(src);
    let mut out: Vec<Token> = Vec::new();
    let mut pos: usize = 0;
    proof {
        assert(tokens_view(out@) =~= Seq::<TokenView>::empty());
        assert(after_prefix(Seq::empty(), lex_from(c@, 0)) =~~= lex_from(c@, 0));
    }
    while pos < c.len()
        invariant
            c@ == src@,
            pos <= c@.len(),
            lex(c@) == after_prefix(tokens_view(out@), lex_from(c@, pos as int)),
        decreases c@.len() - pos,
    {
        proof {
            lemma_scan_advances(c@, pos as int);
        }
        let step = scan_at(&c, src, pos);
        match step {
            Step::Skip(j) => {
                pos = j;
            },
            Step::Emit(t, j) => {
                let ghost tv = t@;
                let ghost before = tokens_view(out@);
                out.push(t);
                proof {
                    assert(tokens_view(out@) =~= before.push(tv));
                    match lex_from(c@, j as int) {
                        Ok(r) => {
                            assert(before + (seq![tv] + r) =~= before.push(tv) + r);
                        },
                        Err(_) => {},
                    }
                }
                pos = j;
            },
            Step::Fail => {
                return Err(LexError { position: pos });
            },
        }
    }
    proof {
        assert(tokens_view(out@) + Seq::<TokenView>::empty() =~= tokens_view(out@));
    }
    Ok(out)
}

} // verus!

