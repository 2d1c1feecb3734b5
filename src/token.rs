//! A flat model of a token stream: a delimited group is written as an
//! opening marker, its contents and a closing marker.
use vstd::prelude::*;
use crate::text::same_text;

verus! {

/// Span id of the macro's call site, given to every token the expansion
/// makes up itself. Other span ids stand for spans of the input.
pub const CALL_SITE: usize = 0;

#[derive(Clone, Copy, PartialEq, Eq, Structural, Debug)]
pub enum Delimiter {
    Parenthesis,
    Brace,
    Bracket,
}

/// What kind of literal a literal token is.
#[derive(PartialEq, Eq, Debug)]
pub enum LitKind {
    /// A string literal.
    Str,
    /// An integer literal: its value in decimal digits and its type suffix.
    Int { digits: String, suffix: String },
    /// Any other literal.
    Other,
}

#[derive(PartialEq, Eq, Debug)]
pub enum Token {
    Ident { name: String, span: usize },
    /// A punctuation character; `joint` when the next character belongs to the same operator.
    Punct { ch: char, joint: bool, span: usize },
    /// A literal with its source text.
    Literal { text: String, kind: LitKind, span: usize },
    Open { delim: Delimiter, span: usize },
    Close { delim: Delimiter },
}

pub enum LitKindView {
    Str,
    Int { digits: Seq<char>, suffix: Seq<char> },
    Other,
}

pub enum TokenView {
    Ident { name: Seq<char>, span: usize },
    Punct { ch: char, joint: bool, span: usize },
    Literal { text: Seq<char>, kind: LitKindView, span: usize },
    Open { delim: Delimiter, span: usize },
    Close { delim: Delimiter },
}

impl View for LitKind {
    type V = LitKindView;

    open spec fn view(&self) -> LitKindView {
        match self {
            LitKind::Str => LitKindView::Str,
            LitKind::Int { digits, suffix } => LitKindView::Int { digits: digits@, suffix: suffix@ },
            LitKind::Other => LitKindView::Other,
        }
    }
}

impl View for Token {
    type V = TokenView;

    open spec fn view(&self) -> TokenView {
        match self {
            Token::Ident { name, span } => TokenView::Ident { name: name@, span: *span },
            Token::Punct { ch, joint, span } => TokenView::Punct { ch: *ch, joint: *joint, span: *span },
            Token::Literal { text, kind, span } => TokenView::Literal { text: text@, kind: kind@, span: *span },
            Token::Open { delim, span } => TokenView::Open { delim: *delim, span: *span },
            Token::Close { delim } => TokenView::Close { delim: *delim },
        }
    }
}

/// The views of a sequence of tokens.
pub open spec fn views(s: Seq<Token>) -> Seq<TokenView> {
    s.map_values(|t: Token| t@)
}

pub open spec fn ident_view(name: Seq<char>, span: usize) -> TokenView {
    TokenView::Ident { name, span }
}

/// A lone punctuation character made by the expansion.
pub open spec fn punct_view(ch: char) -> TokenView {
    TokenView::Punct { ch, joint: false, span: CALL_SITE }
}

pub open spec fn is_punct(t: TokenView, c: char) -> bool {
    t matches TokenView::Punct { ch, .. } && ch == c
}

pub open spec fn is_int_literal(t: TokenView) -> bool {
    t matches TokenView::Literal { kind: LitKindView::Int { .. }, .. }
}

pub open spec fn is_str_literal(t: TokenView) -> bool {
    t matches TokenView::Literal { kind: LitKindView::Str, .. }
}

pub open spec fn is_ident_named(t: TokenView, n: Seq<char>) -> bool {
    t matches TokenView::Ident { name, .. } && name == n
}

/// Words that never stand as a plain identifier.
pub open spec fn is_reserved(n: Seq<char>) -> bool {
    n == "_"@ || n == "abstract"@ || n == "as"@ || n == "async"@ || n == "await"@
        || n == "become"@ || n == "box"@ || n == "break"@ || n == "const"@
        || n == "continue"@ || n == "crate"@ || n == "do"@ || n == "dyn"@ || n == "else"@
        || n == "enum"@ || n == "extern"@ || n == "false"@ || n == "final"@ || n == "fn"@
        || n == "for"@ || n == "if"@ || n == "impl"@ || n == "in"@ || n == "let"@
        || n == "loop"@ || n == "macro"@ || n == "match"@ || n == "mod"@ || n == "move"@
        || n == "mut"@ || n == "override"@ || n == "priv"@ || n == "pub"@ || n == "ref"@
        || n == "return"@ || n == "Self"@ || n == "self"@ || n == "static"@
        || n == "struct"@ || n == "super"@ || n == "trait"@ || n == "true"@ || n == "try"@
        || n == "type"@ || n == "typeof"@ || n == "unsafe"@ || n == "unsized"@
        || n == "use"@ || n == "virtual"@ || n == "where"@ || n == "while"@ || n == "yield"@
}

/// An identifier that is not a reserved word.
pub open spec fn is_plain_ident(t: TokenView) -> bool {
    t matches TokenView::Ident { name, .. } && !is_reserved(name)
}

/// Keywords after which a new expression begins.
pub open spec fn is_expr_keyword(n: Seq<char>) -> bool {
    n == "break"@ || n == "continue"@ || n == "if"@ || n == "in"@ || n == "match"@
        || n == "mut"@ || n == "return"@ || n == "while"@
}

/// Operators and separators after which a new expression begins.
pub open spec fn is_expr_punct(c: char) -> bool {
    c == '+' || c == '&' || c == '!' || c == '^' || c == ',' || c == '/' || c == '='
        || c == '>' || c == '<' || c == '|' || c == '%' || c == ';' || c == '*' || c == '-'
}

/// Whether a new expression begins right after `t`.
pub open spec fn begins_expr_after(t: TokenView) -> bool {
    match t {
        TokenView::Ident { name, .. } => is_expr_keyword(name),
        TokenView::Punct { ch, .. } => is_expr_punct(ch),
        TokenView::Open { .. } => true,
        _ => false,
    }
}

impl Token {
    pub fn ident(name: &str, span: usize) -> (r: Token)
        ensures
            r@ == ident_view(name@, span),
    {
        Token::Ident { name: name.to_owned(), span }
    }

    pub fn punct(ch: char, joint: bool, span: usize) -> (r: Token)
        ensures
            r@ == (TokenView::Punct { ch, joint, span }),
    {
        Token::Punct { ch, joint, span }
    }

    pub fn open(delim: Delimiter, span: usize) -> (r: Token)
        ensures
            r@ == (TokenView::Open { delim, span }),
    {
        Token::Open { delim, span }
    }

    pub fn close(delim: Delimiter) -> (r: Token)
        ensures
            r@ == (TokenView::Close { delim }),
    {
        Token::Close { delim }
    }

    /// A string literal; `text` is its source form, quotes included.
    pub fn str_literal(text: &str, span: usize) -> (r: Token)
        ensures
            r@ == (TokenView::Literal { text: text@, kind: LitKindView::Str, span }),
    {
        Token::Literal { text: text.to_owned(), kind: LitKind::Str, span }
    }

    /// An integer literal with its source text, decimal digits and suffix.
    pub fn int_literal(text: &str, digits: &str, suffix: &str, span: usize) -> (r: Token)
        ensures
            r@ == (TokenView::Literal {
                text: text@,
                kind: LitKindView::Int { digits: digits@, suffix: suffix@ },
                span,
            }),
    {
        Token::Literal {
            text: text.to_owned(),
            kind: LitKind::Int { digits: digits.to_owned(), suffix: suffix.to_owned() },
            span,
        }
    }

    /// Any literal that is neither a string nor an integer.
    pub fn other_literal(text: &str, span: usize) -> (r: Token)
        ensures
            r@ == (TokenView::Literal { text: text@, kind: LitKindView::Other, span }),
    {
        Token::Literal { text: text.to_owned(), kind: LitKind::Other, span }
    }

    /// A copy of this token.
    pub fn duplicate(&self) -> (r: Token)
        ensures
            r@ == self@,
    {
        match self {
            Token::Ident { name, span } => Token::Ident { name: name.clone(), span: *span },
            Token::Punct { ch, joint, span } => Token::Punct { ch: *ch, joint: *joint, span: *span },
            Token::Literal { text, kind, span } => {
                let k = match kind {
                    LitKind::Str => LitKind::Str,
                    LitKind::Int { digits, suffix } => LitKind::Int {
                        digits: digits.clone(),
                        suffix: suffix.clone(),
                    },
                    LitKind::Other => LitKind::Other,
                };
                Token::Literal { text: text.clone(), kind: k, span: *span }
            },
            Token::Open { delim, span } => Token::Open { delim: *delim, span: *span },
            Token::Close { delim } => Token::Close { delim: *delim },
        }
    }

    pub fn is_punct(&self, c: char) -> (r: bool)
        ensures
            r == is_punct(self@, c),
    {
        match self {
            Token::Punct { ch, .. } => *ch == c,
            _ => false,
        }
    }

    pub fn is_int_literal(&self) -> (r: bool)
        ensures
            r == is_int_literal(self@),
    {
        match self {
            Token::Literal { kind: LitKind::Int { .. }, .. } => true,
            _ => false,
        }
    }

    pub fn is_str_literal(&self) -> (r: bool)
        ensures
            r == is_str_literal(self@),
    {
        match self {
            Token::Literal { kind: LitKind::Str, .. } => true,
            _ => false,
        }
    }

    pub fn is_ident_named(&self, n: &str) -> (r: bool)
        ensures
            r == is_ident_named(self@, n@),
    {
        match self {
            Token::Ident { name, .. } => same_text(name.as_str(), n),
            _ => false,
        }
    }

    pub fn is_plain_ident(&self) -> (r: bool)
        ensures
            r == is_plain_ident(self@),
    {
        match self {
            Token::Ident { name, .. } => !is_reserved_word(name.as_str()),
            _ => false,
        }
    }

    /// Whether a new expression begins right after this token.
    pub fn begins_expr_after(&self) -> (r: bool)
        ensures
            r == begins_expr_after(self@),
    {
        match self {
            Token::Ident { name, .. } => is_expr_keyword_word(name.as_str()),
            Token::Punct { ch, .. } => {
                let c = *ch;
                c == '+' || c == '&' || c == '!' || c == '^' || c == ',' || c == '/' || c == '='
                    || c == '>' || c == '<' || c == '|' || c == '%' || c == ';' || c == '*'
                    || c == '-'
            },
            Token::Open { .. } => true,
            _ => false,
        }
    }
}

fn is_expr_keyword_word(n: &str) -> (r: bool)
    ensures
        r == is_expr_keyword(n@),
{
    same_text(n, "break") || same_text(n, "continue") || same_text(n, "if") || same_text(n, "in")
        || same_text(n, "match") || same_text(n, "mut") || same_text(n, "return")
        || same_text(n, "while")
}

fn is_reserved_word(n: &str) -> (r: bool)
    ensures
        r == is_reserved(n@),
{
    same_text(n, "_") || same_text(n, "abstract") || same_text(n, "as") || same_text(n, "async")
        || same_text(n, "await") || same_text(n, "become") || same_text(n, "box")
        || same_text(n, "break") || same_text(n, "const") || same_text(n, "continue")
        || same_text(n, "crate") || same_text(n, "do") || same_text(n, "dyn")
        || same_text(n, "else") || same_text(n, "enum") || same_text(n, "extern")
        || same_text(n, "false") || same_text(n, "final") || same_text(n, "fn")
        || same_text(n, "for") || same_text(n, "if") || same_text(n, "impl")
        || same_text(n, "in") || same_text(n, "let") || same_text(n, "loop")
        || same_text(n, "macro") || same_text(n, "match") || same_text(n, "mod")
        || same_text(n, "move") || same_text(n, "mut") || same_text(n, "override")
        || same_text(n, "priv") || same_text(n, "pub") || same_text(n, "ref")
        || same_text(n, "return") || same_text(n, "Self") || same_text(n, "self")
        || same_text(n, "static") || same_text(n, "struct") || same_text(n, "super")
        || same_text(n, "trait") || same_text(n, "true") || same_text(n, "try")
        || same_text(n, "type") || same_text(n, "typeof") || same_text(n, "unsafe")
        || same_text(n, "unsized") || same_text(n, "use") || same_text(n, "virtual")
        || same_text(n, "where") || same_text(n, "while") || same_text(n, "yield")
}

pub proof fn lemma_views_push(s: Seq<Token>, t: Token)
    ensures
        views(s.push(t)) == views(s).push(t@),
{
    assert(views(s.push(t)) =~= views(s).push(t@));
}

/// Appends `t` to `tokens`.
pub fn push_token(tokens: &mut Vec<Token>, t: Token)
    ensures
        views(final(tokens)@) == views(old(tokens)@).push(t@),
{
    tokens.push(t);
    assert(views(tokens@) =~= views(old(tokens)@).push(t@));
}

} // verus!
