//! The attribute's arguments: a format string, then expressions in which
//! field references are rewritten to the names the expansion binds.
use vstd::prelude::*;
use crate::text::{all_digits, digits_value, parse_u32, positional_field_name, positional_name};
use crate::token::{
    begins_expr_after, is_ident_named, is_int_literal, is_plain_ident, is_punct, is_str_literal,
    lemma_views_push, views, LitKind, LitKindView, Token, TokenView,
};

verus! {

/// Why the attribute's arguments were refused.
#[derive(Clone, Copy, PartialEq, Eq, Structural, Debug)]
pub enum ArgsError {
    /// The arguments do not start with a string literal.
    ExpectedFormatString,
    /// A field index carries a type suffix.
    SuffixedIndex { span: usize },
    /// A field index is not a number that fits in 32 bits.
    InvalidIndex { span: usize },
}

/// The field index an integer literal token stands for.
pub open spec fn index_of(t: TokenView) -> Result<nat, ArgsError> {
    match t {
        TokenView::Literal { kind: LitKindView::Int { digits, suffix }, span, .. } => {
            if suffix.len() != 0 {
                Err(ArgsError::SuffixedIndex { span })
            } else if digits.len() > 0 && all_digits(digits) && digits_value(digits) <= u32::MAX {
                Ok(digits_value(digits))
            } else {
                Err(ArgsError::InvalidIndex { span })
            }
        },
        _ => Err(ArgsError::InvalidIndex { span: 0 }),
    }
}

pub open spec fn span_of(t: TokenView) -> usize {
    match t {
        TokenView::Ident { span, .. } => span,
        TokenView::Punct { span, .. } => span,
        TokenView::Literal { span, .. } => span,
        TokenView::Open { span, .. } => span,
        TokenView::Close { .. } => 0,
    }
}

/// The identifier that replaces the field index `t`.
pub open spec fn index_ident(t: TokenView, index: nat) -> TokenView {
    TokenView::Ident { name: positional_name(index), span: span_of(t) }
}

pub open spec fn prepend(t: TokenView, r: Result<Seq<TokenView>, ArgsError>) -> Result<Seq<TokenView>, ArgsError> {
    match r {
        Ok(rest) => Ok(seq![t] + rest),
        Err(e) => Err(e),
    }
}

pub open spec fn prepend_all(p: Seq<TokenView>, r: Result<Seq<TokenView>, ArgsError>) -> Result<Seq<TokenView>, ArgsError> {
    match r {
        Ok(rest) => Ok(p + rest),
        Err(e) => Err(e),
    }
}

/// The rewriting of the argument tokens `s` from position `i` on, where
/// `begin` tells whether an expression begins at `i` and `tuple` whether
/// the record has positional fields.
///
/// Wherever it stands, `self` before `.` and a field name or index is
/// dropped, so that the `.` then counts as the start of an expression.
/// Where an expression begins:
/// - in a positional record, an integer literal is a field index and
///   becomes that field's name;
/// - `.` before a field name is dropped, and `.` with a field index after it
///   becomes that field's name.
/// Every other token is kept. An expression begins at the start of a group
/// and after the operators and keywords of `begins_expr_after`.
pub open spec fn rewrite_from(s: Seq<TokenView>, i: int, begin: bool, tuple: bool) -> Result<Seq<TokenView>, ArgsError>
    decreases s.len() - i,
{
    if i < 0 || i >= s.len() {
        Ok(seq![])
    } else if tuple && begin && is_int_literal(s[i]) {
        match index_of(s[i]) {
            Ok(n) => prepend(index_ident(s[i], n), rewrite_from(s, i + 1, false, tuple)),
            Err(e) => Err(e),
        }
    } else if begin && is_punct(s[i], '.') && i + 1 < s.len() && is_plain_ident(s[i + 1]) {
        rewrite_from(s, i + 1, false, tuple)
    } else if begin && is_punct(s[i], '.') && i + 1 < s.len() && is_int_literal(s[i + 1]) {
        match index_of(s[i + 1]) {
            Ok(n) => prepend(index_ident(s[i + 1], n), rewrite_from(s, i + 2, false, tuple)),
            Err(e) => Err(e),
        }
    } else if is_ident_named(s[i], "self"@) && i + 2 < s.len() && is_punct(s[i + 1], '.')
        && (is_plain_ident(s[i + 2]) || is_int_literal(s[i + 2])) {
        rewrite_from(s, i + 1, true, tuple)
    } else {
        prepend(s[i], rewrite_from(s, i + 1, begins_expr_after(s[i]), tuple))
    }
}

pub open spec fn result_view(r: Result<Vec<Token>, ArgsError>) -> Result<Seq<TokenView>, ArgsError> {
    match r {
        Ok(v) => Ok(views(v@)),
        Err(e) => Err(e),
    }
}

/// The field index `t` stands for, or why it is refused.
fn parse_index(t: &Token) -> (r: Result<usize, ArgsError>)
    requires
        is_int_literal(t@),
    ensures
        r matches Ok(n) ==> index_of(t@) == Ok::<nat, ArgsError>(n as nat),
        r matches Err(e) ==> index_of(t@) == Err::<nat, ArgsError>(e),
{
    match t {
        Token::Literal { kind: LitKind::Int { digits, suffix }, span, .. } => {
            if suffix.as_str().unicode_len() != 0 {
                return Err(ArgsError::SuffixedIndex { span: *span });
            }
            match parse_u32(digits.as_str()) {
                Some(n) => Ok(n as usize),
                None => Err(ArgsError::InvalidIndex { span: *span }),
            }
        },
        _ => Err(ArgsError::InvalidIndex { span: 0 }),
    }
}

/// The name of field `index`, carrying the span of the index token `t`.
fn index_token(t: &Token, index: usize) -> (r: Token)
    ensures
        r@ == index_ident(t@, index as nat),
{
    let span = match t {
        Token::Ident { span, .. } => *span,
        Token::Punct { span, .. } => *span,
        Token::Literal { span, .. } => *span,
        Token::Open { span, .. } => *span,
        Token::Close { .. } => 0,
    };
    Token::Ident { name: positional_field_name(index), span }
}

proof fn lemma_prepend_step(before: Seq<TokenView>, v: TokenView, r: Result<Seq<TokenView>, ArgsError>)
    ensures
        prepend_all(before, prepend(v, r)) == prepend_all(before.push(v), r),
{
    if let Ok(x) = r {
        assert(before + (seq![v] + x) =~= before.push(v) + x);
    }
}

/// Rewrites the argument tokens of `input` from position `start` on.
pub fn parse_token_expr(input: &Vec<Token>, start: usize, begin_expr: bool, in_tuple_struct: bool) -> (r: Result<Vec<Token>, ArgsError>)
    ensures
        result_view(r) == rewrite_from(views(input@), start as int, begin_expr, in_tuple_struct),
{
    let ghost s = views(input@);
    let mut out: Vec<Token> = Vec::new();
    let mut i = start;
    let mut begin = begin_expr;
    let n = input.len();
    if i > n {
        i = n;
    }
    assert(rewrite_from(s, start as int, begin_expr, in_tuple_struct)
        == prepend_all(views(out@), rewrite_from(s, i as int, begin, in_tuple_struct))) by {
        assert(views(out@) =~= Seq::<TokenView>::empty());
        assert(Seq::<TokenView>::empty() + seq![] =~= seq![]);
        let r = rewrite_from(s, i as int, begin, in_tuple_struct);
        if let Ok(x) = r {
            assert(Seq::<TokenView>::empty() + x =~= x);
        }
    }
    while i < n
        invariant
            n == input@.len(),
            s == views(input@),
            i <= n,
            rewrite_from(s, start as int, begin_expr, in_tuple_struct)
                == prepend_all(views(out@), rewrite_from(s, i as int, begin, in_tuple_struct)),
        decreases n - i,
    {
        let t = &input[i];
        assert(s[i as int] == t@);
        let ghost before = views(out@);
        let ghost old_out = out@;
        if in_tuple_struct && begin && t.is_int_literal() {
            match parse_index(t) {
                Ok(k) => {
                    out.push(index_token(t, k));
                    proof {
                        lemma_views_push(old_out, out@.last());
                        lemma_prepend_step(before, out@.last()@, rewrite_from(s, i + 1, false, in_tuple_struct));
                    }
                    i = i + 1;
                    begin = false;
                },
                Err(e) => {
                    return Err(e);
                },
            }
        } else if begin && t.is_punct('.') && i + 1 < n && input[i + 1].is_plain_ident() {
            i = i + 1;
            begin = false;
        } else if begin && t.is_punct('.') && i + 1 < n && input[i + 1].is_int_literal() {
            assert(s[i + 1] == input@[i + 1]@);
            match parse_index(&input[i + 1]) {
                Ok(k) => {
                    out.push(index_token(&input[i + 1], k));
                    proof {
                        lemma_views_push(old_out, out@.last());
                        lemma_prepend_step(before, out@.last()@, rewrite_from(s, i + 2, false, in_tuple_struct));
                    }
                    i = i + 2;
                    begin = false;
                },
                Err(e) => {
                    return Err(e);
                },
            }
        } else if t.is_ident_named("self") && n - i > 2 && input[i + 1].is_punct('.')
            && (input[i + 2].is_plain_ident() || input[i + 2].is_int_literal()) {
            assert(s[i + 1] == input@[i + 1]@);
            assert(s[i + 2] == input@[i + 2]@);
            i = i + 1;
            begin = true;
        } else {
            let next = t.begins_expr_after();
            out.push(t.duplicate());
            proof {
                lemma_views_push(old_out, out@.last());
                lemma_prepend_step(before, out@.last()@, rewrite_from(s, i + 1, next, in_tuple_struct));
            }
            i = i + 1;
            begin = next;
        }
    }
    assert(views(out@) + seq![] =~= views(out@));
    Ok(out)
}

/// The attribute's arguments: the format string and the rewritten
/// expressions after it, separating comma included.
pub struct DisplayArgs {
    pub fmt: Token,
    pub args: Vec<Token>,
}

/// Which grammar reads the arguments: that of a record with named fields
/// or that of one with positional fields.
#[derive(Clone, Copy, PartialEq, Eq, Structural, Debug)]
pub enum Parser {
    Struct,
    TupleStruct,
}

/// What the arguments `input` read as: the format string and the rewritten
/// rest, or why they are refused.
pub open spec fn parse_args(input: Seq<TokenView>, tuple: bool) -> Result<(TokenView, Seq<TokenView>), ArgsError> {
    if input.len() == 0 || !is_str_literal(input[0]) {
        Err(ArgsError::ExpectedFormatString)
    } else {
        match rewrite_from(input, 1, false, tuple) {
            Ok(rest) => Ok((input[0], rest)),
            Err(e) => Err(e),
        }
    }
}

impl View for DisplayArgs {
    type V = (TokenView, Seq<TokenView>);

    open spec fn view(&self) -> (TokenView, Seq<TokenView>) {
        (self.fmt@, views(self.args@))
    }
}

pub open spec fn display_args_view(r: Result<DisplayArgs, ArgsError>) -> Result<(TokenView, Seq<TokenView>), ArgsError> {
    match r {
        Ok(a) => Ok(a@),
        Err(e) => Err(e),
    }
}

fn parse_with(input: &Vec<Token>, tuple: bool) -> (r: Result<DisplayArgs, ArgsError>)
    ensures
        display_args_view(r) == parse_args(views(input@), tuple),
{
    if input.len() == 0 || !input[0].is_str_literal() {
        return Err(ArgsError::ExpectedFormatString);
    }
    assert(views(input@)[0] == input@[0]@);
    let fmt = input[0].duplicate();
    match parse_token_expr(input, 1, false, tuple) {
        Ok(args) => Ok(DisplayArgs { fmt, args }),
        Err(e) => Err(e),
    }
}

impl DisplayArgs {
    /// Reads the arguments given for a record with named fields.
    pub fn parse_struct(input: &Vec<Token>) -> (r: Result<DisplayArgs, ArgsError>)
        ensures
            display_args_view(r) == parse_args(views(input@), false),
    {
        parse_with(input, false)
    }

    /// Reads the arguments given for a record with positional fields.
    pub fn parse_tuple_struct(input: &Vec<Token>) -> (r: Result<DisplayArgs, ArgsError>)
        ensures
            display_args_view(r) == parse_args(views(input@), true),
    {
        parse_with(input, true)
    }

    /// The grammar for a record with positional fields or with named ones.
    pub fn get_parser(is_tuple_struct: bool) -> (r: Parser)
        ensures
            r == (if is_tuple_struct { Parser::TupleStruct } else { Parser::Struct }),
    {
        if is_tuple_struct {
            Parser::TupleStruct
        } else {
            Parser::Struct
        }
    }
}

impl Parser {
    pub fn parse(&self, input: &Vec<Token>) -> (r: Result<DisplayArgs, ArgsError>)
        ensures
            display_args_view(r) == parse_args(views(input@), *self == Parser::TupleStruct),
    {
        match self {
            Parser::Struct => DisplayArgs::parse_struct(input),
            Parser::TupleStruct => DisplayArgs::parse_tuple_struct(input),
        }
    }
}

} // verus!
