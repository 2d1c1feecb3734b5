//! The rendering method's body, and the expansion as a whole.
use vstd::prelude::*;
use crate::args::{parse_args, result_view, ArgsError, DisplayArgs};
use crate::fields::{canonical_fields, pattern, Fields, FieldsView, StructFields, StructFieldsView};
use crate::token::{ident_view, punct_view, push_token, views, Delimiter, Token, TokenView, CALL_SITE};

verus! {

/// `write!(__formatter, <fmt> <args>)`.
pub open spec fn write_call(fmt: TokenView, args: Seq<TokenView>) -> Seq<TokenView> {
    seq![
        ident_view("write"@, CALL_SITE),
        punct_view('!'),
        TokenView::Open { delim: Delimiter::Parenthesis, span: CALL_SITE },
        ident_view("__formatter"@, CALL_SITE),
        punct_view(','),
        fmt,
    ] + args + seq![TokenView::Close { delim: Delimiter::Parenthesis }]
}

/// `#[allow(unused_variables)] let Self <pattern> = self;`, which binds
/// every field to its canonical name; nothing for a record without fields.
pub open spec fn binding(f: StructFieldsView) -> Seq<TokenView> {
    if f is Unit {
        seq![]
    } else {
        seq![
            punct_view('#'),
            TokenView::Open { delim: Delimiter::Bracket, span: CALL_SITE },
            ident_view("allow"@, CALL_SITE),
            TokenView::Open { delim: Delimiter::Parenthesis, span: CALL_SITE },
            ident_view("unused_variables"@, CALL_SITE),
            TokenView::Close { delim: Delimiter::Parenthesis },
            TokenView::Close { delim: Delimiter::Bracket },
            ident_view("let"@, CALL_SITE),
            ident_view("Self"@, CALL_SITE),
        ] + pattern(f) + seq![punct_view('='), ident_view("self"@, CALL_SITE), punct_view(';')]
    }
}

/// The body of the rendering method.
pub open spec fn method_body(fmt: TokenView, args: Seq<TokenView>, f: StructFieldsView) -> Seq<TokenView> {
    binding(f) + write_call(fmt, args)
}

/// The body of the rendering method for the attribute arguments `args` on
/// a record with the fields `fields`, or why the arguments are refused.
pub open spec fn expansion(args: Seq<TokenView>, fields: FieldsView) -> Result<Seq<TokenView>, ArgsError> {
    let f = canonical_fields(fields);
    match parse_args(args, f is Tuple) {
        Ok((fmt, rest)) => Ok(method_body(fmt, rest, f)),
        Err(e) => Err(e),
    }
}

/// Everything the rendering method is made of.
pub struct Displayer {
    pub fmt: Token,
    pub args: Vec<Token>,
    pub struct_fields: StructFields,
}

impl Displayer {
    pub fn new(args: DisplayArgs, struct_fields: StructFields) -> (r: Result<Displayer, ArgsError>)
        ensures
            r matches Ok(d) && d.fmt@ == args.fmt@ && views(d.args@) == views(args.args@)
                && d.struct_fields@ == struct_fields@,
    {
        let DisplayArgs { fmt, args } = args;
        Ok(Displayer { fmt, args, struct_fields })
    }

    /// Appends the body of the rendering method to `tokens`.
    pub fn to_tokens(&self, tokens: &mut Vec<Token>)
        ensures
            views(final(tokens)@) == views(old(tokens)@)
                + method_body(self.fmt@, views(self.args@), self.struct_fields@),
    {
        let ghost start = views(tokens@);
        if !matches!(self.struct_fields, StructFields::UnitStruct) {
            push_token(tokens, Token::punct('#', false, CALL_SITE));
            push_token(tokens, Token::open(Delimiter::Bracket, CALL_SITE));
            push_token(tokens, Token::ident("allow", CALL_SITE));
            push_token(tokens, Token::open(Delimiter::Parenthesis, CALL_SITE));
            push_token(tokens, Token::ident("unused_variables", CALL_SITE));
            push_token(tokens, Token::close(Delimiter::Parenthesis));
            push_token(tokens, Token::close(Delimiter::Bracket));
            push_token(tokens, Token::ident("let", CALL_SITE));
            push_token(tokens, Token::ident("Self", CALL_SITE));
            self.struct_fields.to_tokens(tokens);
            push_token(tokens, Token::punct('=', false, CALL_SITE));
            push_token(tokens, Token::ident("self", CALL_SITE));
            push_token(tokens, Token::punct(';', false, CALL_SITE));
            assert(views(tokens@) =~= start + binding(self.struct_fields@));
        } else {
            assert(start + binding(self.struct_fields@) =~= start);
        }
        let ghost after_binding = views(tokens@);
        push_token(tokens, Token::ident("write", CALL_SITE));
        push_token(tokens, Token::punct('!', false, CALL_SITE));
        push_token(tokens, Token::open(Delimiter::Parenthesis, CALL_SITE));
        push_token(tokens, Token::ident("__formatter", CALL_SITE));
        push_token(tokens, Token::punct(',', false, CALL_SITE));
        push_token(tokens, self.fmt.duplicate());
        let mut i: usize = 0;
        let ghost head = views(tokens@);
        while i < self.args.len()
            invariant
                i <= self.args@.len(),
                views(tokens@) == head + views(self.args@).take(i as int),
            decreases self.args@.len() - i,
        {
            push_token(tokens, self.args[i].duplicate());
            assert(views(self.args@).take(i + 1) =~= views(self.args@).take(i as int).push(self.args@[i as int]@));
            assert(views(tokens@) =~= head + views(self.args@).take(i + 1));
            i = i + 1;
        }
        assert(views(self.args@).take(i as int) =~= views(self.args@));
        push_token(tokens, Token::close(Delimiter::Parenthesis));
        assert(views(tokens@) =~= after_binding + write_call(self.fmt@, views(self.args@)));
        assert(views(tokens@) =~= start + method_body(self.fmt@, views(self.args@), self.struct_fields@));
    }
}

/// The body of the rendering method for the attribute arguments `args` on
/// a record that declares `fields`.
pub fn display(args: &Vec<Token>, fields: Fields) -> (r: Result<Vec<Token>, ArgsError>)
    ensures
        result_view(r) == expansion(views(args@), fields@),
{
    let struct_fields = StructFields::from(fields);
    let parser = DisplayArgs::get_parser(struct_fields.is_tuple_struct());
    let display_args = match parser.parse(args) {
        Ok(a) => a,
        Err(e) => return Err(e),
    };
    let displayer = match Displayer::new(display_args, struct_fields) {
        Ok(d) => d,
        Err(e) => return Err(e),
    };
    let mut tokens: Vec<Token> = Vec::new();
    displayer.to_tokens(&mut tokens);
    assert(views(tokens@) =~= Seq::<TokenView>::empty()
        + method_body(displayer.fmt@, views(displayer.args@), displayer.struct_fields@));
    Ok(tokens)
}

} // verus!
