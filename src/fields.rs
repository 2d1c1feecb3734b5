//! A record's fields and the names the expansion binds them to.
use vstd::prelude::*;
use crate::text::{positional_field_name, positional_name};
use crate::token::{lemma_views_push, ident_view, punct_view, views, Delimiter, Token, TokenView, CALL_SITE};

verus! {

/// The fields a record declares.
pub enum Fields {
    /// The names of named fields, in declaration order.
    Named(Vec<String>),
    /// The number of positional fields.
    Unnamed(usize),
    /// No fields at all.
    Unit,
}

/// The canonical names of a record's fields.
pub enum StructFields {
    NormalStruct(Vec<String>),
    /// `_0`, `_1`, ... in declaration order.
    TupleStruct(Vec<String>),
    UnitStruct,
}

pub enum FieldsView {
    Named(Seq<Seq<char>>),
    Unnamed(nat),
    Unit,
}

pub enum StructFieldsView {
    Normal(Seq<Seq<char>>),
    Tuple(Seq<Seq<char>>),
    Unit,
}

pub open spec fn names_view(v: Seq<String>) -> Seq<Seq<char>> {
    v.map_values(|s: String| s@)
}

impl View for Fields {
    type V = FieldsView;

    open spec fn view(&self) -> FieldsView {
        match self {
            Fields::Named(ns) => FieldsView::Named(names_view(ns@)),
            Fields::Unnamed(n) => FieldsView::Unnamed(*n as nat),
            Fields::Unit => FieldsView::Unit,
        }
    }
}

impl View for StructFields {
    type V = StructFieldsView;

    open spec fn view(&self) -> StructFieldsView {
        match self {
            StructFields::NormalStruct(ns) => StructFieldsView::Normal(names_view(ns@)),
            StructFields::TupleStruct(ns) => StructFieldsView::Tuple(names_view(ns@)),
            StructFields::UnitStruct => StructFieldsView::Unit,
        }
    }
}

/// Named fields keep their names; positional field `k` is named `_k`.
pub open spec fn canonical_fields(f: FieldsView) -> StructFieldsView {
    match f {
        FieldsView::Named(ns) => StructFieldsView::Normal(ns),
        FieldsView::Unnamed(n) => StructFieldsView::Tuple(Seq::new(n, |k: int| positional_name(k as nat))),
        FieldsView::Unit => StructFieldsView::Unit,
    }
}

/// The names `ns` as identifiers separated by commas.
pub open spec fn comma_separated(ns: Seq<Seq<char>>) -> Seq<TokenView>
    decreases ns.len(),
{
    if ns.len() == 0 {
        seq![]
    } else if ns.len() == 1 {
        seq![ident_view(ns[0], CALL_SITE)]
    } else {
        comma_separated(ns.drop_last()) + seq![punct_view(','), ident_view(ns.last(), CALL_SITE)]
    }
}

/// The destructuring pattern that binds every field to its canonical name:
/// `{ a, b }`, `( _0, _1 )`, or nothing for a record without fields.
pub open spec fn pattern(f: StructFieldsView) -> Seq<TokenView> {
    match f {
        StructFieldsView::Normal(ns) => seq![TokenView::Open { delim: Delimiter::Brace, span: CALL_SITE }]
            + comma_separated(ns) + seq![TokenView::Close { delim: Delimiter::Brace }],
        StructFieldsView::Tuple(ns) => seq![TokenView::Open { delim: Delimiter::Parenthesis, span: CALL_SITE }]
            + comma_separated(ns) + seq![TokenView::Close { delim: Delimiter::Parenthesis }],
        StructFieldsView::Unit => seq![],
    }
}

/// Appends `ns` as identifiers separated by commas.
fn push_comma_separated(ns: &Vec<String>, tokens: &mut Vec<Token>)
    ensures
        views(final(tokens)@) == views(old(tokens)@) + comma_separated(names_view(ns@)),
{
    let ghost start = views(tokens@);
    let ghost all = names_view(ns@);
    let mut k: usize = 0;
    assert(all.take(0) =~= Seq::<Seq<char>>::empty());
    assert(start + seq![] =~= start);
    while k < ns.len()
        invariant
            k <= ns@.len(),
            all == names_view(ns@),
            views(tokens@) == start + comma_separated(all.take(k as int)),
        decreases ns@.len() - k,
    {
        let ghost prev_seq = tokens@;
        if k > 0 {
            tokens.push(Token::punct(',', false, CALL_SITE));
            proof { lemma_views_push(prev_seq, tokens@.last()); }
        }
        let ghost mid_seq = tokens@;
        tokens.push(Token::ident(ns[k].as_str(), CALL_SITE));
        proof {
            lemma_views_push(mid_seq, tokens@.last());
            assert(all.take(k + 1).drop_last() =~= all.take(k as int));
            assert(all.take(k + 1).last() == all[k as int]);
            assert(views(tokens@) =~= start + comma_separated(all.take(k + 1)));
        }
        k = k + 1;
    }
    assert(all.take(ns@.len() as int) =~= all);
}

impl StructFields {
    /// The canonical names of the declared `fields`.
    pub fn from(fields: Fields) -> (r: StructFields)
        ensures
            r@ == canonical_fields(fields@),
    {
        match fields {
            Fields::Named(ns) => StructFields::NormalStruct(ns),
            Fields::Unnamed(n) => {
                let mut ns: Vec<String> = Vec::new();
                let mut k: usize = 0;
                while k < n
                    invariant
                        k <= n,
                        names_view(ns@) =~= Seq::new(k as nat, |j: int| positional_name(j as nat)),
                    decreases n - k,
                {
                    let ghost prev = ns@;
                    ns.push(positional_field_name(k));
                    proof {
                        assert(ns@ == prev.push(ns@.last()));
                        assert(names_view(ns@) =~= names_view(prev).push(positional_name(k as nat)));
                    }
                    k = k + 1;
                }
                StructFields::TupleStruct(ns)
            },
            Fields::Unit => StructFields::UnitStruct,
        }
    }

    /// Whether the record has positional fields.
    pub fn is_tuple_struct(&self) -> (r: bool)
        ensures
            r == (self@ is Tuple),
    {
        if let StructFields::TupleStruct(_) = self {
            true
        } else {
            false
        }
    }

    /// Appends the destructuring pattern of these fields to `tokens`.
    pub fn to_tokens(&self, tokens: &mut Vec<Token>)
        ensures
            views(final(tokens)@) == views(old(tokens)@) + pattern(self@),
    {
        let ghost start = views(tokens@);
        match self {
            StructFields::NormalStruct(ns) => {
                self.push_group(ns, Delimiter::Brace, tokens);
            },
            StructFields::TupleStruct(ns) => {
                self.push_group(ns, Delimiter::Parenthesis, tokens);
            },
            StructFields::UnitStruct => {
                assert(start + seq![] =~= start);
            },
        }
    }

    fn push_group(&self, ns: &Vec<String>, delim: Delimiter, tokens: &mut Vec<Token>)
        ensures
            views(final(tokens)@) == views(old(tokens)@)
                + seq![TokenView::Open { delim, span: CALL_SITE }]
                + comma_separated(names_view(ns@)) + seq![TokenView::Close { delim }],
    {
        let ghost start = views(tokens@);
        let ghost s0 = tokens@;
        tokens.push(Token::open(delim, CALL_SITE));
        proof { lemma_views_push(s0, tokens@.last()); }
        push_comma_separated(ns, tokens);
        let ghost s1 = tokens@;
        tokens.push(Token::close(delim));
        proof {
            lemma_views_push(s1, tokens@.last());
            assert(views(tokens@) =~= start + seq![TokenView::Open { delim, span: CALL_SITE }]
                + comma_separated(names_view(ns@)) + seq![TokenView::Close { delim }]);
        }
    }
}

} // verus!
