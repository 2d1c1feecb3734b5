//! Properties of the expansion as a whole.
use vstd::prelude::*;
use crate::args::{index_ident, index_of, parse_args, rewrite_from, ArgsError};
use crate::displayer::{binding, expansion, write_call};
use crate::fields::{canonical_fields, FieldsView, StructFieldsView};
use crate::text::positional_name;
use crate::token::{is_ident_named, is_int_literal, is_punct, is_str_literal, TokenView};

verus! {

/// For a record with named fields, argument tokens without any `.` are
/// handed on unchanged: plain field names, keyed arguments `name = expr`
/// and integer literals alike.
pub proof fn lemma_named_arguments_unchanged(s: Seq<TokenView>, i: int, begin: bool)
    requires
        0 <= i <= s.len(),
        forall|j: int| i <= j < s.len() ==> !is_punct(#[trigger] s[j], '.'),
    ensures
        rewrite_from(s, i, begin, false) == Ok::<Seq<TokenView>, ArgsError>(s.subrange(i, s.len() as int)),
    decreases s.len() - i,
{
    if i < s.len() {
        lemma_named_arguments_unchanged(s, i + 1, crate::token::begins_expr_after(s[i]));
        assert(seq![s[i]] + s.subrange(i + 1, s.len() as int) =~= s.subrange(i, s.len() as int));
    } else {
        assert(s.subrange(i, s.len() as int) =~= Seq::<TokenView>::empty());
    }
}

/// For a record with named fields, a format string followed by arguments
/// without any `.` expands to a binding of every field under its declared
/// name, then a formatting call that gets the format string and those
/// arguments unchanged. So `"{} and {}", a, b` and `"{a} and {b}"` both
/// refer to the same bindings `a` and `b`.
pub proof fn lemma_named_record_expansion(args: Seq<TokenView>, names: Seq<Seq<char>>)
    requires
        args.len() > 0,
        is_str_literal(args[0]),
        forall|j: int| 1 <= j < args.len() ==> !is_punct(#[trigger] args[j], '.'),
    ensures
        canonical_fields(FieldsView::Named(names)) == StructFieldsView::Normal(names),
        expansion(args, FieldsView::Named(names)) == Ok::<Seq<TokenView>, ArgsError>(
            binding(StructFieldsView::Normal(names))
                + write_call(args[0], args.subrange(1, args.len() as int)),
        ),
{
    lemma_named_arguments_unchanged(args, 1, false);
}

/// In a record with positional fields, the argument `N` and the argument
/// `self.N` both become the name `_N` that the binding gives field `N`.
pub proof fn lemma_index_and_self_index_agree(
    fmt: TokenView,
    comma: TokenView,
    self_token: TokenView,
    dot: TokenView,
    index: TokenView,
    count: nat,
)
    requires
        is_str_literal(fmt),
        is_punct(comma, ','),
        is_ident_named(self_token, "self"@),
        is_punct(dot, '.'),
        is_int_literal(index),
        index_of(index) is Ok,
    ensures
        parse_args(seq![fmt, comma, index], true) == parse_args(seq![fmt, comma, self_token, dot, index], true),
        parse_args(seq![fmt, comma, index], true) == Ok::<(TokenView, Seq<TokenView>), ArgsError>(
            (fmt, seq![comma, index_ident(index, index_of(index)->Ok_0)]),
        ),
        index_of(index)->Ok_0 < count ==> canonical_fields(FieldsView::Unnamed(count))
            == StructFieldsView::Tuple(Seq::new(count, |k: int| positional_name(k as nat)))
            && positional_name(index_of(index)->Ok_0) == Seq::new(count, |k: int| positional_name(k as nat))[index_of(index)->Ok_0 as int],
{
    let n = index_of(index)->Ok_0;
    let a = seq![fmt, comma, index];
    let b = seq![fmt, comma, self_token, dot, index];
    reveal_with_fuel(rewrite_from, 4);
    assert(rewrite_from(a, 3, false, true) == Ok::<Seq<TokenView>, ArgsError>(seq![]));
    assert(rewrite_from(a, 2, true, true) == Ok::<Seq<TokenView>, ArgsError>(seq![index_ident(index, n)])) by {
        assert(seq![index_ident(index, n)] + Seq::<TokenView>::empty() =~= seq![index_ident(index, n)]);
    }
    assert(rewrite_from(a, 1, false, true) == Ok::<Seq<TokenView>, ArgsError>(seq![comma, index_ident(index, n)])) by {
        assert(seq![comma] + seq![index_ident(index, n)] =~= seq![comma, index_ident(index, n)]);
    }
    assert(rewrite_from(b, 5, false, true) == Ok::<Seq<TokenView>, ArgsError>(seq![]));
    assert(rewrite_from(b, 3, true, true) == Ok::<Seq<TokenView>, ArgsError>(seq![index_ident(index, n)])) by {
        assert(seq![index_ident(index, n)] + Seq::<TokenView>::empty() =~= seq![index_ident(index, n)]);
    }
    assert(rewrite_from(b, 2, true, true) == rewrite_from(b, 3, true, true));
    assert(rewrite_from(b, 1, false, true) == Ok::<Seq<TokenView>, ArgsError>(seq![comma, index_ident(index, n)])) by {
        assert(seq![comma] + seq![index_ident(index, n)] =~= seq![comma, index_ident(index, n)]);
    }
}

/// Whatever the record, a successful expansion hands the format string to
/// the formatting call verbatim, specifiers such as `:?` and inline names
/// included.
pub proof fn lemma_template_kept(args: Seq<TokenView>, fields: FieldsView)
    requires
        expansion(args, fields) is Ok,
    ensures
        expansion(args, fields)->Ok_0[binding(canonical_fields(fields)).len() as int + 5] == args[0],
        is_str_literal(args[0]),
{
}

/// A record without fields, given a format string alone, expands to the
/// formatting call with that format string and nothing else: no binding
/// comes before it.
pub proof fn lemma_unit_record_expansion(fmt: TokenView)
    requires
        is_str_literal(fmt),
    ensures
        expansion(seq![fmt], FieldsView::Unit) == Ok::<Seq<TokenView>, ArgsError>(write_call(fmt, seq![])),
        binding(StructFieldsView::Unit) == Seq::<TokenView>::empty(),
{
    assert(binding(StructFieldsView::Unit) + write_call(fmt, seq![]) =~= write_call(fmt, seq![]));
}

/// The expansion depends on the attribute's arguments and the record's
/// fields alone: the same input always gives the same output.
pub proof fn lemma_expansion_deterministic(
    args1: Seq<TokenView>,
    fields1: FieldsView,
    args2: Seq<TokenView>,
    fields2: FieldsView,
)
    requires
        args1 == args2,
        fields1 == fields2,
    ensures
        expansion(args1, fields1) == expansion(args2, fields2),
{
}

} // verus!
