//! How a rule depends on what follows its tokens: where a rule has read what
//! it needs, more tokens after that change nothing of what it gives.

use vstd::prelude::*;
use crate::error::ParseError;
use crate::grammar::{
    after_annotations, after_visibility, bare_field, generic_arguments, ident,
    lemma_more_arguments_shrink, lemma_type_expr_advances, more_arguments, punct,
    starts_with_punct, type_expr, type_tail, Outcome, Parsed, MARKER,
};
use crate::model::{FieldView, TypeView};
use crate::token::TokenView;

verus! {

/// Whether a stream that starts like `next` would carry a type expression
/// on: with `:` for a longer path, or with `<` for generic arguments.
pub open spec fn continues_type(next: Seq<TokenView>) -> bool {
    starts_with_punct(next, ':') || starts_with_punct(next, '<')
}

/// Annotations that are followed by a token are read the same whatever comes
/// after that token.
pub proof fn lemma_after_annotations_extends(s: Seq<TokenView>, next: Seq<TokenView>)
    requires
        after_annotations(s) matches Ok(rest) && rest.len() > 0,
    ensures
        after_annotations(s + next) == Outcome::<Seq<TokenView>>::Ok(
            after_annotations(s)->Ok_0 + next,
        ),
    decreases s.len(),
{
    if starts_with_punct(s, MARKER) {
        assert((s + next).skip(2) =~= s.skip(2) + next);
        lemma_after_annotations_extends(s.skip(2), next);
    }
}

/// A type expression is read the same whatever comes after it, unless it
/// ends the stream and what comes would carry it on.
pub proof fn lemma_type_expr_extends(s: Seq<TokenView>, unmet: ParseError, next: Seq<TokenView>)
    requires
        type_expr(s, unmet) matches Ok((_, rest)) && (rest.len() > 0 || !continues_type(next)),
    ensures
        type_expr(s + next, unmet) == Parsed::<TypeView>::Ok(
            (type_expr(s, unmet)->Ok_0.0, type_expr(s, unmet)->Ok_0.1 + next),
        ),
    decreases s.len(), 1nat,
{
    if let TokenView::Ident(first) = s[0] {
        assert((s + next).skip(1) =~= s.skip(1) + next);
        lemma_type_tail_extends(s.skip(1), first, next);
    }
}

/// The same for the rest of a type expression.
pub proof fn lemma_type_tail_extends(s: Seq<TokenView>, path: Seq<char>, next: Seq<TokenView>)
    requires
        type_tail(s, path) matches Ok((_, rest)) && (rest.len() > 0 || !continues_type(next)),
    ensures
        type_tail(s + next, path) == Parsed::<TypeView>::Ok(
            (type_tail(s, path)->Ok_0.0, type_tail(s, path)->Ok_0.1 + next),
        ),
    decreases s.len(), 0nat,
{
    if starts_with_punct(s, ':') {
        if let TokenView::Ident(segment) = s[2] {
            assert((s + next).skip(1) =~= s.skip(1) + next);
            assert((s + next).skip(3) =~= s.skip(3) + next);
            lemma_type_tail_extends(s.skip(3), path + "::"@ + segment, next);
        }
    } else if starts_with_punct(s, '<') {
        assert((s + next).skip(1) =~= s.skip(1) + next);
        let rest = generic_arguments(s.skip(1))->Ok_0.1;
        lemma_generic_arguments_extend(s.skip(1), next);
        assert((rest + next).skip(1) =~= rest.skip(1) + next);
    } else if s.len() == 0 {
        assert(s + next =~= next);
    }
}

/// Generic arguments that are followed by a token are read the same
/// whatever comes after that token.
pub proof fn lemma_generic_arguments_extend(s: Seq<TokenView>, next: Seq<TokenView>)
    requires
        generic_arguments(s) matches Ok((_, rest)) && rest.len() > 0,
    ensures
        generic_arguments(s + next) == Parsed::<Seq<char>>::Ok(
            (generic_arguments(s)->Ok_0.0, generic_arguments(s)->Ok_0.1 + next),
        ),
    decreases s.len(), 2nat,
{
    let unmet = ParseError::ExpectedGenericArgument;
    let (first, rest) = type_expr(s, unmet)->Ok_0;
    lemma_type_expr_advances(s, unmet);
    lemma_more_arguments_shrink(rest, first.path);
    lemma_type_expr_extends(s, unmet, next);
    lemma_more_arguments_extend(rest, first.path, next);
}

/// The same for the arguments after the first.
pub proof fn lemma_more_arguments_extend(
    s: Seq<TokenView>,
    arguments: Seq<char>,
    next: Seq<TokenView>,
)
    requires
        more_arguments(s, arguments) matches Ok((_, rest)) && rest.len() > 0,
    ensures
        more_arguments(s + next, arguments) == Parsed::<Seq<char>>::Ok(
            (more_arguments(s, arguments)->Ok_0.0, more_arguments(s, arguments)->Ok_0.1 + next),
        ),
    decreases s.len(), 0nat,
{
    if starts_with_punct(s, ',') {
        let unmet = ParseError::ExpectedGenericArgument;
        let (argument, rest) = type_expr(s.skip(1), unmet)->Ok_0;
        assert((s + next).skip(1) =~= s.skip(1) + next);
        lemma_type_expr_advances(s.skip(1), unmet);
        lemma_more_arguments_shrink(rest, arguments + ", "@ + argument.path);
        lemma_type_expr_extends(s.skip(1), unmet, next);
        lemma_more_arguments_extend(rest, arguments + ", "@ + argument.path, next);
    }
}

/// A field up to its type is read the same whatever comes after it, unless
/// it ends the stream and what comes would carry its type on.
pub proof fn lemma_bare_field_extends(s: Seq<TokenView>, next: Seq<TokenView>)
    requires
        bare_field(s) matches Ok((_, rest)) && (rest.len() > 0 || !continues_type(next)),
    ensures
        bare_field(s + next) == Parsed::<FieldView>::Ok(
            (bare_field(s)->Ok_0.0, bare_field(s)->Ok_0.1 + next),
        ),
{
    let s1 = after_annotations(s)->Ok_0;
    lemma_after_annotations_extends(s, next);
    let v1 = after_visibility(s1);
    assert(after_visibility(s1 + next) =~= v1 + next);
    let s2 = ident(v1, ParseError::ExpectedFieldName)->Ok_0.1;
    assert((v1 + next).skip(1) =~= s2 + next);
    let s3 = punct(s2, ParseError::ExpectedDelimiter)->Ok_0.1;
    assert((s2 + next).skip(1) =~= s3 + next);
    lemma_type_expr_extends(s3, ParseError::ExpectedFieldType, next);
}

} // verus!
