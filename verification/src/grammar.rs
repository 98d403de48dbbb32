//! The grammar of a record declaration, stated as functions on token
//! streams. Each function takes what is left of a stream and says either
//! what the rule reads there and what it leaves, or which expectation the
//! stream fails to meet.

use vstd::prelude::*;
use crate::error::ParseError;
use crate::model::{DataView, FieldView, StructView, TypeView, Visibility};
use crate::token::TokenView;

verus! {

/// The punctuation that opens an annotation.
pub const MARKER: char = '#';

/// What a rule gives, or the expectation that the stream fails to meet.
pub type Outcome<T> = Result<T, ParseError>;

/// What a rule reads, together with the rest of the stream.
pub type Parsed<T> = Outcome<(T, Seq<TokenView>)>;

/// Whether the stream starts with the punctuation `c`.
pub open spec fn starts_with_punct(s: Seq<TokenView>, c: char) -> bool {
    s.len() > 0 && s[0] == TokenView::Punct(c)
}

/// Whether the stream starts with the identifier `text`.
pub open spec fn starts_with_ident(s: Seq<TokenView>, text: Seq<char>) -> bool {
    s.len() > 0 && s[0] == TokenView::Ident(text)
}

/// The punctuation that the stream starts with, if it starts with any.
pub open spec fn leading_punct(s: Seq<TokenView>) -> Option<char> {
    if s.len() > 0 {
        match s[0] {
            TokenView::Punct(c) => Some(c),
            _ => None,
        }
    } else {
        None
    }
}

/// A required identifier: its text. `unmet` is the error where the next
/// token is of another kind.
pub open spec fn ident(s: Seq<TokenView>, unmet: ParseError) -> Parsed<Seq<char>> {
    if s.len() == 0 {
        Err(ParseError::UnexpectedEnd)
    } else {
        match s[0] {
            TokenView::Ident(text) => Ok((text, s.skip(1))),
            _ => Err(unmet),
        }
    }
}

/// A required punctuation mark: its character.
pub open spec fn punct(s: Seq<TokenView>, unmet: ParseError) -> Parsed<char> {
    if s.len() == 0 {
        Err(ParseError::UnexpectedEnd)
    } else {
        match s[0] {
            TokenView::Punct(c) => Ok((c, s.skip(1))),
            _ => Err(unmet),
        }
    }
}

/// A required delimited group: the stream between its delimiters.
pub open spec fn group(s: Seq<TokenView>, unmet: ParseError) -> Parsed<Seq<TokenView>> {
    if s.len() == 0 {
        Err(ParseError::UnexpectedEnd)
    } else {
        match s[0] {
            TokenView::Group(inner) => Ok((inner, s.skip(1))),
            _ => Err(unmet),
        }
    }
}

/// What is left after an optional `pub`.
pub open spec fn after_visibility(s: Seq<TokenView>) -> Seq<TokenView> {
    if starts_with_ident(s, "pub"@) {
        s.skip(1)
    } else {
        s
    }
}

/// What is left after one optional punctuation mark, whichever it is.
pub open spec fn after_separator(s: Seq<TokenView>) -> Seq<TokenView> {
    if leading_punct(s) is Some {
        s.skip(1)
    } else {
        s
    }
}

/// What is left after the annotations that the stream starts with. An
/// annotation is the marker and the one token after it, which holds the
/// payload and is not looked into.
pub open spec fn after_annotations(s: Seq<TokenView>) -> Outcome<Seq<TokenView>>
    decreases s.len(),
{
    if starts_with_punct(s, MARKER) {
        if s.len() < 2 {
            Err(ParseError::UnexpectedEnd)
        } else {
            after_annotations(s.skip(2))
        }
    } else {
        Ok(s)
    }
}

/// The type that a path stands for once its generic arguments, rendered as
/// `arguments`, are known: `Option<..>` gives way to its argument, any other
/// path keeps its arguments between angle brackets.
pub open spec fn generic_type(path: Seq<char>, arguments: Seq<char>) -> TypeView {
    if path == "Option"@ {
        TypeView { is_option: true, path: arguments }
    } else {
        TypeView { is_option: false, path: path + "<"@ + arguments + ">"@ }
    }
}

/// A type expression: a path of identifiers joined by `::`, then at most one
/// list of generic arguments between `<` and `>`.
pub open spec fn type_expr(s: Seq<TokenView>, unmet: ParseError) -> Parsed<TypeView>
    decreases s.len(), 1nat,
{
    if s.len() == 0 {
        Err(ParseError::UnexpectedEnd)
    } else {
        match s[0] {
            TokenView::Ident(first) => type_tail(s.skip(1), first),
            _ => Err(unmet),
        }
    }
}

/// The rest of a type expression whose path so far reads `path`.
pub open spec fn type_tail(s: Seq<TokenView>, path: Seq<char>) -> Parsed<TypeView>
    decreases s.len(), 0nat,
{
    if starts_with_punct(s, ':') {
        if !starts_with_punct(s.skip(1), ':') {
            Err(ParseError::ExpectedSecondColon)
        } else if s.len() < 3 {
            Err(ParseError::UnexpectedEnd)
        } else {
            match s[2] {
                TokenView::Ident(segment) => type_tail(s.skip(3), path + "::"@ + segment),
                _ => Err(ParseError::ExpectedPathSegment),
            }
        }
    } else if starts_with_punct(s, '<') {
        match generic_arguments(s.skip(1)) {
            Ok((arguments, rest)) => {
                if starts_with_punct(rest, '>') {
                    Ok((generic_type(path, arguments), rest.skip(1)))
                } else {
                    Err(ParseError::ExpectedClosingBracket)
                }
            },
            Err(e) => Err(e),
        }
    } else {
        Ok((TypeView { is_option: false, path }, s))
    }
}

/// One or more type expressions separated by `,`: their paths joined by
/// `", "`. An argument that is itself `Option<..>` counts as what it wraps.
pub open spec fn generic_arguments(s: Seq<TokenView>) -> Parsed<Seq<char>>
    decreases s.len(), 2nat,
{
    match type_expr(s, ParseError::ExpectedGenericArgument) {
        // A type expression takes at least one token (`lemma_type_expr_advances`);
        // the test on the lengths is there for the recursion to be well founded.
        Ok((first, rest)) if rest.len() < s.len() => more_arguments(rest, first.path),
        Ok(_) => Err(ParseError::ExpectedGenericArgument),
        Err(e) => Err(e),
    }
}

/// The arguments after the first, where `arguments` renders those read so far.
pub open spec fn more_arguments(s: Seq<TokenView>, arguments: Seq<char>) -> Parsed<Seq<char>>
    decreases s.len(), 0nat,
{
    if starts_with_punct(s, ',') {
        match type_expr(s.skip(1), ParseError::ExpectedGenericArgument) {
            Ok((next, rest)) if rest.len() < s.len() => more_arguments(
                rest,
                arguments + ", "@ + next.path,
            ),
            Ok(_) => Err(ParseError::ExpectedGenericArgument),
            Err(e) => Err(e),
        }
    } else {
        Ok((arguments, s))
    }
}

/// One field up to the end of its type: annotations, an optional `pub`, the
/// name, `:` and the type. Neither the annotations nor the `pub` leave a
/// trace.
pub open spec fn bare_field(s: Seq<TokenView>) -> Parsed<FieldView> {
    match after_annotations(s) {
        Ok(s1) => match ident(after_visibility(s1), ParseError::ExpectedFieldName) {
            Ok((field_name, s2)) => match punct(s2, ParseError::ExpectedDelimiter) {
                Ok((delimiter, s3)) => {
                    if delimiter != ':' {
                        Err(ParseError::WrongDelimiter)
                    } else {
                        match type_expr(s3, ParseError::ExpectedFieldType) {
                            Ok((ty, s4)) => Ok(
                                (
                                    FieldView {
                                        attributes: Seq::empty(),
                                        vis: Visibility::Public,
                                        field_name,
                                        ty,
                                    },
                                    s4,
                                ),
                            ),
                            Err(e) => Err(e),
                        }
                    }
                },
                Err(e) => Err(e),
            },
            Err(e) => Err(e),
        },
        Err(e) => Err(e),
    }
}

/// One field with the separator after it, if there is one.
pub open spec fn field(s: Seq<TokenView>) -> Parsed<FieldView> {
    match bare_field(s) {
        Ok((parsed, rest)) => Ok((parsed, after_separator(rest))),
        Err(e) => Err(e),
    }
}

/// The fields of a body, in the order written, up to the end of the stream.
pub open spec fn fields(s: Seq<TokenView>) -> Outcome<Seq<FieldView>>
    decreases s.len(),
{
    if s.len() == 0 {
        Ok(Seq::empty())
    } else {
        match field(s) {
            // A field takes at least one token (`lemma_field_advances`).
            Ok((first, rest)) if rest.len() < s.len() => match fields(rest) {
                Ok(others) => Ok(seq![first] + others),
                Err(e) => Err(e),
            },
            Ok(_) => Err(ParseError::ExpectedFieldName),
            Err(e) => Err(e),
        }
    }
}

/// The declaration keyword, given the first identifier of the declaration
/// and what follows it: the identifier after `pub`, or else the first itself.
pub open spec fn keyword(first: Seq<char>, s: Seq<TokenView>) -> Parsed<Seq<char>> {
    if first == "pub"@ {
        ident(s, ParseError::UnsupportedVisibility)
    } else {
        Ok((first, s))
    }
}

/// A whole declaration: annotations, an optional `pub`, `struct`, the name
/// and the body, with nothing after it.
pub open spec fn declaration(s: Seq<TokenView>) -> Outcome<DataView> {
    match after_annotations(s) {
        Ok(s1) => match ident(s1, ParseError::ExpectedIdent) {
            Ok((first, s2)) => match keyword(first, s2) {
                Ok((word, s3)) => {
                    if word != "struct"@ {
                        Err(ParseError::ExpectedStruct)
                    } else {
                        match ident(s3, ParseError::UnnamedStruct) {
                            Ok((name, s4)) => match group(s4, ParseError::ExpectedBody) {
                                Ok((body, s5)) => match fields(body) {
                                    Ok(fields) => {
                                        if s5.len() != 0 {
                                            Err(ParseError::TrailingTokens)
                                        } else {
                                            Ok(DataView::Struct(StructView { name, fields }))
                                        }
                                    },
                                    Err(e) => Err(e),
                                },
                                Err(e) => Err(e),
                            },
                            Err(e) => Err(e),
                        }
                    }
                },
                Err(e) => Err(e),
            },
            Err(e) => Err(e),
        },
        Err(e) => Err(e),
    }
}

/// Annotations are taken from the front: what is left is no longer than
/// the stream.
pub proof fn lemma_after_annotations_shrinks(s: Seq<TokenView>)
    ensures
        after_annotations(s) matches Ok(rest) ==> rest.len() <= s.len(),
    decreases s.len(),
{
    if starts_with_punct(s, MARKER) && s.len() >= 2 {
        lemma_after_annotations_shrinks(s.skip(2));
    }
}

/// A type expression takes at least one token.
pub proof fn lemma_type_expr_advances(s: Seq<TokenView>, unmet: ParseError)
    ensures
        type_expr(s, unmet) matches Ok((_, rest)) ==> rest.len() < s.len(),
    decreases s.len(), 1nat,
{
    if s.len() > 0 {
        if let TokenView::Ident(first) = s[0] {
            lemma_type_tail_shrinks(s.skip(1), first);
        }
    }
}

/// What is left after the rest of a type expression is no longer than what
/// it started from.
pub proof fn lemma_type_tail_shrinks(s: Seq<TokenView>, path: Seq<char>)
    ensures
        type_tail(s, path) matches Ok((_, rest)) ==> rest.len() <= s.len(),
    decreases s.len(), 0nat,
{
    if starts_with_punct(s, ':') {
        if starts_with_punct(s.skip(1), ':') && s.len() >= 3 {
            if let TokenView::Ident(segment) = s[2] {
                lemma_type_tail_shrinks(s.skip(3), path + "::"@ + segment);
            }
        }
    } else if starts_with_punct(s, '<') {
        lemma_generic_arguments_advance(s.skip(1));
    }
}

/// A list of generic arguments takes at least one token.
pub proof fn lemma_generic_arguments_advance(s: Seq<TokenView>)
    ensures
        generic_arguments(s) matches Ok((_, rest)) ==> rest.len() < s.len(),
    decreases s.len(), 2nat,
{
    lemma_type_expr_advances(s, ParseError::ExpectedGenericArgument);
    if let Ok((first, rest)) = type_expr(s, ParseError::ExpectedGenericArgument) {
        lemma_more_arguments_shrink(rest, first.path);
    }
}

/// What is left after further generic arguments is no longer than what they
/// started from.
pub proof fn lemma_more_arguments_shrink(s: Seq<TokenView>, arguments: Seq<char>)
    ensures
        more_arguments(s, arguments) matches Ok((_, rest)) ==> rest.len() <= s.len(),
    decreases s.len(), 0nat,
{
    if starts_with_punct(s, ',') {
        lemma_type_expr_advances(s.skip(1), ParseError::ExpectedGenericArgument);
        if let Ok((next, rest)) = type_expr(s.skip(1), ParseError::ExpectedGenericArgument) {
            lemma_more_arguments_shrink(rest, arguments + ", "@ + next.path);
        }
    }
}

/// A field takes at least one token.
pub proof fn lemma_field_advances(s: Seq<TokenView>)
    ensures
        field(s) matches Ok((_, rest)) ==> rest.len() < s.len(),
{
    lemma_after_annotations_shrinks(s);
    if let Ok(s1) = after_annotations(s) {
        if let Ok((_, s2)) = ident(after_visibility(s1), ParseError::ExpectedFieldName) {
            if let Ok((_, s3)) = punct(s2, ParseError::ExpectedDelimiter) {
                lemma_type_expr_advances(s3, ParseError::ExpectedFieldType);
            }
        }
    }
}

} // verus!
