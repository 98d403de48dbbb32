//! What holds of every declaration that the grammar reads, stated over
//! streams as they are written.

use vstd::prelude::*;
use crate::context::{
    continues_type, lemma_after_annotations_extends, lemma_bare_field_extends,
    lemma_type_expr_extends,
};
use crate::error::ParseError;
use crate::grammar::{
    after_annotations, bare_field, declaration, field, fields, generic_arguments, group, ident,
    keyword, lemma_field_advances, lemma_type_expr_advances, more_arguments, starts_with_ident, type_expr,
    type_tail, Outcome, Parsed,
};
use crate::model::{DataView, FieldView, TypeView, Visibility};
use crate::token::TokenView;
use crate::written::{
    annotation_tokens, argument_text, field_of, field_tokens, generic_tokens, ident_tokens,
    more_argument_tokens, option_tokens, optional, pair_tokens, path_tail_tokens, path_text, plain,
    public_tokens, record_of, record_tokens, restricted_tokens, separated, type_of, type_tokens,
};

verus! {

/// The keywords are three different words.
proof fn lemma_keywords_differ()
    ensures
        "struct"@ != "pub"@,
        "Option"@ != "pub"@,
        "Option"@ != "struct"@,
{
    reveal_strlit("struct");
    reveal_strlit("pub");
    reveal_strlit("Option");
    assert("struct"@.len() == 6);
    assert("pub"@.len() == 3);
    assert("Option"@[0] == 'O');
    assert("struct"@[0] == 's');
}

/// A single identifier, followed by nothing that would carry the type on,
/// is a type that is not optional and whose path is the identifier as
/// written.
pub proof fn law_plain_type(ty: Seq<char>, next: Seq<TokenView>, unmet: ParseError)
    requires
        !continues_type(next),
    ensures
        type_expr(ident_tokens(ty) + next, unmet) == Parsed::<TypeView>::Ok((plain(ty), next)),
{
    let s = ident_tokens(ty) + next;
    assert(s.skip(1) =~= next);
}

/// Generic arguments that are one identifier each, up to the closing
/// bracket: `a` alone, and `a, b`.
proof fn lemma_plain_arguments(a: Seq<char>, b: Seq<char>, next: Seq<TokenView>)
    ensures
        generic_arguments(ident_tokens(a) + (seq![TokenView::Punct('>')] + next))
            == Parsed::<Seq<char>>::Ok((a, seq![TokenView::Punct('>')] + next)),
        generic_arguments(
            pair_tokens(ident_tokens(a), ident_tokens(b)) + (seq![TokenView::Punct('>')] + next),
        ) == Parsed::<Seq<char>>::Ok((a + ", "@ + b, seq![TokenView::Punct('>')] + next)),
{
    let unmet = ParseError::ExpectedGenericArgument;
    let close = seq![TokenView::Punct('>')] + next;
    law_plain_type(a, close, unmet);

    let second = seq![TokenView::Punct(',')] + (ident_tokens(b) + close);
    law_plain_type(a, second, unmet);
    law_plain_type(b, close, unmet);
    assert(second.skip(1) =~= ident_tokens(b) + close);
    assert(pair_tokens(ident_tokens(a), ident_tokens(b)) + close =~= ident_tokens(a) + second);
}

/// The type `g<..>` is read from the arguments between its brackets.
proof fn lemma_generic_tokens(
    g: Seq<char>,
    arguments: Seq<TokenView>,
    next: Seq<TokenView>,
    unmet: ParseError,
)
    ensures
        type_expr(generic_tokens(g, arguments) + next, unmet) == type_tail(
            seq![TokenView::Punct('<')] + (arguments + (seq![TokenView::Punct('>')] + next)),
            g,
        ),
        (seq![TokenView::Punct('<')] + (arguments + (seq![TokenView::Punct('>')] + next))).skip(1)
            == arguments + (seq![TokenView::Punct('>')] + next),
        (seq![TokenView::Punct('>')] + next).skip(1) == next,
{
    let close = seq![TokenView::Punct('>')] + next;
    let bracketed = seq![TokenView::Punct('<')] + (arguments + close);
    let s = generic_tokens(g, arguments) + next;
    assert(s.skip(1) =~= bracketed);
    assert(bracketed.skip(1) =~= arguments + close);
    assert(close.skip(1) =~= next);
}

/// `Option<inner>`, with one identifier for `inner`, is an optional type
/// whose path is `inner` as written.
pub proof fn law_option_type(inner: Seq<char>, next: Seq<TokenView>, unmet: ParseError)
    ensures
        type_expr(option_tokens(ident_tokens(inner)) + next, unmet) == Parsed::<TypeView>::Ok(
            (optional(inner), next),
        ),
{
    lemma_plain_arguments(inner, inner, next);
    lemma_generic_tokens("Option"@, ident_tokens(inner), next, unmet);
}

/// `g<a>`, where `g` is not `Option`, is a type that is not optional and
/// whose path reads `g<a>`.
pub proof fn law_generic_type(g: Seq<char>, a: Seq<char>, next: Seq<TokenView>, unmet: ParseError)
    requires
        g != "Option"@,
    ensures
        type_expr(generic_tokens(g, ident_tokens(a)) + next, unmet) == Parsed::<TypeView>::Ok(
            (plain(g + "<"@ + a + ">"@), next),
        ),
{
    lemma_plain_arguments(a, a, next);
    lemma_generic_tokens(g, ident_tokens(a), next, unmet);
}

/// `g<a, b>`, where `g` is not `Option`, is a type that is not optional and
/// whose path reads `g<a, b>`.
pub proof fn law_generic_type_of_two(
    g: Seq<char>,
    a: Seq<char>,
    b: Seq<char>,
    next: Seq<TokenView>,
    unmet: ParseError,
)
    requires
        g != "Option"@,
    ensures
        type_expr(
            generic_tokens(g, pair_tokens(ident_tokens(a), ident_tokens(b))) + next,
            unmet,
        ) == Parsed::<TypeView>::Ok((plain(g + "<"@ + a + ", "@ + b + ">"@), next)),
{
    assert(g + "<"@ + (a + ", "@ + b) + ">"@ =~= g + "<"@ + a + ", "@ + b + ">"@);
    lemma_plain_arguments(a, b, next);
    lemma_generic_tokens(g, pair_tokens(ident_tokens(a), ident_tokens(b)), next, unmet);
}

/// `Option<g<a, b>>`, where `g` is not `Option`, is an optional type whose
/// path reads `g<a, b>`.
pub proof fn law_option_of_generic_type(
    g: Seq<char>,
    a: Seq<char>,
    b: Seq<char>,
    next: Seq<TokenView>,
    unmet: ParseError,
)
    requires
        g != "Option"@,
    ensures
        type_expr(
            option_tokens(generic_tokens(g, pair_tokens(ident_tokens(a), ident_tokens(b))))
                + next,
            unmet,
        ) == Parsed::<TypeView>::Ok((optional(g + "<"@ + a + ", "@ + b + ">"@), next)),
{
    let wrapped = generic_tokens(g, pair_tokens(ident_tokens(a), ident_tokens(b)));
    let close = seq![TokenView::Punct('>')] + next;
    law_generic_type_of_two(g, a, b, close, ParseError::ExpectedGenericArgument);
    lemma_generic_tokens("Option"@, wrapped, next, unmet);
    assert(close.len() < (wrapped + close).len());
    assert(generic_arguments(wrapped + close) == Parsed::<Seq<char>>::Ok(
        (g + "<"@ + a + ", "@ + b + ">"@, close),
    ));
}

/// Path segments are joined from the left, whatever follows them.
proof fn lemma_path_tail(more: Seq<Seq<char>>, path: Seq<char>, rest: Seq<TokenView>)
    ensures
        type_tail(path_tail_tokens(more) + rest, path) == type_tail(rest, path_text(path, more)),
    decreases more.len(),
{
    if more.len() == 0 {
        assert(path_tail_tokens(more) + rest =~= rest);
    } else {
        let s = path_tail_tokens(more) + rest;
        assert(s.skip(1)[0] == TokenView::Punct(':'));
        assert(s.skip(3) =~= path_tail_tokens(more.skip(1)) + rest);
        lemma_path_tail(more.skip(1), path + "::"@ + more[0], rest);
    }
}

/// Generic arguments are joined from the left, up to the closing bracket.
proof fn lemma_more_arguments(
    more: Seq<Seq<TokenView>>,
    types: Seq<TypeView>,
    arguments: Seq<char>,
    next: Seq<TokenView>,
)
    requires
        more.len() == types.len(),
        forall|i: int|
            0 <= i < more.len() ==> #[trigger] type_expr(
                more[i],
                ParseError::ExpectedGenericArgument,
            ) == Parsed::<TypeView>::Ok((types[i], Seq::empty())),
    ensures
        more_arguments(
            more_argument_tokens(more) + seq![TokenView::Punct('>')] + next,
            arguments,
        ) == Parsed::<Seq<char>>::Ok(
            (argument_text(arguments, types), seq![TokenView::Punct('>')] + next),
        ),
    decreases more.len(),
{
    let close = seq![TokenView::Punct('>')] + next;
    let s = more_argument_tokens(more) + seq![TokenView::Punct('>')] + next;
    if more.len() == 0 {
        assert(s =~= close);
    } else {
        let unmet = ParseError::ExpectedGenericArgument;
        let following = more_argument_tokens(more.skip(1)) + seq![TokenView::Punct('>')] + next;
        assert(s.skip(1) =~= more[0] + following);
        assert(type_expr(more[0], unmet) == Parsed::<TypeView>::Ok((types[0], Seq::empty())));
        assert(!continues_type(following)) by {
            if more.len() == 1 {
                assert(following =~= close);
            }
        }
        lemma_type_expr_extends(more[0], unmet, following);
        assert(Seq::<TokenView>::empty() + following =~= following);
        lemma_type_expr_advances(more[0], unmet);
        assert forall|i: int| 0 <= i < more.skip(1).len() implies #[trigger] type_expr(
            more.skip(1)[i],
            unmet,
        ) == Parsed::<TypeView>::Ok((types.skip(1)[i], Seq::empty())) by {
            assert(more.skip(1)[i] == more[i + 1]);
        }
        lemma_more_arguments(
            more.skip(1),
            types.skip(1),
            arguments + ", "@ + types[0].path,
            next,
        );
    }
}

/// A type is read as it is written: its path is the segments joined by
/// `::`; where it has generic arguments, they are those arguments' paths
/// joined by `", "`, between angle brackets after the path, unless the path
/// is `Option`, which gives way to them. What follows the type is left as it
/// is. A type without arguments is only at its end where what follows would
/// not carry it on.
pub proof fn law_type_as_written(
    segments: Seq<Seq<char>>,
    arguments: Seq<Seq<TokenView>>,
    types: Seq<TypeView>,
    next: Seq<TokenView>,
    unmet: ParseError,
)
    requires
        segments.len() > 0,
        arguments.len() == types.len(),
        forall|i: int|
            0 <= i < arguments.len() ==> #[trigger] type_expr(
                arguments[i],
                ParseError::ExpectedGenericArgument,
            ) == Parsed::<TypeView>::Ok((types[i], Seq::empty())),
        arguments.len() == 0 ==> !continues_type(next),
    ensures
        type_expr(type_tokens(segments, arguments) + next, unmet) == Parsed::<TypeView>::Ok(
            (type_of(segments, types), next),
        ),
{
    let path = path_text(segments[0], segments.skip(1));
    let s = type_tokens(segments, arguments) + next;
    assert(s[0] == TokenView::Ident(segments[0]));
    if arguments.len() == 0 {
        assert(s.skip(1) =~= path_tail_tokens(segments.skip(1)) + next);
        lemma_path_tail(segments.skip(1), segments[0], next);
    } else {
        let unmet_argument = ParseError::ExpectedGenericArgument;
        let close = seq![TokenView::Punct('>')] + next;
        let following = more_argument_tokens(arguments.skip(1)) + seq![TokenView::Punct('>')]
            + next;
        let bracketed = seq![TokenView::Punct('<')] + arguments[0] + following;
        assert(s.skip(1) =~= path_tail_tokens(segments.skip(1)) + bracketed);
        lemma_path_tail(segments.skip(1), segments[0], bracketed);
        assert(bracketed.skip(1) =~= arguments[0] + following);
        assert(type_expr(arguments[0], unmet_argument) == Parsed::<TypeView>::Ok(
            (types[0], Seq::empty()),
        ));
        assert(!continues_type(following)) by {
            if arguments.len() == 1 {
                assert(following =~= close);
            }
        }
        lemma_type_expr_extends(arguments[0], unmet_argument, following);
        assert(Seq::<TokenView>::empty() + following =~= following);
        lemma_type_expr_advances(arguments[0], unmet_argument);
        assert forall|i: int| 0 <= i < arguments.skip(1).len() implies #[trigger] type_expr(
            arguments.skip(1)[i],
            unmet_argument,
        ) == Parsed::<TypeView>::Ok((types.skip(1)[i], Seq::empty())) by {
            assert(arguments.skip(1)[i] == arguments[i + 1]);
        }
        lemma_more_arguments(arguments.skip(1), types.skip(1), types[0].path, next);
        assert(close.skip(1) =~= next);
        assert(type_expr(s, unmet) == type_tail(bracketed, path));
        assert(following.len() < (arguments[0] + following).len());
        assert(generic_arguments(arguments[0] + following) == Parsed::<Seq<char>>::Ok(
            (argument_text(types[0].path, types.skip(1)), close),
        ));
    }
}

/// A field written as its name, `:` and a type reads as that name with that
/// type, whether or not `pub` stands before it, provided the name is not
/// itself `pub`.
pub proof fn law_field_of_type(field_name: Seq<char>, ty_tokens: Seq<TokenView>, ty: TypeView)
    requires
        field_name != "pub"@,
        type_expr(ty_tokens, ParseError::ExpectedFieldType) == Parsed::<TypeView>::Ok(
            (ty, Seq::empty()),
        ),
    ensures
        bare_field(field_tokens(field_name, ty_tokens)) == Parsed::<FieldView>::Ok(
            (field_of(field_name, ty), Seq::empty()),
        ),
        bare_field(public_tokens(field_tokens(field_name, ty_tokens))) == bare_field(
            field_tokens(field_name, ty_tokens),
        ),
{
    let s = field_tokens(field_name, ty_tokens);
    assert(s.skip(1).skip(1) =~= ty_tokens);
    assert(public_tokens(s).skip(1) =~= s);
}

/// Fields come out in the order in which they are written: where each of
/// `pieces` reads as one field by itself, the body that holds them one after
/// the other reads as those fields, in that order and no others. This holds
/// of no field, of one and of any number of them.
pub proof fn law_fields_in_order(
    pieces: Seq<Seq<TokenView>>,
    expected: Seq<FieldView>,
    trailing: bool,
)
    requires
        pieces.len() == expected.len(),
        forall|i: int|
            0 <= i < pieces.len() ==> #[trigger] bare_field(pieces[i]) == Parsed::<FieldView>::Ok(
                (expected[i], Seq::empty()),
            ),
    ensures
        fields(separated(pieces, trailing)) == Outcome::<Seq<FieldView>>::Ok(expected),
    decreases pieces.len(),
{
    if pieces.len() == 0 {
        assert(expected =~= Seq::empty());
    } else {
        let first = pieces[0];
        let written = separated(pieces, trailing);
        assert(bare_field(first) == Parsed::<FieldView>::Ok((expected[0], Seq::empty())));
        lemma_field_advances(first);
        if pieces.len() == 1 && !trailing {
            assert(seq![expected[0]] + Seq::<FieldView>::empty() =~= expected);
        } else {
            let others = separated(pieces.skip(1), trailing);
            let next = seq![TokenView::Punct(',')] + others;
            lemma_bare_field_extends(first, next);
            assert(written =~= first + next);
            assert(Seq::<TokenView>::empty() + next =~= next);
            assert(next.skip(1) =~= others);
            assert forall|i: int| 0 <= i < pieces.skip(1).len() implies #[trigger] bare_field(
                pieces.skip(1)[i],
            ) == Parsed::<FieldView>::Ok((expected.skip(1)[i], Seq::empty())) by {
                assert(pieces.skip(1)[i] == pieces[i + 1]);
            }
            law_fields_in_order(pieces.skip(1), expected.skip(1), trailing);
            assert(seq![expected[0]] + expected.skip(1) =~= expected);
        }
    }
}

/// A record is its name and the fields of its body, whether or not `pub`
/// stands before it.
pub proof fn law_record(name: Seq<char>, body: Seq<TokenView>)
    ensures
        declaration(record_tokens(name, body)) == match fields(body) {
            Ok(parsed) => Outcome::<DataView>::Ok(record_of(name, parsed)),
            Err(e) => Err(e),
        },
        declaration(public_tokens(record_tokens(name, body))) == declaration(
            record_tokens(name, body),
        ),
{
    lemma_keywords_differ();
    let s = record_tokens(name, body);
    assert(s.skip(1).skip(1).skip(1).len() == 0);
    assert(public_tokens(s).skip(1) =~= s);
}

/// A record with one field reads as one field and no more, with the name
/// and the type as written.
pub proof fn law_single_field(
    name: Seq<char>,
    field_name: Seq<char>,
    ty_tokens: Seq<TokenView>,
    ty: TypeView,
)
    requires
        field_name != "pub"@,
        type_expr(ty_tokens, ParseError::ExpectedFieldType) == Parsed::<TypeView>::Ok(
            (ty, Seq::empty()),
        ),
    ensures
        declaration(record_tokens(name, field_tokens(field_name, ty_tokens)))
            == Outcome::<DataView>::Ok(record_of(name, seq![field_of(field_name, ty)])),
{
    let piece = field_tokens(field_name, ty_tokens);
    law_field_of_type(field_name, ty_tokens, ty);
    law_fields_in_order(seq![piece], seq![field_of(field_name, ty)], false);
    law_record(name, piece);
}

/// A record with one field of a plain type: there is one field, it is not
/// optional and its path is the type's name as written.
pub proof fn law_plain_field(name: Seq<char>, field_name: Seq<char>, ty: Seq<char>)
    requires
        field_name != "pub"@,
    ensures
        declaration(record_tokens(name, field_tokens(field_name, ident_tokens(ty))))
            == Outcome::<DataView>::Ok(record_of(name, seq![field_of(field_name, plain(ty))])),
{
    law_plain_type(ty, Seq::empty(), ParseError::ExpectedFieldType);
    assert(ident_tokens(ty) + Seq::<TokenView>::empty() =~= ident_tokens(ty));
    law_single_field(name, field_name, ident_tokens(ty), plain(ty));
}

/// A record with one field of type `Option<inner>`: the field is optional
/// and its path is `inner`.
pub proof fn law_option_field(name: Seq<char>, field_name: Seq<char>, inner: Seq<char>)
    requires
        field_name != "pub"@,
    ensures
        declaration(
            record_tokens(name, field_tokens(field_name, option_tokens(ident_tokens(inner)))),
        ) == Outcome::<DataView>::Ok(record_of(name, seq![field_of(field_name, optional(inner))])),
{
    let ty_tokens = option_tokens(ident_tokens(inner));
    law_option_type(inner, Seq::empty(), ParseError::ExpectedFieldType);
    assert(ty_tokens + Seq::<TokenView>::empty() =~= ty_tokens);
    law_single_field(name, field_name, ty_tokens, optional(inner));
}

/// A record with one field of type `Option<g<a, b>>`, where `g` is not
/// `Option`: the field is optional and its path reads `g<a, b>`.
pub proof fn law_option_of_generic_field(
    name: Seq<char>,
    field_name: Seq<char>,
    g: Seq<char>,
    a: Seq<char>,
    b: Seq<char>,
)
    requires
        field_name != "pub"@,
        g != "Option"@,
    ensures
        declaration(
            record_tokens(
                name,
                field_tokens(
                    field_name,
                    option_tokens(
                        generic_tokens(g, pair_tokens(ident_tokens(a), ident_tokens(b))),
                    ),
                ),
            ),
        ) == Outcome::<DataView>::Ok(
            record_of(
                name,
                seq![field_of(field_name, optional(g + "<"@ + a + ", "@ + b + ">"@))],
            ),
        ),
{
    let ty_tokens = option_tokens(
        generic_tokens(g, pair_tokens(ident_tokens(a), ident_tokens(b))),
    );
    law_option_of_generic_type(g, a, b, Seq::empty(), ParseError::ExpectedFieldType);
    assert(ty_tokens + Seq::<TokenView>::empty() =~= ty_tokens);
    law_single_field(name, field_name, ty_tokens, optional(g + "<"@ + a + ", "@ + b + ">"@));
}

/// A record with one field of type `g<a>`, where `g` is not `Option`: the
/// field is not optional and its path reads `g<a>`.
pub proof fn law_generic_field(
    name: Seq<char>,
    field_name: Seq<char>,
    g: Seq<char>,
    a: Seq<char>,
)
    requires
        field_name != "pub"@,
        g != "Option"@,
    ensures
        declaration(
            record_tokens(name, field_tokens(field_name, generic_tokens(g, ident_tokens(a)))),
        ) == Outcome::<DataView>::Ok(
            record_of(name, seq![field_of(field_name, plain(g + "<"@ + a + ">"@))]),
        ),
{
    let ty_tokens = generic_tokens(g, ident_tokens(a));
    law_generic_type(g, a, Seq::empty(), ParseError::ExpectedFieldType);
    assert(ty_tokens + Seq::<TokenView>::empty() =~= ty_tokens);
    law_single_field(name, field_name, ty_tokens, plain(g + "<"@ + a + ">"@));
}

/// Every field that is read is public and carries no annotation, whatever
/// was written before it.
pub proof fn law_fields_public_and_bare(s: Seq<TokenView>)
    ensures
        fields(s) matches Ok(parsed) ==> forall|i: int|
            0 <= i < parsed.len() ==> (#[trigger] parsed[i]).vis == Visibility::Public
                && parsed[i].attributes.len() == 0,
    decreases s.len(),
{
    if s.len() > 0 {
        if let Ok((_, rest)) = field(s) {
            if rest.len() < s.len() {
                law_fields_public_and_bare(rest);
            }
        }
    }
}

/// Whatever reads as a declaration reads as a record, whose fields are
/// public and carry no annotation.
pub proof fn law_declaration_is_record(s: Seq<TokenView>)
    ensures
        declaration(s) matches Ok(data) ==> data matches DataView::Struct(record) && forall|i: int|
            0 <= i < record.fields.len() ==> (#[trigger] record.fields[i]).vis
                == Visibility::Public && record.fields[i].attributes.len() == 0,
{
    if let Ok(s1) = after_annotations(s) {
        if let Ok((first, s2)) = ident(s1, ParseError::ExpectedIdent) {
            if let Ok((_, s3)) = keyword(first, s2) {
                if let Ok((_, s4)) = ident(s3, ParseError::UnnamedStruct) {
                    if let Ok((body, _)) = group(s4, ParseError::ExpectedBody) {
                        law_fields_public_and_bare(body);
                    }
                }
            }
        }
    }
}

/// Whatever reads as a declaration has `struct` for its keyword: as its
/// first identifier after the annotations, or as the one after `pub`.
pub proof fn law_keyword_is_struct(s: Seq<TokenView>)
    requires
        declaration(s) is Ok,
    ensures
        after_annotations(s) matches Ok(rest) && (starts_with_ident(rest, "struct"@) || (
        starts_with_ident(rest, "pub"@) && starts_with_ident(rest.skip(1), "struct"@))),
{
}

/// A declaration with another keyword than `struct` fails, whatever follows
/// the keyword, and whether or not `pub` stands before it.
pub proof fn law_other_keyword_fails(word: Seq<char>, next: Seq<TokenView>)
    requires
        word != "struct"@,
    ensures
        word != "pub"@ ==> declaration(ident_tokens(word) + next) == Outcome::<DataView>::Err(
            ParseError::ExpectedStruct,
        ),
        declaration(public_tokens(ident_tokens(word) + next)) == Outcome::<DataView>::Err(
            ParseError::ExpectedStruct,
        ),
{
    lemma_keywords_differ();
    let p = public_tokens(ident_tokens(word) + next);
    assert(p.skip(1)[0] == TokenView::Ident(word));
}

/// Tokens after a declaration make it fail.
pub proof fn law_trailing_tokens_fail(s: Seq<TokenView>, extra: Seq<TokenView>)
    requires
        declaration(s) is Ok,
        extra.len() > 0,
    ensures
        declaration(s + extra) == Outcome::<DataView>::Err(ParseError::TrailingTokens),
{
    let s1 = after_annotations(s)->Ok_0;
    lemma_after_annotations_extends(s, extra);
    let (first, s2) = ident(s1, ParseError::ExpectedIdent)->Ok_0;
    assert((s1 + extra).skip(1) =~= s2 + extra);
    let (word, s3) = keyword(first, s2)->Ok_0;
    if first == "pub"@ {
        assert((s2 + extra).skip(1) =~= s3 + extra);
    }
    let s4 = s3.skip(1);
    assert((s3 + extra).skip(1) =~= s4 + extra);
    let s5 = s4.skip(1);
    assert((s4 + extra).skip(1) =~= s5 + extra);
    assert(s5.len() == 0);
}

/// An annotation before a declaration changes nothing of what is read, nor
/// of whether anything is.
pub proof fn law_leading_annotation_ignored(payload: TokenView, s: Seq<TokenView>)
    ensures
        declaration(annotation_tokens(payload) + s) == declaration(s),
{
    assert((annotation_tokens(payload) + s).skip(2) =~= s);
}

/// An annotation before a field changes nothing of what is read for that
/// field nor of what is left after it, and so nothing of the fields of a
/// body.
pub proof fn law_field_annotation_ignored(payload: TokenView, s: Seq<TokenView>)
    ensures
        bare_field(annotation_tokens(payload) + s) == bare_field(s),
        field(annotation_tokens(payload) + s) == field(s),
        s.len() > 0 ==> fields(annotation_tokens(payload) + s) == fields(s),
{
    assert((annotation_tokens(payload) + s).skip(2) =~= s);
    if s.len() > 0 {
        lemma_field_advances(s);
    }
}

/// A visibility that is more than `pub`, as in `pub(crate)`, makes a
/// declaration fail, and a body in which a field has one.
pub proof fn law_restricted_visibility_fails(restriction: Seq<TokenView>, next: Seq<TokenView>)
    ensures
        declaration(restricted_tokens(restriction) + next) == Outcome::<DataView>::Err(
            ParseError::UnsupportedVisibility,
        ),
        fields(restricted_tokens(restriction) + next) == Outcome::<Seq<FieldView>>::Err(
            ParseError::ExpectedFieldName,
        ),
{
    let s = restricted_tokens(restriction) + next;
    assert(s.skip(1)[0] == TokenView::Group(restriction));
}

} // verus!
