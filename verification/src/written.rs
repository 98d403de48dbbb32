//! Declarations as they are written: the token streams of the common forms,
//! and the models that they stand for. The laws are stated over these.

use vstd::prelude::*;
use crate::grammar::{generic_type, MARKER};
use crate::model::{DataView, FieldView, StructView, TypeView, Visibility};
use crate::token::TokenView;

verus! {

/// The type that is written as a path alone.
pub open spec fn plain(path: Seq<char>) -> TypeView {
    TypeView { is_option: false, path }
}

/// The type that is written as `Option` around something that reads `path`.
pub open spec fn optional(path: Seq<char>) -> TypeView {
    TypeView { is_option: true, path }
}

/// The model of a field with the given name and type.
pub open spec fn field_of(field_name: Seq<char>, ty: TypeView) -> FieldView {
    FieldView { attributes: Seq::empty(), vis: Visibility::Public, field_name, ty }
}

/// The model of a record with the given name and fields.
pub open spec fn record_of(name: Seq<char>, fields: Seq<FieldView>) -> DataView {
    DataView::Struct(StructView { name, fields })
}

/// The one token of the identifier `text`.
pub open spec fn ident_tokens(text: Seq<char>) -> Seq<TokenView> {
    seq![TokenView::Ident(text)]
}

/// The tokens of `a, b`.
pub open spec fn pair_tokens(a: Seq<TokenView>, b: Seq<TokenView>) -> Seq<TokenView> {
    a + seq![TokenView::Punct(',')] + b
}

/// The tokens of `g<arguments>`.
pub open spec fn generic_tokens(g: Seq<char>, arguments: Seq<TokenView>) -> Seq<TokenView> {
    seq![TokenView::Ident(g), TokenView::Punct('<')] + arguments + seq![TokenView::Punct('>')]
}

/// The tokens of `Option<inner>`.
pub open spec fn option_tokens(inner: Seq<TokenView>) -> Seq<TokenView> {
    generic_tokens("Option"@, inner)
}

/// The tokens of an annotation with the given payload.
pub open spec fn annotation_tokens(payload: TokenView) -> Seq<TokenView> {
    seq![TokenView::Punct(MARKER), payload]
}

/// The tokens of `pub(restriction)`.
pub open spec fn restricted_tokens(restriction: Seq<TokenView>) -> Seq<TokenView> {
    seq![TokenView::Ident("pub"@), TokenView::Group(restriction)]
}

/// The tokens of `pub` before `tokens`.
pub open spec fn public_tokens(tokens: Seq<TokenView>) -> Seq<TokenView> {
    seq![TokenView::Ident("pub"@)] + tokens
}

/// The tokens of `field_name: ty`, where `ty` holds the tokens of the type.
pub open spec fn field_tokens(field_name: Seq<char>, ty: Seq<TokenView>) -> Seq<TokenView> {
    seq![TokenView::Ident(field_name), TokenView::Punct(':')] + ty
}

/// The tokens of `struct name { body }`.
pub open spec fn record_tokens(name: Seq<char>, body: Seq<TokenView>) -> Seq<TokenView> {
    seq![TokenView::Ident("struct"@), TokenView::Ident(name), TokenView::Group(body)]
}

/// The tokens of the fields `pieces`, each written without a separator,
/// with `,` after each of them; after the last one only where `trailing`.
pub open spec fn separated(pieces: Seq<Seq<TokenView>>, trailing: bool) -> Seq<TokenView>
    decreases pieces.len(),
{
    if pieces.len() == 0 {
        Seq::empty()
    } else if pieces.len() == 1 && !trailing {
        pieces[0]
    } else {
        pieces[0] + seq![TokenView::Punct(',')] + separated(pieces.skip(1), trailing)
    }
}

/// The tokens of the path segments after the first: `::` and an identifier
/// for each.
pub open spec fn path_tail_tokens(more: Seq<Seq<char>>) -> Seq<TokenView>
    decreases more.len(),
{
    if more.len() == 0 {
        Seq::empty()
    } else {
        seq![TokenView::Punct(':'), TokenView::Punct(':'), TokenView::Ident(more[0])]
            + path_tail_tokens(more.skip(1))
    }
}

/// The path that reads `path` so far, with `::` and each of `more` after it.
pub open spec fn path_text(path: Seq<char>, more: Seq<Seq<char>>) -> Seq<char>
    decreases more.len(),
{
    if more.len() == 0 {
        path
    } else {
        path_text(path + "::"@ + more[0], more.skip(1))
    }
}

/// The tokens of the generic arguments after the first: `,` and the tokens
/// of the argument for each.
pub open spec fn more_argument_tokens(more: Seq<Seq<TokenView>>) -> Seq<TokenView>
    decreases more.len(),
{
    if more.len() == 0 {
        Seq::empty()
    } else {
        seq![TokenView::Punct(',')] + more[0] + more_argument_tokens(more.skip(1))
    }
}

/// The arguments that read `arguments` so far, with `", "` and the path of
/// each of `more` after them.
pub open spec fn argument_text(arguments: Seq<char>, more: Seq<TypeView>) -> Seq<char>
    decreases more.len(),
{
    if more.len() == 0 {
        arguments
    } else {
        argument_text(arguments + ", "@ + more[0].path, more.skip(1))
    }
}

/// The tokens of a type: the segments of its path, then its generic
/// arguments between `<` and `>` where it has any.
pub open spec fn type_tokens(
    segments: Seq<Seq<char>>,
    arguments: Seq<Seq<TokenView>>,
) -> Seq<TokenView> {
    let path = ident_tokens(segments[0]) + path_tail_tokens(segments.skip(1));
    if arguments.len() == 0 {
        path
    } else {
        path + seq![TokenView::Punct('<')] + arguments[0] + more_argument_tokens(
            arguments.skip(1),
        ) + seq![TokenView::Punct('>')]
    }
}

/// The type that is written with the given path segments and with generic
/// arguments that read as `types`.
pub open spec fn type_of(segments: Seq<Seq<char>>, types: Seq<TypeView>) -> TypeView {
    let path = path_text(segments[0], segments.skip(1));
    if types.len() == 0 {
        plain(path)
    } else {
        generic_type(path, argument_text(types[0].path, types.skip(1)))
    }
}

} // verus!
