//! The parser: one pass over the tokens, from the front, deciding at each
//! step by the next token alone.

use vstd::prelude::*;
use crate::cursor::Cursor;
use crate::error::ParseError;
use crate::grammar::{self, Outcome, Parsed};
use crate::model::{
    fields_view, Data, DataView, Field, FieldView, Struct, Type, TypeView, Visibility,
};
use crate::text::reads;
use crate::token::{stream_view, Token, TokenView};

verus! {

/// Takes the annotations that the stream starts with.
pub fn skip_doc_comments(source: &mut Cursor<'_>) -> (skipped: Result<(), ParseError>)
    ensures
        match skipped {
            Ok(_) => grammar::after_annotations(old(source)@) == Outcome::<Seq<TokenView>>::Ok(
                final(source)@,
            ),
            Err(e) => grammar::after_annotations(old(source)@) == Outcome::<Seq<TokenView>>::Err(
                e,
            ),
        },
        final(source).follows(old(source)),
{
    loop
        invariant
            grammar::after_annotations(source@) == grammar::after_annotations(old(source)@),
            source.follows(old(source)),
        decreases source@.len(),
    {
        match source.maybe_doc_comment() {
            Ok(true) => {},
            Ok(false) => {
                return Ok(());
            },
            Err(e) => {
                return Err(e);
            },
        }
    }
}

/// Takes one type expression. `unmet` is the error where the next token is
/// not an identifier.
#[verifier::loop_isolation(false)]
pub fn next_type(source: &mut Cursor<'_>, unmet: ParseError) -> (parsed: Result<Type, ParseError>)
    ensures
        match parsed {
            Ok(ty) => grammar::type_expr(old(source)@, unmet) == Parsed::<TypeView>::Ok(
                (ty@, final(source)@),
            ),
            Err(e) => grammar::type_expr(old(source)@, unmet) == Parsed::<TypeView>::Err(e),
        },
        final(source).follows(old(source)),
    decreases old(source)@.len(),
{
    let mut ty = source.next_ident(unmet)?;

    loop
        invariant
            grammar::type_tail(source@, ty@) == grammar::type_expr(old(source)@, unmet),
            source@.len() < old(source)@.len(),
            source.follows(old(source)),
        decreases source@.len(),
    {
        let ghost at_colon = source@;
        if source.maybe_exact_punct(':').is_none() {
            break ;
        }
        if source.maybe_exact_punct(':').is_none() {
            return Err(ParseError::ExpectedSecondColon);
        }
        assert(at_colon.skip(1).skip(1) =~= at_colon.skip(2));
        let segment = source.next_ident(ParseError::ExpectedPathSegment)?;
        assert(at_colon.skip(2).skip(1) =~= at_colon.skip(3));
        ty.append("::");
        ty.append(segment.as_str());
    }

    if source.maybe_exact_punct('<').is_some() {
        let ghost inside = source@;
        let first = next_type(source, ParseError::ExpectedGenericArgument)?;
        let mut arguments = first.path;
        proof {
            grammar::lemma_type_expr_advances(inside, ParseError::ExpectedGenericArgument);
        }

        loop
            invariant
                grammar::more_arguments(source@, arguments@) == grammar::generic_arguments(inside),
                source@.len() < old(source)@.len(),
                source.follows(old(source)),
            decreases source@.len(),
        {
            if source.maybe_exact_punct(',').is_none() {
                break ;
            }
            let ghost at_argument = source@;
            let next = next_type(source, ParseError::ExpectedGenericArgument)?;
            proof {
                grammar::lemma_type_expr_advances(
                    at_argument,
                    ParseError::ExpectedGenericArgument,
                );
            }
            arguments.append(", ");
            arguments.append(next.path.as_str());
        }

        if source.maybe_exact_punct('>').is_none() {
            return Err(ParseError::ExpectedClosingBracket);
        }
        if reads(&ty, "Option") {
            Ok(Type { path: arguments, is_option: true })
        } else {
            ty.append("<");
            ty.append(arguments.as_str());
            ty.append(">");
            Ok(Type { path: ty, is_option: false })
        }
    } else {
        Ok(Type { path: ty, is_option: false })
    }
}

/// Takes one field of a body.
pub fn next_field(body: &mut Cursor<'_>) -> (parsed: Result<Field, ParseError>)
    ensures
        match parsed {
            Ok(f) => grammar::field(old(body)@) == Parsed::<FieldView>::Ok((f@, final(body)@)),
            Err(e) => grammar::field(old(body)@) == Parsed::<FieldView>::Err(e),
        },
        final(body).follows(old(body)),
{
    skip_doc_comments(body)?;
    let _visibility = body.maybe_visibility_modifier();
    let field_name = body.next_ident(ParseError::ExpectedFieldName)?;
    let delimiter = body.next_punct(ParseError::ExpectedDelimiter)?;
    if delimiter != ':' {
        return Err(ParseError::WrongDelimiter);
    }
    let ty = next_type(body, ParseError::ExpectedFieldType)?;
    let _separator = body.maybe_punct();
    let parsed = Field { attributes: Vec::new(), vis: Visibility::Public, field_name, ty };
    assert(parsed@.attributes =~= Seq::empty());
    Ok(parsed)
}

/// Parses one record declaration. The stream has to hold the declaration
/// and nothing after it.
#[verifier::loop_isolation(false)]
pub fn parse_data(input: &[Token]) -> (data: Result<Data, ParseError>)
    ensures
        match data {
            Ok(d) => grammar::declaration(stream_view(input@)) == Outcome::<DataView>::Ok(d@),
            Err(e) => grammar::declaration(stream_view(input@)) == Outcome::<DataView>::Err(e),
        },
{
    let mut source = Cursor::new(input);

    skip_doc_comments(&mut source)?;

    let pub_or_struct = source.next_ident(ParseError::ExpectedIdent)?;
    let struct_keyword = if reads(&pub_or_struct, "pub") {
        source.next_ident(ParseError::UnsupportedVisibility)?
    } else {
        pub_or_struct
    };
    if !reads(&struct_keyword, "struct") {
        return Err(ParseError::ExpectedStruct);
    }
    let struct_name = source.next_ident(ParseError::UnnamedStruct)?;

    let group = source.next_group(ParseError::ExpectedBody)?;
    let mut body = Cursor::new(group.as_slice());

    let mut fields: Vec<Field> = Vec::new();
    assert(fields_view(fields@) =~= Seq::empty());

    loop
        invariant
            grammar::fields(stream_view(group@)) == match grammar::fields(body@) {
                Ok(others) => Outcome::<Seq<FieldView>>::Ok(fields_view(fields@) + others),
                Err(e) => Err(e),
            },
        decreases body@.len(),
    {
        if body.maybe_eof() {
            break ;
        }
        let ghost at_field = body@;
        let ghost before = fields_view(fields@);
        let field = next_field(&mut body)?;
        proof {
            grammar::lemma_field_advances(at_field);
        }
        fields.push(field);
        assert(fields_view(fields@) =~= before.push(field@));
        assert forall|others: Seq<FieldView>|
            before + (seq![field@] + others) =~= #[trigger] (before.push(field@) + others) by {}
    }

    if !source.maybe_eof() {
        return Err(ParseError::TrailingTokens);
    }
    assert(fields_view(fields@) + Seq::<FieldView>::empty() =~= fields_view(fields@));
    Ok(Data::Struct(Struct { name: struct_name, fields }))
}

} // verus!
