use derive_parse::{parse_data, ParseError, Token};

fn ident(text: &str) -> Token {
    Token::Ident(text.to_string())
}

fn punct(c: char) -> Token {
    Token::Punct(c)
}

fn record(name: &str, body: Vec<Token>) -> Vec<Token> {
    vec![ident("struct"), ident(name), Token::Group(body)]
}

fn failure(tokens: Vec<Token>) -> ParseError {
    match parse_data(&tokens) {
        Ok(data) => panic!("unexpected success: {:?}", data),
        Err(e) => e,
    }
}

#[test]
fn empty_stream_ends_too_early() {
    assert_eq!(failure(vec![]), ParseError::UnexpectedEnd);
}

#[test]
fn declaration_must_start_with_an_identifier() {
    assert_eq!(failure(vec![punct('!'), ident("struct")]), ParseError::ExpectedIdent);
    assert_eq!(failure(vec![Token::Group(vec![])]), ParseError::ExpectedIdent);
    assert_eq!(failure(vec![Token::Literal("1".to_string())]), ParseError::ExpectedIdent);
}

#[test]
fn enum_keyword_is_rejected() {
    let tokens = vec![ident("enum"), ident("A"), Token::Group(vec![])];
    assert_eq!(failure(tokens), ParseError::ExpectedStruct);
}

#[test]
fn union_keyword_is_rejected() {
    let tokens = vec![ident("union"), ident("A"), Token::Group(vec![])];
    assert_eq!(failure(tokens), ParseError::ExpectedStruct);
}

#[test]
fn misspelt_keyword_is_rejected() {
    let tokens = vec![ident("strutc"), ident("A"), Token::Group(vec![])];
    assert_eq!(failure(tokens), ParseError::ExpectedStruct);
    let tokens = vec![ident("Struct"), ident("A"), Token::Group(vec![])];
    assert_eq!(failure(tokens), ParseError::ExpectedStruct);
    let tokens = vec![ident("structs"), ident("A"), Token::Group(vec![])];
    assert_eq!(failure(tokens), ParseError::ExpectedStruct);
}

#[test]
fn public_enum_is_rejected() {
    let tokens = vec![ident("pub"), ident("enum"), ident("A"), Token::Group(vec![])];
    assert_eq!(failure(tokens), ParseError::ExpectedStruct);
}

#[test]
fn keyword_alone_ends_too_early() {
    assert_eq!(failure(vec![ident("struct")]), ParseError::UnexpectedEnd);
    assert_eq!(failure(vec![ident("pub")]), ParseError::UnexpectedEnd);
    assert_eq!(failure(vec![ident("struct"), ident("A")]), ParseError::UnexpectedEnd);
}

#[test]
fn record_needs_a_name() {
    let tokens = vec![ident("struct"), Token::Group(vec![])];
    assert_eq!(failure(tokens), ParseError::UnnamedStruct);
}

#[test]
fn record_needs_a_body() {
    let tokens = vec![ident("struct"), ident("A"), punct(';')];
    assert_eq!(failure(tokens), ParseError::ExpectedBody);
    let tokens = vec![ident("struct"), ident("A"), ident("B")];
    assert_eq!(failure(tokens), ParseError::ExpectedBody);
}

#[test]
fn trailing_token_is_rejected() {
    let mut tokens = record("A", vec![ident("a"), punct(':'), ident("u8")]);
    tokens.push(punct(';'));
    assert_eq!(failure(tokens), ParseError::TrailingTokens);
}

#[test]
fn second_declaration_is_rejected() {
    let mut tokens = record("A", vec![]);
    tokens.extend(record("B", vec![]));
    assert_eq!(failure(tokens), ParseError::TrailingTokens);
}

#[test]
fn trailing_annotation_is_rejected() {
    let mut tokens = record("A", vec![]);
    tokens.push(punct('#'));
    tokens.push(Token::Group(vec![ident("doc")]));
    assert_eq!(failure(tokens), ParseError::TrailingTokens);
}

#[test]
fn failure_in_the_body_comes_before_trailing_tokens() {
    let mut tokens = record("A", vec![ident("a"), punct('='), ident("u8")]);
    tokens.push(punct(';'));
    assert_eq!(failure(tokens), ParseError::WrongDelimiter);
}

#[test]
fn restricted_visibility_on_the_declaration_is_rejected() {
    let tokens = vec![
        ident("pub"),
        Token::Group(vec![ident("crate")]),
        ident("struct"),
        ident("A"),
        Token::Group(vec![]),
    ];
    assert_eq!(failure(tokens), ParseError::UnsupportedVisibility);
}

#[test]
fn restricted_visibility_on_a_field_is_rejected() {
    let body = vec![
        ident("pub"),
        Token::Group(vec![ident("crate")]),
        ident("a"),
        punct(':'),
        ident("u8"),
    ];
    assert_eq!(failure(record("A", body)), ParseError::ExpectedFieldName);
}

#[test]
fn restricted_visibility_on_a_later_field_is_rejected() {
    let body = vec![
        ident("a"),
        punct(':'),
        ident("u8"),
        punct(','),
        ident("pub"),
        Token::Group(vec![ident("super")]),
        ident("b"),
        punct(':'),
        ident("u8"),
    ];
    assert_eq!(failure(record("A", body)), ParseError::ExpectedFieldName);
}

#[test]
fn field_must_start_with_its_name() {
    let body = vec![Token::Literal("0".to_string()), punct(':'), ident("u8")];
    assert_eq!(failure(record("A", body)), ParseError::ExpectedFieldName);
    let body = vec![punct(','), ident("a"), punct(':'), ident("u8")];
    assert_eq!(failure(record("A", body)), ParseError::ExpectedFieldName);
}

#[test]
fn field_named_pub_is_taken_for_the_visibility() {
    let body = vec![ident("pub"), punct(':'), ident("u8")];
    assert_eq!(failure(record("A", body)), ParseError::ExpectedFieldName);
}

#[test]
fn field_name_must_be_followed_by_punctuation() {
    let body = vec![ident("a"), ident("u8")];
    assert_eq!(failure(record("A", body)), ParseError::ExpectedDelimiter);
    let body = vec![ident("a"), Token::Group(vec![])];
    assert_eq!(failure(record("A", body)), ParseError::ExpectedDelimiter);
}

#[test]
fn field_name_must_be_followed_by_a_colon() {
    let body = vec![ident("a"), punct('='), ident("u8")];
    assert_eq!(failure(record("A", body)), ParseError::WrongDelimiter);
}

#[test]
fn field_needs_a_type() {
    let body = vec![ident("a"), punct(':'), punct('&'), ident("u8")];
    assert_eq!(failure(record("A", body)), ParseError::ExpectedFieldType);
    let body = vec![ident("a"), punct(':'), Token::Group(vec![ident("u8"), ident("u8")])];
    assert_eq!(failure(record("A", body)), ParseError::ExpectedFieldType);
    let body = vec![ident("a"), punct(':'), Token::Literal("1".to_string())];
    assert_eq!(failure(record("A", body)), ParseError::ExpectedFieldType);
}

#[test]
fn field_that_stops_short_ends_too_early() {
    assert_eq!(failure(record("A", vec![ident("a")])), ParseError::UnexpectedEnd);
    assert_eq!(failure(record("A", vec![ident("a"), punct(':')])), ParseError::UnexpectedEnd);
    assert_eq!(failure(record("A", vec![ident("pub")])), ParseError::UnexpectedEnd);
}

#[test]
fn annotation_without_a_field_ends_too_early() {
    let body = vec![
        ident("a"),
        punct(':'),
        ident("u8"),
        punct(','),
        punct('#'),
        Token::Group(vec![ident("doc")]),
    ];
    assert_eq!(failure(record("A", body)), ParseError::UnexpectedEnd);
}

#[test]
fn marker_without_payload_ends_too_early() {
    assert_eq!(failure(vec![punct('#')]), ParseError::UnexpectedEnd);
    assert_eq!(failure(record("A", vec![punct('#')])), ParseError::UnexpectedEnd);
}

#[test]
fn annotation_after_a_field_without_separator_is_taken_for_the_separator() {
    let body = vec![
        ident("a"),
        punct(':'),
        ident("u8"),
        punct('#'),
        Token::Group(vec![ident("doc")]),
        ident("b"),
        punct(':'),
        ident("u8"),
    ];
    assert_eq!(failure(record("A", body)), ParseError::ExpectedFieldName);
}

#[test]
fn single_colon_in_a_path_is_rejected() {
    let body = vec![ident("a"), punct(':'), ident("std"), punct(':'), ident("Vec")];
    assert_eq!(failure(record("A", body)), ParseError::ExpectedSecondColon);
    let body = vec![ident("a"), punct(':'), ident("std"), punct(':')];
    assert_eq!(failure(record("A", body)), ParseError::ExpectedSecondColon);
}

#[test]
fn path_must_go_on_with_an_identifier() {
    let body = vec![
        ident("a"),
        punct(':'),
        ident("std"),
        punct(':'),
        punct(':'),
        punct('<'),
        ident("T"),
        punct('>'),
    ];
    assert_eq!(failure(record("A", body)), ParseError::ExpectedPathSegment);
    let body = vec![ident("a"), punct(':'), ident("std"), punct(':'), punct(':')];
    assert_eq!(failure(record("A", body)), ParseError::UnexpectedEnd);
}

#[test]
fn generic_argument_must_be_a_type() {
    let body = vec![ident("a"), punct(':'), ident("Vec"), punct('<'), punct('>')];
    assert_eq!(failure(record("A", body)), ParseError::ExpectedGenericArgument);
    let body = vec![
        ident("a"),
        punct(':'),
        ident("Map"),
        punct('<'),
        ident("K"),
        punct(','),
        punct('>'),
    ];
    assert_eq!(failure(record("A", body)), ParseError::ExpectedGenericArgument);
    let body = vec![
        ident("a"),
        punct(':'),
        ident("Vec"),
        punct('<'),
        punct('&'),
        ident("T"),
        punct('>'),
    ];
    assert_eq!(failure(record("A", body)), ParseError::ExpectedGenericArgument);
}

#[test]
fn generic_arguments_must_be_closed() {
    let body = vec![ident("a"), punct(':'), ident("Vec"), punct('<'), ident("u8")];
    assert_eq!(failure(record("A", body)), ParseError::ExpectedClosingBracket);
    let body = vec![
        ident("a"),
        punct(':'),
        ident("Vec"),
        punct('<'),
        ident("u8"),
        punct(';'),
        punct('>'),
    ];
    assert_eq!(failure(record("A", body)), ParseError::ExpectedClosingBracket);
    let body = vec![ident("a"), punct(':'), ident("Vec"), punct('<')];
    assert_eq!(failure(record("A", body)), ParseError::UnexpectedEnd);
}

#[test]
fn second_argument_list_is_not_part_of_the_type() {
    let body = vec![
        ident("a"),
        punct(':'),
        ident("A"),
        punct('<'),
        ident("B"),
        punct('>'),
        punct(':'),
        punct(':'),
        ident("C"),
    ];
    assert_eq!(failure(record("A", body)), ParseError::ExpectedFieldName);
}

#[test]
fn every_failure_has_its_own_message() {
    let all = [
        (ParseError::UnexpectedEnd, "Unexpected end of input"),
        (ParseError::ExpectedIdent, "Not an ident"),
        (ParseError::UnsupportedVisibility, "pub(whatever) is not supported yet"),
        (ParseError::ExpectedStruct, "Only structs are supported"),
        (ParseError::UnnamedStruct, "Unnamed structs are not supported"),
        (ParseError::ExpectedBody, "Struct body expected"),
        (ParseError::ExpectedFieldName, "Field name expected"),
        (ParseError::ExpectedDelimiter, "Delimiter after field name expected"),
        (ParseError::WrongDelimiter, "Expecting : after field name"),
        (ParseError::ExpectedFieldType, "Expected field type"),
        (ParseError::ExpectedSecondColon, "Expecting second :"),
        (ParseError::ExpectedPathSegment, "Expecting next path part after ::"),
        (ParseError::ExpectedGenericArgument, "Expecting generic argument"),
        (ParseError::ExpectedClosingBracket, "Expecting closing generic bracket"),
        (ParseError::TrailingTokens, "Unexpected data after end of the struct"),
    ];
    for (error, text) in all {
        assert_eq!(error.message(), text);
    }
    for (i, (a, _)) in all.iter().enumerate() {
        for (b, _) in all.iter().skip(i + 1) {
            assert_ne!(a.message(), b.message());
        }
    }
}
