use derive_parse::{parse_data, Data, Field, ParseError, Struct, Token, Type, Visibility};

fn ident(text: &str) -> Token {
    Token::Ident(text.to_string())
}

fn punct(c: char) -> Token {
    Token::Punct(c)
}

fn doc(text: &str) -> Vec<Token> {
    vec![
        punct('#'),
        Token::Group(vec![ident("doc"), punct('='), Token::Literal(format!("{:?}", text))]),
    ]
}

fn record(name: &str, body: Vec<Token>) -> Vec<Token> {
    vec![ident("struct"), ident(name), Token::Group(body)]
}

fn field(name: &str, is_option: bool, path: &str) -> Field {
    Field {
        attributes: vec![],
        vis: Visibility::Public,
        field_name: name.to_string(),
        ty: Type { is_option, path: path.to_string() },
    }
}

fn parsed(name: &str, fields: Vec<Field>) -> Result<Data, ParseError> {
    Ok(Data::Struct(Struct { name: name.to_string(), fields }))
}

#[test]
fn plain_field_keeps_its_type_name() {
    let tokens = record("Point", vec![ident("x"), punct(':'), ident("f32")]);
    assert_eq!(parse_data(&tokens), parsed("Point", vec![field("x", false, "f32")]));
}

#[test]
fn plain_field_named_option_without_arguments_is_not_optional() {
    let tokens = record("A", vec![ident("a"), punct(':'), ident("Option")]);
    assert_eq!(parse_data(&tokens), parsed("A", vec![field("a", false, "Option")]));
}

#[test]
fn option_field_gives_way_to_what_it_wraps() {
    let tokens = record(
        "A",
        vec![ident("a"), punct(':'), ident("Option"), punct('<'), ident("T"), punct('>')],
    );
    assert_eq!(parse_data(&tokens), parsed("A", vec![field("a", true, "T")]));
}

#[test]
fn option_of_generic_keeps_the_inner_arguments() {
    let tokens = record(
        "A",
        vec![
            ident("a"),
            punct(':'),
            ident("Option"),
            punct('<'),
            ident("G"),
            punct('<'),
            ident("A"),
            punct(','),
            ident("B"),
            punct('>'),
            punct('>'),
        ],
    );
    assert_eq!(parse_data(&tokens), parsed("A", vec![field("a", true, "G<A, B>")]));
}

#[test]
fn generic_field_is_not_optional() {
    let tokens = record(
        "A",
        vec![ident("a"), punct(':'), ident("G"), punct('<'), ident("A"), punct('>')],
    );
    assert_eq!(parse_data(&tokens), parsed("A", vec![field("a", false, "G<A>")]));
}

#[test]
fn generic_with_three_arguments_joins_them_with_comma_and_space() {
    let tokens = record(
        "A",
        vec![
            ident("a"),
            punct(':'),
            ident("Triple"),
            punct('<'),
            ident("X"),
            punct(','),
            ident("Y"),
            punct(','),
            ident("Z"),
            punct('>'),
        ],
    );
    assert_eq!(parse_data(&tokens), parsed("A", vec![field("a", false, "Triple<X, Y, Z>")]));
}

#[test]
fn path_segments_are_joined_with_double_colon() {
    let tokens = record(
        "A",
        vec![
            ident("a"),
            punct(':'),
            ident("std"),
            punct(':'),
            punct(':'),
            ident("vec"),
            punct(':'),
            punct(':'),
            ident("Vec"),
            punct('<'),
            ident("u8"),
            punct('>'),
            punct(','),
        ],
    );
    assert_eq!(parse_data(&tokens), parsed("A", vec![field("a", false, "std::vec::Vec<u8>")]));
}

#[test]
fn qualified_option_is_not_the_optional_wrapper() {
    let tokens = record(
        "A",
        vec![
            ident("a"),
            punct(':'),
            ident("std"),
            punct(':'),
            punct(':'),
            ident("Option"),
            punct('<'),
            ident("T"),
            punct('>'),
        ],
    );
    assert_eq!(parse_data(&tokens), parsed("A", vec![field("a", false, "std::Option<T>")]));
}

#[test]
fn option_inside_a_generic_counts_as_what_it_wraps() {
    let tokens = record(
        "A",
        vec![
            ident("a"),
            punct(':'),
            ident("Vec"),
            punct('<'),
            ident("Option"),
            punct('<'),
            ident("T"),
            punct('>'),
            punct('>'),
        ],
    );
    assert_eq!(parse_data(&tokens), parsed("A", vec![field("a", false, "Vec<T>")]));
}

#[test]
fn option_of_option_is_optional_once() {
    let tokens = record(
        "A",
        vec![
            ident("a"),
            punct(':'),
            ident("Option"),
            punct('<'),
            ident("Option"),
            punct('<'),
            ident("T"),
            punct('>'),
            punct('>'),
        ],
    );
    assert_eq!(parse_data(&tokens), parsed("A", vec![field("a", true, "T")]));
}

#[test]
fn record_without_fields() {
    let tokens = record("Unit", vec![]);
    assert_eq!(parse_data(&tokens), parsed("Unit", vec![]));
}

#[test]
fn one_field_with_trailing_comma() {
    let tokens = record("A", vec![ident("a"), punct(':'), ident("u8"), punct(',')]);
    assert_eq!(parse_data(&tokens), parsed("A", vec![field("a", false, "u8")]));
}

#[test]
fn five_fields_come_out_in_the_order_written() {
    let mut body = Vec::new();
    for (name, ty) in [("e", "u8"), ("a", "u16"), ("d", "u32"), ("b", "u64"), ("c", "u128")] {
        body.push(ident(name));
        body.push(punct(':'));
        body.push(ident(ty));
        body.push(punct(','));
    }
    let expected = vec![
        field("e", false, "u8"),
        field("a", false, "u16"),
        field("d", false, "u32"),
        field("b", false, "u64"),
        field("c", false, "u128"),
    ];
    assert_eq!(parse_data(&record("Five", body)), parsed("Five", expected));
}

#[test]
fn fields_need_no_separator_between_them() {
    let body = vec![ident("a"), punct(':'), ident("u8"), ident("b"), punct(':'), ident("u16")];
    let expected = vec![field("a", false, "u8"), field("b", false, "u16")];
    assert_eq!(parse_data(&record("A", body)), parsed("A", expected));
}

#[test]
fn any_punctuation_serves_as_separator() {
    let body = vec![
        ident("a"),
        punct(':'),
        ident("u8"),
        punct(';'),
        ident("b"),
        punct(':'),
        ident("Vec"),
        punct('<'),
        ident("u8"),
        punct('>'),
        punct('!'),
    ];
    let expected = vec![field("a", false, "u8"), field("b", false, "Vec<u8>")];
    assert_eq!(parse_data(&record("A", body)), parsed("A", expected));
}

#[test]
fn public_record_and_public_fields_read_the_same() {
    let mut tokens = vec![ident("pub")];
    tokens.extend(record(
        "A",
        vec![
            ident("pub"),
            ident("a"),
            punct(':'),
            ident("u8"),
            punct(','),
            ident("b"),
            punct(':'),
            ident("u16"),
        ],
    ));
    let expected = vec![field("a", false, "u8"), field("b", false, "u16")];
    assert_eq!(parse_data(&tokens), parsed("A", expected));
}

#[test]
fn field_visibility_is_always_public_and_attributes_empty() {
    let tokens = record("A", vec![ident("a"), punct(':'), ident("u8")]);
    match parse_data(&tokens) {
        Ok(Data::Struct(record)) => {
            assert_eq!(record.fields.len(), 1);
            assert_eq!(record.fields[0].vis, Visibility::Public);
            assert!(record.fields[0].attributes.is_empty());
        }
        other => panic!("unexpected outcome: {:?}", other),
    }
}

#[test]
fn record_may_be_named_like_a_keyword() {
    let tokens = record("pub", vec![]);
    assert_eq!(parse_data(&tokens), parsed("pub", vec![]));
}

#[test]
fn annotations_before_the_declaration_leave_no_trace() {
    let mut tokens = doc("A point");
    tokens.extend(doc("in the plane"));
    tokens.extend(record("Point", vec![ident("x"), punct(':'), ident("f32")]));
    assert_eq!(parse_data(&tokens), parsed("Point", vec![field("x", false, "f32")]));
}

#[test]
fn annotations_before_fields_leave_no_trace() {
    let mut body = doc("first");
    body.extend(vec![ident("a"), punct(':'), ident("u8"), punct(',')]);
    body.extend(doc("second"));
    body.extend(doc("still second"));
    body.extend(vec![ident("pub"), ident("b"), punct(':'), ident("u16"), punct(',')]);
    let expected = vec![field("a", false, "u8"), field("b", false, "u16")];
    assert_eq!(parse_data(&record("A", body)), parsed("A", expected));
}

#[test]
fn annotation_payload_is_not_looked_into() {
    let mut tokens = vec![punct('#'), Token::Group(vec![punct('<'), punct(':'), punct('#')])];
    tokens.extend(vec![punct('#'), ident("anything")]);
    tokens.extend(vec![punct('#'), Token::Literal("1".to_string())]);
    tokens.extend(record("A", vec![]));
    assert_eq!(parse_data(&tokens), parsed("A", vec![]));
}

#[test]
fn annotated_and_bare_declarations_read_the_same() {
    let bare = record("A", vec![ident("a"), punct(':'), ident("u8")]);
    let mut annotated = doc("text");
    annotated.extend(record("A", vec![ident("a"), punct(':'), ident("u8")]));
    assert_eq!(parse_data(&annotated), parse_data(&bare));
}
