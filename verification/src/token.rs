//! The lexical tokens that the parser reads, and their mathematical view.

use vstd::prelude::*;

verus! {

/// One lexical token, as a tokenizer hands it over.
#[derive(Debug, PartialEq, Eq)]
pub enum Token {
    /// An identifier or keyword, with its text.
    Ident(String),
    /// A single punctuation character.
    Punct(char),
    /// A delimited group, with the tokens between its delimiters.
    Group(Vec<Token>),
    /// A literal, with its text. No rule of the grammar accepts one.
    Literal(String),
}

/// What a [`Token`] stands for in specifications.
pub enum TokenView {
    Ident(Seq<char>),
    Punct(char),
    Group(Seq<TokenView>),
    Literal(Seq<char>),
}

/// The view of one token: its kind, and its text or its inner stream's view.
pub open spec fn token_view(token: Token) -> TokenView
    decreases token, 0nat,
{
    match token {
        Token::Ident(text) => TokenView::Ident(text@),
        Token::Punct(c) => TokenView::Punct(c),
        Token::Group(inner) => TokenView::Group(stream_view(inner@)),
        Token::Literal(text) => TokenView::Literal(text@),
    }
}

/// The views of the tokens of a stream, in order.
pub open spec fn stream_view(tokens: Seq<Token>) -> Seq<TokenView>
    decreases tokens, 1nat,
{
    if tokens.len() == 0 {
        Seq::empty()
    } else {
        stream_view(tokens.drop_last()).push(token_view(tokens.last()))
    }
}

impl View for Token {
    type V = TokenView;

    open spec fn view(&self) -> TokenView {
        token_view(*self)
    }
}

/// A stream's view has one entry for each token, the token's own view.
pub proof fn lemma_stream_view(tokens: Seq<Token>)
    ensures
        stream_view(tokens).len() == tokens.len(),
        forall|i: int| 0 <= i < tokens.len() ==> #[trigger] stream_view(tokens)[i] == tokens[i]@,
    decreases tokens.len(),
{
    if tokens.len() > 0 {
        lemma_stream_view(tokens.drop_last());
    }
}

} // verus!
