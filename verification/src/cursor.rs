//! A lookahead cursor over a token stream. It looks at the next token
//! without taking it, takes it where it is the one asked for, and never
//! moves back.

use vstd::prelude::*;
use crate::error::ParseError;
use crate::grammar::{self, Parsed, MARKER};
use crate::text::reads;
use crate::token::{lemma_stream_view, stream_view, Token, TokenView};

verus! {

/// A position in a token stream. Its view is what is left of the stream.
pub struct Cursor<'a> {
    tokens: &'a [Token],
    pos: usize,
}

impl<'a> View for Cursor<'a> {
    type V = Seq<TokenView>;

    open spec fn view(&self) -> Seq<TokenView> {
        self.stream().skip(self.position() as int)
    }
}

impl<'a> Cursor<'a> {
    #[verifier::type_invariant]
    spec fn within_stream(self) -> bool {
        self.pos <= self.tokens@.len()
    }

    /// The whole stream that the cursor runs over.
    pub closed spec fn stream(&self) -> Seq<TokenView> {
        stream_view(self.tokens@)
    }

    /// How many tokens of the stream the cursor has passed.
    pub closed spec fn position(&self) -> nat {
        self.pos as nat
    }

    /// Whether this cursor is where `earlier` was or further on in the same
    /// stream.
    pub open spec fn follows(&self, earlier: &Cursor) -> bool {
        &&& self.stream() == earlier.stream()
        &&& earlier.position() <= self.position()
    }

    /// A cursor at the start of `tokens`.
    pub fn new(tokens: &'a [Token]) -> (cursor: Self)
        ensures
            cursor@ == stream_view(tokens@),
            cursor.stream() == stream_view(tokens@),
            cursor.position() == 0,
    {
        let cursor = Cursor { tokens, pos: 0 };
        assert(cursor@ =~= stream_view(tokens@));
        cursor
    }

    /// The next token, which stays where it is.
    pub fn peek(&self) -> (next: Option<&'a Token>)
        ensures
            match next {
                Some(token) => self@.len() > 0 && self@[0] == token@,
                None => self@.len() == 0,
            },
    {
        proof {
            use_type_invariant(self);
            lemma_stream_view(self.tokens@);
        }
        if self.pos < self.tokens.len() {
            Some(&self.tokens[self.pos])
        } else {
            None
        }
    }

    /// Moves past the next token.
    fn advance(&mut self)
        requires
            old(self)@.len() > 0,
        ensures
            final(self)@ == old(self)@.skip(1),
            final(self).follows(old(self)),
    {
        let len = self.tokens.len();
        proof {
            use_type_invariant(&*self);
            lemma_stream_view(self.tokens@);
            assert(self@.len() == len - self.pos);
        }
        self.pos = self.pos + 1;
        assert(self@ =~= old(self)@.skip(1));
    }

    /// Whether the stream has ended. Takes nothing.
    pub fn maybe_eof(&self) -> (ended: bool)
        ensures
            ended == (self@.len() == 0),
    {
        self.peek().is_none()
    }

    /// Takes the next token if it is a punctuation mark, and returns its
    /// character.
    pub fn maybe_punct(&mut self) -> (taken: Option<char>)
        ensures
            taken == grammar::leading_punct(old(self)@),
            final(self)@ == grammar::after_separator(old(self)@),
            final(self).follows(old(self)),
    {
        match self.peek() {
            Some(Token::Punct(c)) => {
                self.advance();
                Some(*c)
            },
            _ => None,
        }
    }

    /// Takes the next token if it is the punctuation mark `pattern`.
    pub fn maybe_exact_punct(&mut self, pattern: char) -> (taken: Option<char>)
        ensures
            taken == if grammar::starts_with_punct(old(self)@, pattern) {
                Some(pattern)
            } else {
                None
            },
            final(self)@ == if taken is Some {
                old(self)@.skip(1)
            } else {
                old(self)@
            },
            final(self).follows(old(self)),
    {
        match self.peek() {
            Some(Token::Punct(c)) => {
                if *c == pattern {
                    self.advance();
                    Some(*c)
                } else {
                    None
                }
            },
            _ => None,
        }
    }

    /// Takes the next token if it is the identifier `pub`.
    pub fn maybe_visibility_modifier(&mut self) -> (taken: Option<String>)
        ensures
            taken is Some <==> grammar::starts_with_ident(old(self)@, "pub"@),
            taken matches Some(word) ==> word@ == "pub"@,
            final(self)@ == grammar::after_visibility(old(self)@),
            final(self).follows(old(self)),
    {
        match self.peek() {
            Some(Token::Ident(text)) => {
                if reads(text, "pub") {
                    self.advance();
                    Some(text.clone())
                } else {
                    None
                }
            },
            _ => None,
        }
    }

    /// Takes one annotation if the next token is the marker: the marker and
    /// the token after it, whatever that is. Says whether it took one. Fails
    /// where the stream ends with the marker, which is then taken.
    pub fn maybe_doc_comment(&mut self) -> (taken: Result<bool, ParseError>)
        ensures
            match taken {
                Ok(true) => {
                    &&& grammar::starts_with_punct(old(self)@, MARKER)
                    &&& old(self)@.len() >= 2
                    &&& final(self)@ == old(self)@.skip(2)
                },
                Ok(false) => {
                    &&& !grammar::starts_with_punct(old(self)@, MARKER)
                    &&& final(self)@ == old(self)@
                },
                Err(e) => {
                    &&& e == ParseError::UnexpectedEnd
                    &&& grammar::starts_with_punct(old(self)@, MARKER)
                    &&& old(self)@.len() == 1
                    &&& final(self)@ == old(self)@.skip(1)
                },
            },
            final(self).follows(old(self)),
    {
        match self.maybe_exact_punct(MARKER) {
            Some(_) => {
                if self.maybe_eof() {
                    Err(ParseError::UnexpectedEnd)
                } else {
                    assert(old(self)@.skip(1).len() == old(self)@.len() - 1);
                    self.advance();
                    assert(self@ =~= old(self)@.skip(2));
                    Ok(true)
                }
            },
            None => Ok(false),
        }
    }

    /// Takes the next token, which has to be an identifier, and returns its
    /// text. Where it is not there, nothing is taken.
    pub fn next_ident(&mut self, unmet: ParseError) -> (taken: Result<String, ParseError>)
        ensures
            match taken {
                Ok(text) => grammar::ident(old(self)@, unmet) == Parsed::<Seq<char>>::Ok(
                    (text@, final(self)@),
                ),
                Err(e) => {
                    &&& grammar::ident(old(self)@, unmet) == Parsed::<Seq<char>>::Err(e)
                    &&& final(self)@ == old(self)@
                },
            },
            final(self).follows(old(self)),
    {
        match self.peek() {
            Some(Token::Ident(text)) => {
                self.advance();
                Ok(text.clone())
            },
            Some(_) => Err(unmet),
            None => Err(ParseError::UnexpectedEnd),
        }
    }

    /// Takes the next token, which has to be a punctuation mark, and returns
    /// its character. Where it is not there, nothing is taken.
    pub fn next_punct(&mut self, unmet: ParseError) -> (taken: Result<char, ParseError>)
        ensures
            match taken {
                Ok(c) => grammar::punct(old(self)@, unmet) == Parsed::<char>::Ok(
                    (c, final(self)@),
                ),
                Err(e) => {
                    &&& grammar::punct(old(self)@, unmet) == Parsed::<char>::Err(e)
                    &&& final(self)@ == old(self)@
                },
            },
            final(self).follows(old(self)),
    {
        match self.peek() {
            Some(Token::Punct(c)) => {
                self.advance();
                Ok(*c)
            },
            Some(_) => Err(unmet),
            None => Err(ParseError::UnexpectedEnd),
        }
    }

    /// Takes the next token, which has to be a group, and returns the tokens
    /// inside it. Where it is not there, nothing is taken.
    pub fn next_group(&mut self, unmet: ParseError) -> (taken: Result<
        &'a Vec<Token>,
        ParseError,
    >)
        ensures
            match taken {
                Ok(inner) => grammar::group(old(self)@, unmet) == Parsed::<Seq<TokenView>>::Ok(
                    (stream_view(inner@), final(self)@),
                ),
                Err(e) => {
                    &&& grammar::group(old(self)@, unmet) == Parsed::<Seq<TokenView>>::Err(e)
                    &&& final(self)@ == old(self)@
                },
            },
            final(self).follows(old(self)),
    {
        match self.peek() {
            Some(Token::Group(inner)) => {
                self.advance();
                Ok(inner)
            },
            Some(_) => Err(unmet),
            None => Err(ParseError::UnexpectedEnd),
        }
    }
}

} // verus!
