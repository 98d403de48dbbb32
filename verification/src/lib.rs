//! A parser for one record-type declaration, given as a stream of lexical
//! tokens, into a structured model of its name and fields.
//!
//! The grammar is small: annotations, an optional `pub`, `struct`, a name and
//! a delimited body of fields, each a name, `:` and a type. A type is a path
//! with at most one list of generic arguments; `Option<..>` is told apart
//! and gives way to what it wraps. Parsing is one pass with one token of
//! lookahead and stops at the first expectation that the stream fails.
//!
//! [`grammar`] states what every stream reads as. [`parse`], over the
//! [`cursor`], holds the parser, which is proved to compute just that.
//! [`laws`] states what follows for declarations as they are [`written`],
//! with the help of [`context`].

pub mod context;
pub mod cursor;
pub mod error;
pub mod grammar;
pub mod laws;
pub mod model;
pub mod parse;
pub mod text;
pub mod token;
pub mod written;

pub use error::ParseError;
pub use model::{Attribute, Data, Field, Struct, Type, Visibility};
pub use parse::parse_data;
pub use token::Token;
