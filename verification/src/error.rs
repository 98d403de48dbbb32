//! The ways in which a token stream can fail to be a record declaration.

use vstd::prelude::*;

verus! {

/// The expectation that a token stream failed to meet. Parsing stops at the
/// first one: there is no recovery and no partial result.
#[derive(Clone, Copy, Debug, PartialEq, Eq, Structural)]
pub enum ParseError {
    /// The stream ended where a token was required.
    UnexpectedEnd,
    /// The declaration does not start with an identifier.
    ExpectedIdent,
    /// `pub` is followed by something other than the declaration keyword,
    /// as in `pub(crate)`.
    UnsupportedVisibility,
    /// The declaration keyword is not `struct`.
    ExpectedStruct,
    /// The declaration keyword is not followed by a name.
    UnnamedStruct,
    /// The name is not followed by a delimited group.
    ExpectedBody,
    /// A field does not start with its name.
    ExpectedFieldName,
    /// A field's name is not followed by punctuation.
    ExpectedDelimiter,
    /// A field's name is followed by punctuation other than `:`.
    WrongDelimiter,
    /// A field's `:` is not followed by a type.
    ExpectedFieldType,
    /// A `:` in a path is not followed by a second `:`.
    ExpectedSecondColon,
    /// A `::` in a path is not followed by an identifier.
    ExpectedPathSegment,
    /// A `<` or a `,` in a generic argument list is not followed by a type.
    ExpectedGenericArgument,
    /// A generic argument list is not closed by `>`.
    ExpectedClosingBracket,
    /// Tokens follow the declaration's body.
    TrailingTokens,
}

impl ParseError {
    /// The text of the diagnostic.
    pub open spec fn text(self) -> Seq<char> {
        match self {
            ParseError::UnexpectedEnd => "Unexpected end of input"@,
            ParseError::ExpectedIdent => "Not an ident"@,
            ParseError::UnsupportedVisibility => "pub(whatever) is not supported yet"@,
            ParseError::ExpectedStruct => "Only structs are supported"@,
            ParseError::UnnamedStruct => "Unnamed structs are not supported"@,
            ParseError::ExpectedBody => "Struct body expected"@,
            ParseError::ExpectedFieldName => "Field name expected"@,
            ParseError::ExpectedDelimiter => "Delimiter after field name expected"@,
            ParseError::WrongDelimiter => "Expecting : after field name"@,
            ParseError::ExpectedFieldType => "Expected field type"@,
            ParseError::ExpectedSecondColon => "Expecting second :"@,
            ParseError::ExpectedPathSegment => "Expecting next path part after ::"@,
            ParseError::ExpectedGenericArgument => "Expecting generic argument"@,
            ParseError::ExpectedClosingBracket => "Expecting closing generic bracket"@,
            ParseError::TrailingTokens => "Unexpected data after end of the struct"@,
        }
    }

    /// A human-readable diagnostic that names the unmet expectation.
    pub fn message(&self) -> (message: String)
        ensures
            message@ == self.text(),
    {
        match self {
            ParseError::UnexpectedEnd => String::from_str("Unexpected end of input"),
            ParseError::ExpectedIdent => String::from_str("Not an ident"),
            ParseError::UnsupportedVisibility => String::from_str(
                "pub(whatever) is not supported yet",
            ),
            ParseError::ExpectedStruct => String::from_str("Only structs are supported"),
            ParseError::UnnamedStruct => String::from_str("Unnamed structs are not supported"),
            ParseError::ExpectedBody => String::from_str("Struct body expected"),
            ParseError::ExpectedFieldName => String::from_str("Field name expected"),
            ParseError::ExpectedDelimiter => String::from_str(
                "Delimiter after field name expected",
            ),
            ParseError::WrongDelimiter => String::from_str("Expecting : after field name"),
            ParseError::ExpectedFieldType => String::from_str("Expected field type"),
            ParseError::ExpectedSecondColon => String::from_str("Expecting second :"),
            ParseError::ExpectedPathSegment => String::from_str(
                "Expecting next path part after ::",
            ),
            ParseError::ExpectedGenericArgument => String::from_str("Expecting generic argument"),
            ParseError::ExpectedClosingBracket => String::from_str(
                "Expecting closing generic bracket",
            ),
            ParseError::TrailingTokens => String::from_str(
                "Unexpected data after end of the struct",
            ),
        }
    }
}

} // verus!
