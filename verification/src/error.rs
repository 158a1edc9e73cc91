//! Why a recipe could not be produced, and the one text that a foreign caller
//! gets to see of it.

use vstd::prelude::*;

verus! {

/// The causes of a failed parse. The two that come from outside carry the
/// text that the failing collaborator gave.
#[derive(Debug)]
pub enum ParseError {
    /// No path was given: the path text is empty.
    InvalidArgument,
    /// The path is not text in the UTF-8 encoding.
    PathEncoding,
    /// The file could not be opened; the text is the I/O error's description.
    FileAccess(String),
    /// The file was read but is not a recipe document; the text is the
    /// deserializer's description.
    Deserialization(String),
}

/// The diagnostic for a path that is empty.
pub open spec fn invalid_argument_text() -> Seq<char> {
    "invalid argument: the path is empty"@
}

/// The diagnostic for a path that is not UTF-8.
pub open spec fn path_encoding_text() -> Seq<char> {
    "invalid path: the path is not valid UTF-8"@
}

impl ParseError {
    /// The diagnostic text of this error. The cause is not kept apart in it:
    /// a text from outside is handed on as it came.
    pub open spec fn message_text(&self) -> Seq<char> {
        match self {
            ParseError::InvalidArgument => invalid_argument_text(),
            ParseError::PathEncoding => path_encoding_text(),
            ParseError::FileAccess(text) => text@,
            ParseError::Deserialization(text) => text@,
        }
    }

    /// Collapses the error into its diagnostic text.
    pub fn into_message(self) -> (message: String)
        ensures
            message@ == self.message_text(),
    {
        match self {
            ParseError::InvalidArgument => "invalid argument: the path is empty".to_owned(),
            ParseError::PathEncoding => "invalid path: the path is not valid UTF-8".to_owned(),
            ParseError::FileAccess(text) => text,
            ParseError::Deserialization(text) => text,
        }
    }
}

} // verus!
