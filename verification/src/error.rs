//! The error taxonomy of the schema reader.
//!
//! Every error is terminal: the first one aborts the whole parse.  Each
//! carries the record name, field name or raw text needed for a
//! diagnostic.

use vstd::prelude::*;

verus! {

/// Why a parse failed.
#[derive(Debug, Clone, PartialEq, Eq)]
pub enum ParseError {
    /// An attribute or child element not in the schema, naming the
    /// record and the offending key or tag.
    UnknownField { name: String, field: String },
    /// A required field absent when its element closed, naming the
    /// record and the field.
    MissingField { name: String, field: String },
    /// An attribute or text value that its type refuses, carrying the
    /// field and the raw text.
    InvalidValue { field: String, value: String },
    /// An attribute that appeared twice on one element.
    DuplicateField { field: String },
    /// A close tag that does not match the element being read.
    TagMismatch { expected: String, found: String },
    /// A token where the grammar allows none such.
    UnexpectedToken,
    /// The token stream ended inside an element.
    UnexpectedEof,
    /// An entity reference that cannot be resolved, carrying the raw
    /// text it stands in.
    BadEntity { value: String },
    /// Malformed XML reported by the tokenizer, with its message.
    Tokenization { message: String },
}

/// View of [`ParseError`].
pub enum ErrV {
    UnknownField { name: Seq<char>, field: Seq<char> },
    MissingField { name: Seq<char>, field: Seq<char> },
    InvalidValue { field: Seq<char>, value: Seq<char> },
    DuplicateField { field: Seq<char> },
    TagMismatch { expected: Seq<char>, found: Seq<char> },
    UnexpectedToken,
    UnexpectedEof,
    BadEntity { value: Seq<char> },
    Tokenization { message: Seq<char> },
}

impl View for ParseError {
    type V = ErrV;

    open spec fn view(&self) -> ErrV {
        match self {
            ParseError::UnknownField { name, field } => ErrV::UnknownField {
                name: name@,
                field: field@,
            },
            ParseError::MissingField { name, field } => ErrV::MissingField {
                name: name@,
                field: field@,
            },
            ParseError::InvalidValue { field, value } => ErrV::InvalidValue {
                field: field@,
                value: value@,
            },
            ParseError::DuplicateField { field } => ErrV::DuplicateField { field: field@ },
            ParseError::TagMismatch { expected, found } => ErrV::TagMismatch {
                expected: expected@,
                found: found@,
            },
            ParseError::UnexpectedToken => ErrV::UnexpectedToken,
            ParseError::UnexpectedEof => ErrV::UnexpectedEof,
            ParseError::BadEntity { value } => ErrV::BadEntity { value: value@ },
            ParseError::Tokenization { message } => ErrV::Tokenization { message: message@ },
        }
    }
}

impl DeepView for ParseError {
    type V = ErrV;

    open spec fn deep_view(&self) -> ErrV {
        self.view()
    }
}

} // verus!
