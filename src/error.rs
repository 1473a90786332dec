//! What can go wrong when a subject is parsed or built.

use vstd::prelude::*;

verus! {

/// The fields of a subject, named in errors.
#[derive(Debug, Clone, Copy, PartialEq, Eq, Structural)]
pub enum Field {
    Environment,
    OwnershipGroup,
    GeoLocator,
    ServiceIdentifier,
    PayloadType,
    PayloadIdentifier,
}

/// Why a subject, or one of its fields, was rejected.
#[derive(Debug, Clone, PartialEq, Eq)]
pub enum SubjectError {
    /// A fixed-vocabulary field got a token outside its vocabulary.
    InvalidEnumToken { field: Field, value: String },
    /// A composite field got the wrong number of tokens, or a token it does not take
    /// (an empty one where it needs text, a dotted one, a sentinel as region code).
    InvalidArity { field: Field },
    /// Too few tokens for the fixed fields.
    TooShort,
    /// The region code of an explicit locator is not a recognised subdivision code.
    InvalidGeoCode { code: String },
    /// A builder was asked to build before this field was set.
    MissingField { field: Field },
}

/// The mathematical value of a `SubjectError`.
pub enum ErrorView {
    InvalidEnumToken { field: Field, value: Seq<char> },
    InvalidArity { field: Field },
    TooShort,
    InvalidGeoCode { code: Seq<char> },
    MissingField { field: Field },
}

impl View for SubjectError {
    type V = ErrorView;

    open spec fn view(&self) -> ErrorView {
        match self {
            SubjectError::InvalidEnumToken { field, value } => ErrorView::InvalidEnumToken {
                field: *field,
                value: value@,
            },
            SubjectError::InvalidArity { field } => ErrorView::InvalidArity { field: *field },
            SubjectError::TooShort => ErrorView::TooShort,
            SubjectError::InvalidGeoCode { code } => ErrorView::InvalidGeoCode { code: code@ },
            SubjectError::MissingField { field } => ErrorView::MissingField { field: *field },
        }
    }
}

} // verus!
