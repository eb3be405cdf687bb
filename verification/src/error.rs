//! The errors that resolving and validating scenario elements report.
use vstd::prelude::*;

verus! {

/// An error raised while resolving parameters, reading catalog entries or
/// validating documents.
#[derive(Debug, Clone, PartialEq)]
pub enum Error {
    /// A parameter was referenced that the substitution map does not hold.
    ParameterNotFound { name: String, available: Vec<String> },
    /// A value is not one the attribute accepts.
    InvalidValue { field: String, value: String, expected: String },
    /// A parameter's text does not denote a value of the attribute's type.
    ParseError { value: String, target: String },
    /// An expression was met where a resolved value was needed.
    UnresolvedExpression { expression: String },
    /// A catalog entry could not be resolved.
    CatalogError { message: String },
    /// A document or one of its fields failed validation.
    ValidationError { field: String, message: String },
    /// A file that was asked for does not exist.
    FileNotFound { path: String },
    /// A file exists but could not be read.
    FileReadError { path: String, reason: String },
}

/// The mathematical content of an [`Error`]: every string by its characters.
pub enum ErrorView {
    ParameterNotFound { name: Seq<char>, available: Seq<Seq<char>> },
    InvalidValue { field: Seq<char>, value: Seq<char>, expected: Seq<char> },
    ParseError { value: Seq<char>, target: Seq<char> },
    UnresolvedExpression { expression: Seq<char> },
    CatalogError { message: Seq<char> },
    ValidationError { field: Seq<char>, message: Seq<char> },
    FileNotFound { path: Seq<char> },
    FileReadError { path: Seq<char>, reason: Seq<char> },
}

/// The characters of each string in `v`.
pub open spec fn strings_view(v: Seq<String>) -> Seq<Seq<char>> {
    v.map_values(|s: String| s@)
}

impl View for Error {
    type V = ErrorView;

    open spec fn view(&self) -> ErrorView {
        match self {
            Error::ParameterNotFound { name, available } => ErrorView::ParameterNotFound {
                name: name@,
                available: strings_view(available@),
            },
            Error::InvalidValue { field, value, expected } => ErrorView::InvalidValue {
                field: field@,
                value: value@,
                expected: expected@,
            },
            Error::ParseError { value, target } => ErrorView::ParseError {
                value: value@,
                target: target@,
            },
            Error::UnresolvedExpression { expression } => ErrorView::UnresolvedExpression {
                expression: expression@,
            },
            Error::CatalogError { message } => ErrorView::CatalogError { message: message@ },
            Error::ValidationError { field, message } => ErrorView::ValidationError {
                field: field@,
                message: message@,
            },
            Error::FileNotFound { path } => ErrorView::FileNotFound { path: path@ },
            Error::FileReadError { path, reason } => ErrorView::FileReadError {
                path: path@,
                reason: reason@,
            },
        }
    }
}

impl Error {
    /// An error for a parameter that the substitution map does not hold.
    pub fn parameter_not_found(name: &str, available: Vec<String>) -> (e: Error)
        ensures
            e@ == (ErrorView::ParameterNotFound { name: name@, available: strings_view(available@) }),
    {
        Error::ParameterNotFound { name: name.to_owned(), available }
    }

    /// An error for a value that an attribute does not accept.
    pub fn invalid_value(field: &str, value: &str, expected: &str) -> (e: Error)
        ensures
            e@ == (ErrorView::InvalidValue { field: field@, value: value@, expected: expected@ }),
    {
        Error::InvalidValue {
            field: field.to_owned(),
            value: value.to_owned(),
            expected: expected.to_owned(),
        }
    }

    /// An error about a catalog entry.
    pub fn catalog_error(message: String) -> (e: Error)
        ensures
            e@ == (ErrorView::CatalogError { message: message@ }),
    {
        Error::CatalogError { message }
    }
}

} // verus!
