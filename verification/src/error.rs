//! The error kinds of the library and how each maps to an HTTP status.

use vstd::prelude::*;

verus! {

/// What can go wrong while serving a request: a row that is absent,
/// a failure of the underlying store, a request value that does not
/// validate, or a view that cannot be rendered.
#[derive(Clone, Copy, Debug, PartialEq, Eq, Structural)]
pub enum ApiError {
    /// The addressed row does not exist.
    NotFound,
    /// The underlying store failed to run a query.
    StoreError,
    /// A request value (such as a filter keyword) was rejected.
    ValidationError,
    /// A view could not be rendered from the data.
    RenderError,
}

impl ApiError {
    /// The HTTP status that a handler answers with for this error.
    pub open spec fn spec_status(self) -> u16 {
        match self {
            ApiError::NotFound => 404,
            ApiError::StoreError => 500,
            ApiError::ValidationError => 400,
            ApiError::RenderError => 500,
        }
    }

    /// Maps the error to its HTTP status code: absent rows answer 404,
    /// store and render failures 500, rejected request values 400.
    pub fn status_code(&self) -> (code: u16)
        ensures
            code == self.spec_status(),
    {
        match self {
            ApiError::NotFound => 404,
            ApiError::StoreError => 500,
            ApiError::ValidationError => 400,
            ApiError::RenderError => 500,
        }
    }
}

} // verus!
