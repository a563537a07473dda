//! The error taxonomy shared by every operation, and its rendering into the
//! structured response body that the HTTP edge serializes.

use vstd::prelude::*;
use vstd::string::*;

verus! {

/// The precise validation failure behind an `ApiError::ValidationError`.
#[derive(Clone, Copy, Debug, PartialEq, Eq, Structural)]
pub enum ValidationCode {
    /// An identifier that is not in the canonical hyphenated shape.
    InvalidUuid,
    /// A movement quantity that is zero or negative.
    InvalidQuantity,
    /// A name shorter than three characters.
    NameTooShort,
    /// A printer model shorter than three characters.
    ModelTooShort,
    /// A negative stock count.
    NegativeStock,
}

/// Everything an operation can fail with.
#[derive(Clone, Copy, Debug, PartialEq, Eq, Structural)]
pub enum ApiError {
    /// The backing store failed mid-transaction; the whole write is rolled
    /// back and no partial effect remains.
    DatabaseError,
    /// A structurally invalid request, rejected before any state is touched.
    ValidationError(ValidationCode),
    /// The provided id does not correspond to any existing resource.
    IdNotFound,
    /// A resource with the provided name already exists.
    AlreadyExists,
    /// No updates were made for the provided id.
    NotModified,
}

/// The structured body returned for a failed request.
pub struct ErrorResponse {
    pub code: String,
    pub message: String,
    pub details: Option<String>,
}

impl ApiError {
    /// The HTTP status each error maps to.
    pub open spec fn spec_status_code(self) -> u16 {
        match self {
            ApiError::DatabaseError => 500,
            ApiError::ValidationError(_) => 400,
            ApiError::IdNotFound => 404,
            ApiError::NotModified => 304,
            ApiError::AlreadyExists => 409,
        }
    }

    /// The machine-readable code of the response body.
    pub open spec fn spec_code(self) -> Seq<char> {
        match self {
            ApiError::DatabaseError => "DATABASE_ERROR"@,
            ApiError::ValidationError(_) => "VALIDATION_ERROR"@,
            ApiError::IdNotFound => "ID_NOT_FOUND"@,
            ApiError::NotModified => "NOT_MODIFIED"@,
            ApiError::AlreadyExists => "ALREADY_EXISTS"@,
        }
    }

    /// The human-readable message of the response body.
    pub open spec fn spec_message(self) -> Seq<char> {
        match self {
            ApiError::DatabaseError => "An unexpected database error occurred."@,
            ApiError::ValidationError(_) => "One or more validation errors occurred."@,
            ApiError::IdNotFound => "The provided ID does not exist."@,
            ApiError::NotModified => "No updates were made for the provided ID."@,
            ApiError::AlreadyExists => "A resource with the provided details already exists."@,
        }
    }

    pub fn status_code(&self) -> (r: u16)
        ensures
            r == self.spec_status_code(),
    {
        match self {
            ApiError::DatabaseError => 500,
            ApiError::ValidationError(_) => 400,
            ApiError::IdNotFound => 404,
            ApiError::NotModified => 304,
            ApiError::AlreadyExists => 409,
        }
    }

    /// The status and body that the HTTP edge turns into a response.
    pub fn response_parts(&self) -> (r: (u16, ErrorResponse))
        ensures
            r.0 == self.spec_status_code(),
            r.1.code@ == self.spec_code(),
            r.1.message@ == self.spec_message(),
            r.1.details is Some,
    {
        match self {
            ApiError::DatabaseError => (
                500,
                ErrorResponse {
                    code: String::from_str("DATABASE_ERROR"),
                    message: String::from_str("An unexpected database error occurred."),
                    details: Some(
                        String::from_str("Please try again later or contact support."),
                    ),
                },
            ),
            ApiError::ValidationError(_) => (
                400,
                ErrorResponse {
                    code: String::from_str("VALIDATION_ERROR"),
                    message: String::from_str("One or more validation errors occurred."),
                    details: Some(String::from_str("One or more fields failed validation.")),
                },
            ),
            ApiError::IdNotFound => (
                404,
                ErrorResponse {
                    code: String::from_str("ID_NOT_FOUND"),
                    message: String::from_str("The provided ID does not exist."),
                    details: Some(
                        String::from_str(
                            "Please verify that the ID is correct and try again.",
                        ),
                    ),
                },
            ),
            ApiError::NotModified => (
                304,
                ErrorResponse {
                    code: String::from_str("NOT_MODIFIED"),
                    message: String::from_str("No updates were made for the provided ID."),
                    details: Some(
                        String::from_str(
                            "The provided ID may not exist, or no fields were changed. Please verify the ID and the update values.",
                        ),
                    ),
                },
            ),
            ApiError::AlreadyExists => (
                409,
                ErrorResponse {
                    code: String::from_str("ALREADY_EXISTS"),
                    message: String::from_str(
                        "A resource with the provided details already exists.",
                    ),
                    details: Some(String::from_str("Please choose a different name.")),
                },
            ),
        }
    }
}

} // verus!
