use vstd::prelude::*;
use crate::response::ApiResponse;

verus! {

/// Failures that the library reports. Storage and serialization failures carry
/// no detail: it is logged where the failure happens and never shown to a caller.
#[derive(Debug)]
pub enum AppError {
    MongoError,
    MongoBsonError,
    AuthError(String),
    NotFound(String),
    ValidationError(String),
    PaymentError(String),
    InternalError,
    S3Error(String),
}

/// The mathematical form of an [`AppError`]: its kind and its message as characters.
pub ghost enum ErrorModel {
    MongoError,
    MongoBsonError,
    AuthError(Seq<char>),
    NotFound(Seq<char>),
    ValidationError(Seq<char>),
    PaymentError(Seq<char>),
    InternalError,
    S3Error(Seq<char>),
}

impl View for AppError {
    type V = ErrorModel;

    open spec fn view(&self) -> ErrorModel {
        match self {
            AppError::MongoError => ErrorModel::MongoError,
            AppError::MongoBsonError => ErrorModel::MongoBsonError,
            AppError::AuthError(m) => ErrorModel::AuthError(m@),
            AppError::NotFound(m) => ErrorModel::NotFound(m@),
            AppError::ValidationError(m) => ErrorModel::ValidationError(m@),
            AppError::PaymentError(m) => ErrorModel::PaymentError(m@),
            AppError::InternalError => ErrorModel::InternalError,
            AppError::S3Error(m) => ErrorModel::S3Error(m@),
        }
    }
}

/// HTTP status that each kind of failure is reported with.
pub open spec fn status_of(e: ErrorModel) -> u16 {
    match e {
        ErrorModel::ValidationError(_) => 400,
        ErrorModel::AuthError(_) => 401,
        ErrorModel::PaymentError(_) => 402,
        ErrorModel::NotFound(_) => 404,
        _ => 500,
    }
}

/// Message shown to the caller: the specific text for caller-actionable kinds,
/// a generic one for database, storage, serialization and internal failures.
pub open spec fn public_message_of(e: ErrorModel) -> Seq<char> {
    match e {
        ErrorModel::MongoError => "Database error"@,
        ErrorModel::MongoBsonError => "Serialization error"@,
        ErrorModel::AuthError(m) => m,
        ErrorModel::NotFound(m) => m,
        ErrorModel::ValidationError(m) => m,
        ErrorModel::PaymentError(m) => m,
        ErrorModel::InternalError => "Internal error"@,
        ErrorModel::S3Error(_) => "Storage error"@,
    }
}

impl AppError {
    /// The transport status for this failure.
    pub fn status_code(&self) -> (r: u16)
        ensures
            r == status_of(self@),
    {
        match self {
            AppError::ValidationError(_) => 400,
            AppError::AuthError(_) => 401,
            AppError::PaymentError(_) => 402,
            AppError::NotFound(_) => 404,
            _ => 500,
        }
    }

    /// The message that crosses the boundary for this failure.
    pub fn public_message(&self) -> (r: String)
        ensures
            r@ == public_message_of(self@),
    {
        match self {
            AppError::MongoError => String::from_str("Database error"),
            AppError::MongoBsonError => String::from_str("Serialization error"),
            AppError::AuthError(m) => m.clone(),
            AppError::NotFound(m) => m.clone(),
            AppError::ValidationError(m) => m.clone(),
            AppError::PaymentError(m) => m.clone(),
            AppError::InternalError => String::from_str("Internal error"),
            AppError::S3Error(_) => String::from_str("Storage error"),
        }
    }

    /// The status and error envelope that report this failure.
    pub fn to_response(&self) -> (r: (u16, ApiResponse<String>))
        ensures
            r.0 == status_of(self@),
            r.1.status@ == "error"@,
            r.1.message matches Some(m) && m@ == public_message_of(self@),
            r.1.data.is_none(),
    {
        let message = self.public_message();
        (self.status_code(), ApiResponse::error(message.as_str()))
    }
}

} // verus!
