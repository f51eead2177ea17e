use vstd::prelude::*;

verus! {

/// What an error is, mathematically.
pub enum ErrorModel {
    Validation(Seq<char>),
    NotFound(u128),
    Persistence(Seq<char>),
}

/// The failures of the item operations.
#[derive(Debug)]
pub enum AppError {
    /// The request broke an input constraint.
    Validation(String),
    /// No item has this identifier.
    NotFound(u128),
    /// The store refused or failed the operation.
    Persistence(String),
}

impl View for AppError {
    type V = ErrorModel;

    open spec fn view(&self) -> ErrorModel {
        match self {
            AppError::Validation(m) => ErrorModel::Validation(m@),
            AppError::NotFound(id) => ErrorModel::NotFound(*id),
            AppError::Persistence(m) => ErrorModel::Persistence(m@),
        }
    }
}

pub open spec fn not_found_message() -> Seq<char> {
    "item not found"@
}

/// The HTTP status that an error is answered with.
pub open spec fn status_of(e: ErrorModel) -> u16 {
    match e {
        ErrorModel::Validation(_) => 400,
        ErrorModel::NotFound(_) => 404,
        ErrorModel::Persistence(_) => 500,
    }
}

/// The text of the `error` field of the response body.
pub open spec fn message_of(e: ErrorModel) -> Seq<char> {
    match e {
        ErrorModel::Validation(m) => m,
        ErrorModel::NotFound(_) => not_found_message(),
        ErrorModel::Persistence(m) => m,
    }
}

impl AppError {
    pub fn status_code(&self) -> (r: u16)
        ensures
            r == status_of(self@),
    {
        match self {
            AppError::Validation(_) => 400,
            AppError::NotFound(_) => 404,
            AppError::Persistence(_) => 500,
        }
    }

    pub fn message(&self) -> (r: String)
        ensures
            r@ == message_of(self@),
    {
        match self {
            AppError::Validation(m) => m.clone(),
            AppError::NotFound(_) => String::from_str("item not found"),
            AppError::Persistence(m) => m.clone(),
        }
    }
}

} // verus!
