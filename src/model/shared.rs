//! Records shared by several parts of the API.

use vstd::prelude::*;
use crate::text::{join, joined};

verus! {

/// Unauthorized error.
#[derive(Clone, Debug, Default, PartialEq, Eq)]
pub struct ErrorUnauthorized {
    /// Error that occurred during this request.
    pub error: String,
}

/// Forbidden or not found error.
#[derive(Clone, Debug, Default, PartialEq, Eq)]
pub struct ErrorForbiddenOrNotFound {
    /// Errors that occurred during this request.
    pub errors: ErrorsBase,
}

/// Error wrapper.
#[derive(Clone, Debug, Default, PartialEq, Eq)]
pub struct ErrorsBase {
    /// List of errors that occurred.
    pub base: Vec<String>,
}

impl ErrorForbiddenOrNotFound {
    /// All the errors as one message, separated by `"; "`.
    pub fn message(&self) -> (r: String)
        ensures
            r@ == joined(self.errors.base@, "; "@),
    {
        join(self.errors.base.as_slice(), "; ")
    }
}

/// Success wrapper, with the errors of each field where the request failed.
#[derive(Clone, Debug, Default, PartialEq, Eq)]
pub struct Success {
    /// Whether the request succeeded.
    pub success: bool,
    /// Errors by field, in the order the response gave them.
    pub errors: Option<Vec<(String, Vec<String>)>>,
}

/// An image in various sizes.
#[derive(Clone, Debug, Default, PartialEq, Eq)]
pub struct Image {
    pub original: Option<String>,
    pub small: Option<String>,
    pub medium: Option<String>,
    pub large: Option<String>,
    pub xlarge: Option<String>,
    pub xxlarge: Option<String>,
}

/// Balance that a user carries.
#[derive(Clone, Debug, Default, PartialEq, Eq)]
pub struct Balance {
    /// Currency code.
    pub currency_code: Option<String>,
    /// Amount of money in the balance.
    pub amount: Option<String>,
}

/// Debt relationship between two users.
#[derive(Clone, Debug, Default, PartialEq, Eq)]
pub struct Debt {
    /// ID of the user who owes money.
    pub from: Option<i64>,
    /// ID of the user who paid money.
    pub to: Option<i64>,
    /// Decimal amount as a string with 2 decimal places.
    pub amount: Option<String>,
    /// A currency code.
    pub currency_code: Option<String>,
}

} // verus!
