//! Records of the users part of the API.

use vstd::prelude::*;

verus! {

/// Update user request.
#[derive(Clone, Debug, Default, PartialEq, Eq)]
pub struct UpdateUserRequest {
    pub first_name: Option<String>,
    pub last_name: Option<String>,
    pub email: Option<String>,
    pub password: Option<String>,
    pub default_currency: Option<String>,
    pub locale: Option<String>,
}

} // verus!
