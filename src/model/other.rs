//! Records of the currencies, categories and sentence parsing parts of the API.

use vstd::prelude::*;
use crate::model::shared::Image;

verus! {

/// A currency that the ledger supports.
#[derive(Clone, Debug, Default, PartialEq, Eq)]
pub struct Currency {
    pub currency_code: Option<String>,
    pub unit: Option<String>,
}

/// An expense category, with its subcategories.
#[derive(Debug, Default, PartialEq, Eq)]
pub struct Category {
    pub id: Option<i64>,
    pub name: Option<String>,
    pub icon: Option<String>,
    /// Icons by kind, in the order the response gave them.
    pub icon_types: Option<Vec<(String, Image)>>,
    pub subcategories: Option<Vec<Category>>,
}

/// Request to turn a sentence into an expense.
#[derive(Clone, Debug, Default, PartialEq, Eq)]
pub struct ParseSentenceRequest {
    pub input: String,
    pub friend_id: Option<i64>,
    pub group_id: Option<i64>,
    pub autosave: bool,
}

} // verus!
