//! Records nested in a transaction of the export file.

use vstd::prelude::*;

verus! {

/// The account a transaction belongs to.
#[derive(Clone, Debug, Default, PartialEq, Eq)]
pub struct AccountRef {
    pub id: String,
    pub name: String,
    /// Kind of the account.
    pub type_field: String,
    pub hidden_from_planning_and_trends: bool,
}

/// The category the export gave a transaction.
#[derive(Clone, Debug, Default, PartialEq, Eq)]
pub struct Category {
    pub id: String,
    pub name: String,
    pub category_type: String,
    pub parent_id: String,
    pub parent_name: String,
}

/// The category the bank inferred for a transaction.
#[derive(Clone, Debug, Default, PartialEq, Eq)]
pub struct InferredCategory {
    pub id: String,
    pub name: String,
}

} // verus!
