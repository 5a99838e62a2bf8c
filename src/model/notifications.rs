//! Records of the notifications part of the API.

use vstd::prelude::*;

verus! {

/// What a notification is about.
#[derive(Clone, Debug, Default, PartialEq, Eq)]
pub struct NotificationSource {
    /// Kind of the source, such as `"Expense"`.
    pub source_type: String,
    pub id: i64,
    pub url: Option<String>,
}

/// Kinds of notification, in the order of their numeric codes from 0.
#[derive(Clone, Copy, Debug, PartialEq, Eq, Structural)]
pub enum NotificationType {
    ExpenseAdded,
    ExpenseUpdated,
    ExpenseDeleted,
    CommentAdded,
    AddedToGroup,
    RemovedFromGroup,
    GroupDeleted,
    GroupSettingsChanged,
    AddedAsFriend,
    RemovedAsFriend,
    News,
    DebtSimplification,
    GroupUndeleted,
    ExpenseUndeleted,
    GroupCurrencyConversion,
    FriendCurrencyConversion,
}

} // verus!
