//! Records of the expenses part of the API.

use vstd::prelude::*;
use crate::model::form::{
    fields_view, id_text, int_text_of, push_user_field, text_of, user_field, copy_text,
};

verus! {

/// A user's share in an expense split by shares.
#[derive(Clone, Debug, Default, PartialEq, Eq)]
pub struct UserByShares {
    pub user_id: Option<i64>,
    pub first_name: Option<String>,
    pub last_name: Option<String>,
    pub email: Option<String>,
    /// Decimal amount with 2 decimal places: what this user paid.
    pub paid_share: Option<String>,
    /// Decimal amount with 2 decimal places: what this user owes.
    pub owed_share: Option<String>,
}

/// A debt that an expense settles.
#[derive(Clone, Debug, Default, PartialEq, Eq)]
pub struct Repayment {
    pub from: Option<i64>,
    pub to: Option<i64>,
    pub amount: Option<String>,
}

/// The image of an expense's receipt.
#[derive(Clone, Debug, Default, PartialEq, Eq)]
pub struct Receipt {
    pub large: Option<String>,
    pub original: Option<String>,
}

/// The fields of the `i`th share, in the order of the record's fields.
pub open spec fn user_share_entries(i: int, u: UserByShares) -> Seq<(Seq<char>, Seq<char>)> {
    user_field(i, "user_id"@, int_text_of(u.user_id)) + user_field(
        i,
        "first_name"@,
        text_of(u.first_name),
    ) + user_field(i, "last_name"@, text_of(u.last_name)) + user_field(
        i,
        "email"@,
        text_of(u.email),
    ) + user_field(i, "paid_share"@, text_of(u.paid_share)) + user_field(
        i,
        "owed_share"@,
        text_of(u.owed_share),
    )
}

pub open spec fn user_shares_entries(users: Seq<UserByShares>) -> Seq<(Seq<char>, Seq<char>)>
    decreases users.len(),
{
    if users.len() == 0 {
        Seq::empty()
    } else {
        user_shares_entries(users.drop_last()) + user_share_entries(
            users.len() - 1,
            users.last(),
        )
    }
}

/// The shares as form fields, user by user: `users__0__user_id`,
/// `users__0__paid_share` and so on, leaving out the fields without a value.
pub fn user_share_fields(users: &[UserByShares]) -> (r: Vec<(String, String)>)
    ensures
        fields_view(r@) == user_shares_entries(users@),
{
    let mut fields: Vec<(String, String)> = Vec::new();
    let mut i: usize = 0;
    while i < users.len()
        invariant
            i <= users@.len(),
            fields_view(fields@) == user_shares_entries(users@.take(i as int)),
        decreases users.len() - i,
    {
        let u = &users[i];
        proof {
            assert(users@.take(i + 1).drop_last() =~= users@.take(i as int));
        }
        push_user_field(&mut fields, i, "user_id", id_text(u.user_id));
        push_user_field(&mut fields, i, "first_name", copy_text(&u.first_name));
        push_user_field(&mut fields, i, "last_name", copy_text(&u.last_name));
        push_user_field(&mut fields, i, "email", copy_text(&u.email));
        push_user_field(&mut fields, i, "paid_share", copy_text(&u.paid_share));
        push_user_field(&mut fields, i, "owed_share", copy_text(&u.owed_share));
        proof {
            assert(fields_view(fields@) =~= user_shares_entries(users@.take(i + 1)));
        }
        i = i + 1;
    }
    assert(users@.take(users@.len() as int) =~= users@);
    fields
}

} // verus!
