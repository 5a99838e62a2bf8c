//! Records of the friends part of the API.

use vstd::prelude::*;
use crate::model::form::fields_view;
use crate::text::{nat_text, push_nat};
use crate::model::shared::Balance;

verus! {

/// Balance with a friend within one group.
#[derive(Clone, Debug, Default, PartialEq, Eq)]
pub struct GroupBalance {
    pub group_id: Option<i64>,
    pub balance: Option<Vec<Balance>>,
}

/// Request to add friends by email.
#[derive(Clone, Debug, Default, PartialEq, Eq)]
pub struct AddFriendsRequest {
    pub emails: Vec<String>,
    pub message: Option<String>,
    pub allow_partial_success: Option<bool>,
}

/// Response to deleting a friend.
#[derive(Clone, Debug, Default, PartialEq, Eq)]
pub struct DeleteFriendResponse {
    pub success: bool,
    /// Errors by field, in the order the response gave them.
    pub errors: Option<Vec<(String, Vec<String>)>>,
}

pub open spec fn friend_key(i: int, name: Seq<char>) -> Seq<char> {
    "users["@ + nat_text(i as nat) + "]["@ + name + "]"@
}

/// Each email gives the `i`th user both its email and its name.
pub open spec fn email_entries(emails: Seq<String>) -> Seq<(Seq<char>, Seq<char>)>
    decreases emails.len(),
{
    if emails.len() == 0 {
        Seq::empty()
    } else {
        let i = emails.len() - 1;
        email_entries(emails.drop_last()) + seq![
            (friend_key(i, "email"@), emails[i]@),
            (friend_key(i, "name"@), emails[i]@),
        ]
    }
}

fn friend_field(i: usize, name: &str, value: &String) -> (r: (String, String))
    ensures
        r.0@ == friend_key(i as int, name@),
        r.1@ == value@,
{
    let mut key = String::from_str("users[");
    push_nat(&mut key, i as u64);
    key.append("][");
    key.append(name);
    key.append("]");
    (key, value.clone())
}

/// The emails as form fields: `users[0][email]` and `users[0][name]` both
/// hold the first email, and so on.
pub fn email_fields(emails: &[String]) -> (r: Vec<(String, String)>)
    ensures
        fields_view(r@) == email_entries(emails@),
{
    let mut fields: Vec<(String, String)> = Vec::new();
    let mut i: usize = 0;
    while i < emails.len()
        invariant
            i <= emails@.len(),
            fields_view(fields@) == email_entries(emails@.take(i as int)),
        decreases emails.len() - i,
    {
        proof {
            assert(emails@.take(i + 1).drop_last() =~= emails@.take(i as int));
            if i == 0 {
                assert(fields_view(fields@) =~= Seq::empty());
            }
        }
        fields.push(friend_field(i, "email", &emails[i]));
        fields.push(friend_field(i, "name", &emails[i]));
        proof {
            assert(fields_view(fields@) =~= email_entries(emails@.take(i + 1)));
        }
        i = i + 1;
    }
    assert(emails@.take(emails@.len() as int) =~= emails@);
    fields
}

} // verus!
