//! Records of the groups part of the API.

use vstd::prelude::*;
use crate::model::form::{
    copy_text, fields_view, id_text, int_text_of, push_user_field, text_of, user_field,
};

verus! {

/// Request to create a group.
#[derive(Clone, Debug, Default, PartialEq, Eq)]
pub struct GroupCreateRequest {
    pub name: String,
    pub group_type: Option<String>,
    pub simplify_by_default: Option<bool>,
    pub users: Option<Vec<GroupUser>>,
}

/// A user to add to a group, by id or by name and email.
#[derive(Clone, Debug, Default, PartialEq, Eq)]
pub struct GroupUser {
    pub user_id: Option<i64>,
    pub first_name: Option<String>,
    pub last_name: Option<String>,
    pub email: Option<String>,
}

/// Response to deleting a group.
#[derive(Clone, Debug, Default, PartialEq, Eq)]
pub struct GroupDeleteResponse {
    pub success: bool,
}

/// Response to restoring a group.
#[derive(Clone, Debug, Default, PartialEq, Eq)]
pub struct GroupRestoreResponse {
    pub success: bool,
    pub errors: Option<Vec<String>>,
}

/// Response to removing a user from a group.
#[derive(Clone, Debug, Default, PartialEq, Eq)]
pub struct GroupRemoveUserResponse {
    pub success: bool,
    pub errors: Option<Vec<String>>,
}

/// The fields of the `i`th user, in the order of the record's fields.
pub open spec fn group_user_entries(i: int, u: GroupUser) -> Seq<(Seq<char>, Seq<char>)> {
    user_field(i, "user_id"@, int_text_of(u.user_id)) + user_field(
        i,
        "first_name"@,
        text_of(u.first_name),
    ) + user_field(i, "last_name"@, text_of(u.last_name)) + user_field(
        i,
        "email"@,
        text_of(u.email),
    )
}

pub open spec fn group_users_entries(users: Seq<GroupUser>) -> Seq<(Seq<char>, Seq<char>)>
    decreases users.len(),
{
    if users.len() == 0 {
        Seq::empty()
    } else {
        group_users_entries(users.drop_last()) + group_user_entries(
            users.len() - 1,
            users.last(),
        )
    }
}

/// The users of a new group as form fields, user by user:
/// `users__0__user_id`, `users__0__email` and so on, leaving out the fields
/// without a value. No users give no fields.
pub fn group_user_fields(users: &Option<Vec<GroupUser>>) -> (r: Vec<(String, String)>)
    ensures
        fields_view(r@) == match users {
            Some(us) => group_users_entries(us@),
            None => Seq::empty(),
        },
{
    let mut fields: Vec<(String, String)> = Vec::new();
    let users = match users {
        Some(us) => us,
        None => {
            assert(fields_view(fields@) =~= Seq::empty());
            return fields;
        },
    };
    let mut i: usize = 0;
    while i < users.len()
        invariant
            i <= users@.len(),
            fields_view(fields@) == group_users_entries(users@.take(i as int)),
        decreases users.len() - i,
    {
        let u = &users[i];
        proof {
            assert(users@.take(i + 1).drop_last() =~= users@.take(i as int));
            if i == 0 {
                assert(fields_view(fields@) =~= Seq::empty());
            }
        }
        push_user_field(&mut fields, i, "user_id", id_text(u.user_id));
        push_user_field(&mut fields, i, "first_name", copy_text(&u.first_name));
        push_user_field(&mut fields, i, "last_name", copy_text(&u.last_name));
        push_user_field(&mut fields, i, "email", copy_text(&u.email));
        proof {
            assert(fields_view(fields@) =~= group_users_entries(users@.take(i + 1)));
        }
        i = i + 1;
    }
    assert(users@.take(users@.len() as int) =~= users@);
    fields
}

} // verus!
