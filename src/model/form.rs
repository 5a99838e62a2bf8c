//! Lists of users as flat form fields: each field of the `i`th user under the
//! key `users__<i>__<field>`.

use vstd::prelude::*;
use crate::text::{format_int, nat_text, push_nat};

verus! {

/// A form field as text: its key and its value.
pub open spec fn field_view(p: (String, String)) -> (Seq<char>, Seq<char>) {
    (p.0@, p.1@)
}

pub open spec fn fields_view(fields: Seq<(String, String)>) -> Seq<(Seq<char>, Seq<char>)> {
    fields.map_values(|p: (String, String)| field_view(p))
}

pub open spec fn user_key(i: int, name: Seq<char>) -> Seq<char> {
    "users__"@ + nat_text(i as nat) + "__"@ + name
}

/// The field of the `i`th user, where it has a value.
pub open spec fn user_field(i: int, name: Seq<char>, value: Option<Seq<char>>) -> Seq<
    (Seq<char>, Seq<char>),
> {
    match value {
        Some(v) => seq![(user_key(i, name), v)],
        None => Seq::empty(),
    }
}

pub open spec fn text_of(v: Option<String>) -> Option<Seq<char>> {
    match v {
        Some(s) => Some(s@),
        None => None,
    }
}

pub open spec fn int_text_of(v: Option<i64>) -> Option<Seq<char>> {
    match v {
        Some(n) => Some(crate::text::int_text(n as int)),
        None => None,
    }
}

/// Appends the field of the `i`th user where it has a value.
pub(crate) fn push_user_field(
    fields: &mut Vec<(String, String)>,
    i: usize,
    name: &str,
    value: Option<String>,
)
    ensures
        fields_view(final(fields)@) == fields_view(old(fields)@) + user_field(
            i as int,
            name@,
            text_of(value),
        ),
{
    let ghost before = fields@;
    if let Some(v) = value {
        let mut key = String::from_str("users__");
        push_nat(&mut key, i as u64);
        key.append("__");
        key.append(name);
        fields.push((key, v));
        proof {
            assert(fields_view(fields@) =~= fields_view(before) + user_field(
                i as int,
                name@,
                text_of(value),
            ));
        }
    } else {
        assert(fields_view(fields@) =~= fields_view(before) + user_field(
            i as int,
            name@,
            text_of(value),
        ));
    }
}

/// The text of an optional id.
pub(crate) fn id_text(v: Option<i64>) -> (r: Option<String>)
    ensures
        text_of(r) == int_text_of(v),
{
    match v {
        Some(n) => Some(format_int(n)),
        None => None,
    }
}

/// A copy of an optional text.
pub(crate) fn copy_text(v: &Option<String>) -> (r: Option<String>)
    ensures
        text_of(r) == text_of(*v),
{
    match v {
        Some(s) => Some(s.clone()),
        None => None,
    }
}

} // verus!
