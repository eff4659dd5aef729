use vstd::prelude::*;

use crate::error::{AccessError, ErrorModel};
use crate::json::{get_str, str_field, Json};

verus! {

/// The string value of the first of `names` that `body` holds as a string.
pub open spec fn first_str_field(body: Json, names: Seq<Seq<char>>) -> Option<Seq<char>>
    decreases names.len(),
{
    if names.len() == 0 {
        None
    } else {
        match str_field(body, names[0]) {
            Some(s) => Some(s),
            None => first_str_field(body, names.drop_first()),
        }
    }
}

/// The token field names, in the order they are tried: the current name
/// first, then the one an older backend revision still sends.
pub open spec fn token_field_names() -> Seq<Seq<char>> {
    seq!["accessToken"@, "access_token"@]
}

/// The session token that `payload` carries, if any.
pub open spec fn token_of(payload: Json) -> Option<Seq<char>> {
    first_str_field(payload, token_field_names())
}

pub open spec fn str_views(names: Seq<&str>) -> Seq<Seq<char>> {
    names.map_values(|n: &str| n@)
}

proof fn lemma_first_suffix(body: Json, names: Seq<Seq<char>>, i: int)
    requires
        0 <= i < names.len(),
    ensures
        first_str_field(body, names.subrange(i, names.len() as int)) == (match str_field(
            body,
            names[i],
        ) {
            Some(s) => Some(s),
            None => first_str_field(body, names.subrange(i + 1, names.len() as int)),
        }),
{
    let s = names.subrange(i, names.len() as int);
    assert(s.drop_first() =~= names.subrange(i + 1, names.len() as int));
}

/// The string value of the first of `names` that `body` holds as a string.
pub fn first_string_member(body: &Json, names: &[&str]) -> (r: Option<String>)
    ensures
        match first_str_field(*body, str_views(names@)) {
            Some(s) => r matches Some(x) && x@ == s,
            None => r is None,
        },
{
    let ghost all = str_views(names@);
    let mut i: usize = 0;
    assert(all.subrange(0, all.len() as int) =~= all);
    while i < names.len()
        invariant
            i <= names@.len(),
            all == str_views(names@),
            first_str_field(*body, all) == first_str_field(*body, all.subrange(i as int, all.len() as int)),
        decreases names@.len() - i,
    {
        proof {
            lemma_first_suffix(*body, all, i as int);
        }
        match get_str(body, names[i]) {
            Some(s) => return Some(s.clone()),
            None => {},
        }
        i = i + 1;
    }
    None
}

/// The session token of a credential-exchange payload: `accessToken` if it
/// is a string, else `access_token` if it is one, else `NoTokenField`.
pub fn extract_token(payload: &Json) -> (r: Result<String, AccessError>)
    ensures
        match token_of(*payload) {
            Some(t) => r matches Ok(s) && s@ == t,
            None => r matches Err(e) && e@ == ErrorModel::NoTokenField,
        },
{
    let names: [&str; 2] = ["accessToken", "access_token"];
    assert(str_views(names@) =~= token_field_names());
    match first_string_member(payload, &names) {
        Some(t) => Ok(t),
        None => Err(AccessError::NoTokenField),
    }
}

} // verus!
