use vstd::prelude::*;

verus! {

/// A parsed JSON document, held as plain values.
///
/// Numbers that fit an `i64` are kept as integers; any other number keeps
/// its decimal text. An object keeps its members in document order.
pub enum Json {
    Null,
    Bool(bool),
    Int(i64),
    Number(String),
    Str(String),
    Array(Vec<Json>),
    Object(Vec<(String, Json)>),
}

/// The value of the first member of `entries` whose name is `key`.
pub open spec fn lookup(entries: Seq<(String, Json)>, key: Seq<char>) -> Option<Json>
    decreases entries.len(),
{
    if entries.len() == 0 {
        None
    } else if entries[0].0@ == key {
        Some(entries[0].1)
    } else {
        lookup(entries.drop_first(), key)
    }
}

/// The member `key` of `body`, when `body` is an object that has one.
pub open spec fn field(body: Json, key: Seq<char>) -> Option<Json> {
    match body {
        Json::Object(entries) => lookup(entries@, key),
        _ => None,
    }
}

/// The member `key` of `body`, when it is present and a string.
pub open spec fn str_field(body: Json, key: Seq<char>) -> Option<Seq<char>> {
    match field(body, key) {
        Some(Json::Str(s)) => Some(s@),
        _ => None,
    }
}

/// The member `key` of `body`, when it is present and a boolean.
pub open spec fn bool_field(body: Json, key: Seq<char>) -> Option<bool> {
    match field(body, key) {
        Some(Json::Bool(b)) => Some(b),
        _ => None,
    }
}

/// The member `key` of `body`, when it is present and an integer.
pub open spec fn int_field(body: Json, key: Seq<char>) -> Option<i64> {
    match field(body, key) {
        Some(Json::Int(n)) => Some(n),
        _ => None,
    }
}

proof fn lemma_lookup_suffix(entries: Seq<(String, Json)>, key: Seq<char>, i: int)
    requires
        0 <= i < entries.len(),
    ensures
        lookup(entries.subrange(i, entries.len() as int), key) == (if entries[i].0@ == key {
            Some(entries[i].1)
        } else {
            lookup(entries.subrange(i + 1, entries.len() as int), key)
        }),
{
    let s = entries.subrange(i, entries.len() as int);
    assert(s.drop_first() =~= entries.subrange(i + 1, entries.len() as int));
}

/// Position of the first member of `entries` named `key`.
pub fn find_member(entries: &Vec<(String, Json)>, key: &str) -> (r: Option<usize>)
    ensures
        match r {
            Some(i) => i < entries@.len() && lookup(entries@, key@) == Some(entries@[i as int].1),
            None => lookup(entries@, key@) is None,
        },
{
    let wanted = String::from_str(key);
    let mut i: usize = 0;
    assert(entries@.subrange(0, entries@.len() as int) =~= entries@);
    while i < entries.len()
        invariant
            i <= entries@.len(),
            wanted@ == key@,
            lookup(entries@, key@) == lookup(entries@.subrange(i as int, entries@.len() as int), key@),
        decreases entries@.len() - i,
    {
        proof {
            lemma_lookup_suffix(entries@, key@, i as int);
        }
        if entries[i].0 == wanted {
            return Some(i);
        }
        i = i + 1;
    }
    None
}

/// The member `key` of `body`, when `body` is an object that has one.
pub fn get_field<'a>(body: &'a Json, key: &str) -> (r: Option<&'a Json>)
    ensures
        match field(*body, key@) {
            Some(v) => r matches Some(x) && *x == v,
            None => r is None,
        },
{
    match body {
        Json::Object(entries) => match find_member(entries, key) {
            Some(i) => Some(&entries[i].1),
            None => None,
        },
        _ => None,
    }
}

/// The member `key` of `body`, when it is present and a string.
pub fn get_str<'a>(body: &'a Json, key: &str) -> (r: Option<&'a String>)
    ensures
        match str_field(*body, key@) {
            Some(s) => r matches Some(x) && x@ == s,
            None => r is None,
        },
{
    match get_field(body, key) {
        Some(Json::Str(s)) => Some(s),
        _ => None,
    }
}

/// The member `key` of `body`, when it is present and a boolean.
pub fn get_bool(body: &Json, key: &str) -> (r: Option<bool>)
    ensures
        r == bool_field(*body, key@),
{
    match get_field(body, key) {
        Some(Json::Bool(b)) => Some(*b),
        _ => None,
    }
}

/// The member `key` of `body`, when it is present and an integer.
pub fn get_int(body: &Json, key: &str) -> (r: Option<i64>)
    ensures
        r == int_field(*body, key@),
{
    match get_field(body, key) {
        Some(Json::Int(n)) => Some(*n),
        _ => None,
    }
}

} // verus!
