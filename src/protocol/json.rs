//! A structured JSON value that the library can reason about.
//!
//! Numbers keep their wire form: unsigned and negative integers as machine
//! integers, anything else as the decimal text it arrived in, so a value
//! passes through the library without being altered.

use vstd::prelude::*;

verus! {

#[derive(Debug, PartialEq)]
pub enum Json {
    Null,
    Bool(bool),
    UInt(u64),
    Int(i64),
    Float(String),
    Str(String),
    Array(Vec<Json>),
    Object(Vec<(String, Json)>),
}

/// The value stored under `key` in an object's member list (first match).
pub open spec fn field_of(fields: Seq<(String, Json)>, key: Seq<char>) -> Option<Json>
    decreases fields.len(),
{
    if fields.len() == 0 {
        None
    } else if fields[0].0@ == key {
        Some(fields[0].1)
    } else {
        field_of(fields.drop_first(), key)
    }
}

/// Looks up `key` among `fields`, the first member with that name.
pub fn get_field<'a>(fields: &'a Vec<(String, Json)>, key: &str) -> (r: Option<&'a Json>)
    ensures
        r is Some <==> field_of(fields@, key@) is Some,
        r matches Some(v) ==> field_of(fields@, key@) == Some(*v),
{
    let wanted = key.to_owned();
    let mut i: usize = 0;
    assert(fields@.subrange(0, fields@.len() as int) =~= fields@);
    while i < fields.len()
        invariant
            0 <= i <= fields.len(),
            wanted@ == key@,
            field_of(fields@, key@) == field_of(fields@.subrange(i as int, fields@.len() as int), key@),
        decreases fields.len() - i,
    {
        let ghost rest = fields@.subrange(i as int, fields@.len() as int);
        assert(rest.drop_first() =~= fields@.subrange(i + 1, fields@.len() as int));
        if fields[i].0 == wanted {
            return Some(&fields[i].1);
        }
        i = i + 1;
    }
    assert(fields@.subrange(i as int, fields@.len() as int).len() == 0);
    None
}


/// The string stored under `key`.
pub open spec fn str_at(fields: Seq<(String, Json)>, key: Seq<char>) -> Option<String> {
    match field_of(fields, key) {
        Some(Json::Str(s)) => Some(s),
        _ => None,
    }
}

/// The unsigned integer stored under `key`, when it fits in 32 bits.
pub open spec fn u32_at(fields: Seq<(String, Json)>, key: Seq<char>) -> Option<u32> {
    match field_of(fields, key) {
        Some(Json::UInt(n)) => if n <= u32::MAX { Some(n as u32) } else { None },
        _ => None,
    }
}

/// The unsigned integer stored under `key`.
pub open spec fn u64_at(fields: Seq<(String, Json)>, key: Seq<char>) -> Option<u64> {
    match field_of(fields, key) {
        Some(Json::UInt(n)) => Some(n),
        _ => None,
    }
}

/// An optional string member: absent or null reads as `Some(None)`, a string
/// as `Some(Some(s))`, anything else does not decode.
pub open spec fn opt_str_at(fields: Seq<(String, Json)>, key: Seq<char>) -> Option<Option<String>> {
    match field_of(fields, key) {
        None => Some(None),
        Some(Json::Null) => Some(None),
        Some(Json::Str(s)) => Some(Some(s)),
        _ => None,
    }
}

/// An optional member of any shape: `None` when absent, otherwise the value
/// as it stands (null included).
pub open spec fn opt_json_at(fields: Seq<(String, Json)>, key: Seq<char>) -> Option<Json> {
    field_of(fields, key)
}

/// The first index whose member is named `key`.
pub open spec fn is_first_match(fields: Seq<(String, Json)>, key: Seq<char>, i: int) -> bool {
    &&& 0 <= i < fields.len()
    &&& fields[i].0@ == key
    &&& forall|j: int| 0 <= j < i ==> fields[j].0@ != key
}

proof fn lemma_first_match(fields: Seq<(String, Json)>, key: Seq<char>, i: int)
    requires
        is_first_match(fields, key, i),
    ensures
        field_of(fields, key) == Some(fields[i].1),
    decreases i,
{
    if i > 0 {
        assert(fields[0].0@ != key);
        let rest = fields.drop_first();
        assert forall|j: int| 0 <= j < i - 1 implies rest[j].0@ != key by {
            assert(rest[j] == fields[j + 1]);
        }
        lemma_first_match(rest, key, i - 1);
    }
}

proof fn lemma_no_match(fields: Seq<(String, Json)>, key: Seq<char>)
    requires
        forall|j: int| 0 <= j < fields.len() ==> fields[j].0@ != key,
    ensures
        field_of(fields, key) is None,
    decreases fields.len(),
{
    if fields.len() > 0 {
        let rest = fields.drop_first();
        assert forall|j: int| 0 <= j < rest.len() implies rest[j].0@ != key by {
            assert(rest[j] == fields[j + 1]);
        }
        lemma_no_match(rest, key);
    }
}

/// Replacing the value of a member leaves every member of another name as it was.
proof fn lemma_update_other(fields: Seq<(String, Json)>, i: int, v: Json, key: Seq<char>)
    requires
        0 <= i < fields.len(),
        fields[i].0@ != key,
    ensures
        field_of(fields.update(i, (fields[i].0, v)), key) == field_of(fields, key),
    decreases fields.len(),
{
    let upd = fields.update(i, (fields[i].0, v));
    if i > 0 {
        assert(upd.drop_first() =~= fields.drop_first().update(i - 1, (fields[i].0, v)));
        lemma_update_other(fields.drop_first(), i - 1, v, key);
    } else {
        assert(upd.drop_first() =~= fields.drop_first());
    }
}

/// The first index of `key`, if any.
fn find_field(fields: &Vec<(String, Json)>, key: &str) -> (r: Option<usize>)
    ensures
        r matches Some(i) ==> is_first_match(fields@, key@, i as int),
        r is None ==> field_of(fields@, key@) is None,
{
    let wanted = key.to_owned();
    let mut i: usize = 0;
    while i < fields.len()
        invariant
            0 <= i <= fields.len(),
            wanted@ == key@,
            forall|j: int| 0 <= j < i ==> fields@[j].0@ != key@,
        decreases fields.len() - i,
    {
        if fields[i].0 == wanted {
            return Some(i);
        }
        i = i + 1;
    }
    proof {
        lemma_no_match(fields@, key@);
    }
    None
}

/// Whether a member named `key` is present.
pub fn has_field(fields: &Vec<(String, Json)>, key: &str) -> (r: bool)
    ensures
        r == field_of(fields@, key@) is Some,
{
    match find_field(fields, key) {
        Some(i) => {
            proof {
                lemma_first_match(fields@, key@, i as int);
            }
            true
        },
        None => false,
    }
}

/// The string stored under `key`.
pub fn get_str(fields: &Vec<(String, Json)>, key: &str) -> (r: Option<String>)
    ensures
        r == str_at(fields@, key@),
{
    match get_field(fields, key) {
        Some(Json::Str(s)) => Some(s.clone()),
        _ => None,
    }
}

/// The 32-bit unsigned integer stored under `key`.
pub fn get_u32(fields: &Vec<(String, Json)>, key: &str) -> (r: Option<u32>)
    ensures
        r == u32_at(fields@, key@),
{
    match get_field(fields, key) {
        Some(Json::UInt(n)) => if *n <= 4294967295u64 { Some(*n as u32) } else { None },
        _ => None,
    }
}

/// The unsigned integer stored under `key`.
pub fn get_u64(fields: &Vec<(String, Json)>, key: &str) -> (r: Option<u64>)
    ensures
        r == u64_at(fields@, key@),
{
    match get_field(fields, key) {
        Some(Json::UInt(n)) => Some(*n),
        _ => None,
    }
}

/// An optional string member.
pub fn get_opt_str(fields: &Vec<(String, Json)>, key: &str) -> (r: Option<Option<String>>)
    ensures
        r == opt_str_at(fields@, key@),
{
    match get_field(fields, key) {
        None => Some(None),
        Some(Json::Null) => Some(None),
        Some(Json::Str(s)) => Some(Some(s.clone())),
        _ => None,
    }
}

/// Moves the value of the first member named `key` out, leaving null in its place.
pub fn take_field(fields: &mut Vec<(String, Json)>, key: &str) -> (r: Json)
    requires
        field_of(old(fields)@, key@) is Some,
    ensures
        field_of(old(fields)@, key@) == Some(r),
        forall|k: Seq<char>| k != key@ ==> field_of(final(fields)@, k) == field_of(old(fields)@, k),
{
    let i = match find_field(fields, key) {
        Some(i) => i,
        None => {
            return Json::Null;
        },
    };
    proof {
        lemma_first_match(old(fields)@, key@, i as int);
    }
    let (name, value) = fields.remove(i);
    fields.insert(i, (name, Json::Null));
    proof {
        let f0 = old(fields)@;
        assert(fields@ =~= f0.update(i as int, (f0[i as int].0, Json::Null)));
        assert forall|k: Seq<char>| k != key@ implies field_of(fields@, k) == field_of(f0, k) by {
            lemma_update_other(f0, i as int, Json::Null, k);
        }
    }
    value
}

/// Moves an optional member out: absent gives `None`.
pub fn take_opt_field(fields: &mut Vec<(String, Json)>, key: &str) -> (r: Option<Json>)
    ensures
        r == opt_json_at(old(fields)@, key@),
        forall|k: Seq<char>| k != key@ ==> field_of(final(fields)@, k) == field_of(old(fields)@, k),
{
    if !has_field(fields, key) {
        return None;
    }
    let v = take_field(fields, key);
    Some(v)
}


/// The mathematical value of a JSON document.
pub enum JsonV {
    Null,
    Bool(bool),
    UInt(u64),
    Int(i64),
    Float(Seq<char>),
    Str(Seq<char>),
    Array(Seq<JsonV>),
    Object(Seq<(Seq<char>, JsonV)>),
}

/// The value `j` denotes; two JSON values with the same view print the same.
pub open spec fn json_view(j: Json) -> JsonV
    decreases j,
{
    match j {
        Json::Null => JsonV::Null,
        Json::Bool(b) => JsonV::Bool(b),
        Json::UInt(n) => JsonV::UInt(n),
        Json::Int(n) => JsonV::Int(n),
        Json::Float(s) => JsonV::Float(s@),
        Json::Str(s) => JsonV::Str(s@),
        Json::Array(items) => JsonV::Array(
            Seq::new(
                items@.len(),
                |i: int|
                    {
                        if 0 <= i < items@.len() {
                            json_view(items@[i])
                        } else {
                            JsonV::Null
                        }
                    },
            ),
        ),
        Json::Object(fields) => JsonV::Object(
            Seq::new(
                fields@.len(),
                |i: int|
                    {
                        if 0 <= i < fields@.len() {
                            (fields@[i].0@, json_view(fields@[i].1))
                        } else {
                            (Seq::empty(), JsonV::Null)
                        }
                    },
            ),
        ),
    }
}

impl Json {
    /// A copy of the value, denoting the same document.
    pub fn deep_clone(&self) -> (r: Json)
        ensures
            json_view(r) == json_view(*self),
        decreases self,
    {
        match self {
            Json::Null => Json::Null,
            Json::Bool(b) => Json::Bool(*b),
            Json::UInt(n) => Json::UInt(*n),
            Json::Int(n) => Json::Int(*n),
            Json::Float(s) => Json::Float(s.clone()),
            Json::Str(s) => Json::Str(s.clone()),
            Json::Array(items) => {
                let mut out: Vec<Json> = Vec::new();
                let mut i: usize = 0;
                while i < items.len()
                    invariant
                        0 <= i <= items.len(),
                        out@.len() == i,
                        *self == Json::Array(*items),
                        forall|j: int| 0 <= j < i ==> json_view(#[trigger] out@[j]) == json_view(items@[j]),
                    decreases items.len() - i,
                {
                    proof {
                        assert(decreases_to!(*self => self->Array_0));
                        assert(decreases_to!(*items => items@));
                        assert(decreases_to!(items@ => items@[i as int]));
                    }
                    let c = items[i].deep_clone();
                    out.push(c);
                    i = i + 1;
                }
                let r = Json::Array(out);
                assert(json_view(r) == json_view(*self)) by {
                    if let JsonV::Array(a) = json_view(r) {
                        if let JsonV::Array(b) = json_view(*self) {
                            assert(a =~= b);
                        }
                    }
                }
                r
            },
            Json::Object(fields) => {
                let mut out: Vec<(String, Json)> = Vec::new();
                let mut i: usize = 0;
                while i < fields.len()
                    invariant
                        0 <= i <= fields.len(),
                        out@.len() == i,
                        *self == Json::Object(*fields),
                        forall|j: int| 0 <= j < i ==> (#[trigger] out@[j]).0@ == fields@[j].0@ && json_view(out@[j].1) == json_view(fields@[j].1),
                    decreases fields.len() - i,
                {
                    proof {
                        assert(decreases_to!(*self => self->Object_0));
                        assert(decreases_to!(*fields => fields@));
                        assert(decreases_to!(fields@ => fields@[i as int]));
                        assert(decreases_to!(fields@[i as int] => fields@[i as int].1));
                    }
                    let k = fields[i].0.clone();
                    let v = fields[i].1.deep_clone();
                    out.push((k, v));
                    i = i + 1;
                }
                let r = Json::Object(out);
                assert(json_view(r) == json_view(*self)) by {
                    if let JsonV::Object(a) = json_view(r) {
                        if let JsonV::Object(b) = json_view(*self) {
                            assert(a =~= b);
                        }
                    }
                }
                r
            },
        }
    }
}

} // verus!
