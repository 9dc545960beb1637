//! A plain model of the JSON values the service responses carry, with
//! verified field lookups. The application converts the wire format into
//! this type at its edge; every read of the structure is verified here.
use vstd::prelude::*;

verus! {

use crate::strutil::str_eq;

/// A JSON value as this crate reads it. A number is kept only as what an
/// unsigned 64-bit read of it yields; any other number reads as `Num(None)`.
#[derive(Debug)]
pub enum JsonValue {
    Null,
    Bool(bool),
    Num(Option<u64>),
    Str(String),
    Arr(Vec<JsonValue>),
    Obj(Vec<(String, JsonValue)>),
}

/// The first field of an object with the given name.
pub open spec fn fields_lookup(fields: Seq<(String, JsonValue)>, key: Seq<char>) -> Option<
    JsonValue,
>
    decreases fields.len(),
{
    if fields.len() == 0 {
        None
    } else if fields[0].0@ == key {
        Some(fields[0].1)
    } else {
        fields_lookup(fields.skip(1), key)
    }
}

/// The field of an object-valued JSON value, if any.
pub open spec fn lookup(v: JsonValue, key: Seq<char>) -> Option<JsonValue> {
    match v {
        JsonValue::Obj(fields) => fields_lookup(fields@, key),
        _ => None,
    }
}

/// The text of a string-valued field.
pub open spec fn str_field(v: JsonValue, key: Seq<char>) -> Option<Seq<char>> {
    match lookup(v, key) {
        Some(JsonValue::Str(s)) => Some(s@),
        _ => None,
    }
}

/// The value of an unsigned-integer field.
pub open spec fn u64_field(v: JsonValue, key: Seq<char>) -> Option<u64> {
    match lookup(v, key) {
        Some(JsonValue::Num(n)) => n,
        _ => None,
    }
}

/// The value of a boolean field.
pub open spec fn bool_field(v: JsonValue, key: Seq<char>) -> Option<bool> {
    match lookup(v, key) {
        Some(JsonValue::Bool(b)) => Some(b),
        _ => None,
    }
}

/// An optional string field, as an optional-typed read sees it: an absent
/// or null field reads as nothing, a string field as its text, and any
/// other value refuses the read.
pub open spec fn opt_str_field(v: JsonValue, key: Seq<char>) -> Option<Option<Seq<char>>> {
    match lookup(v, key) {
        None => Some(None),
        Some(JsonValue::Null) => Some(None),
        Some(JsonValue::Str(s)) => Some(Some(s@)),
        Some(_) => None,
    }
}

impl JsonValue {
    /// The field of this value under a name, when this value is an object
    /// that has it.
    pub fn get<'a>(&'a self, key: &str) -> (r: Option<&'a JsonValue>)
        ensures
            r matches Some(f) ==> lookup(*self, key@) == Some(*f),
            r is None ==> lookup(*self, key@) is None,
    {
        match self {
            JsonValue::Obj(fields) => {
                let n = fields.len();
                let mut i: usize = 0;
                proof {
                    assert(fields@.skip(0) =~= fields@);
                }
                while i < n
                    invariant
                        0 <= i <= n,
                        n == fields@.len(),
                        lookup(*self, key@) == fields_lookup(fields@, key@),
                        forall|j: int| 0 <= j < i ==> (#[trigger] fields@[j]).0@ != key@,
                        fields_lookup(fields@, key@) == fields_lookup(fields@.skip(i as int), key@),
                    decreases n - i,
                {
                    proof {
                        assert(fields@.skip(i as int)[0] == fields@[i as int]);
                        assert(fields@.skip(i as int).skip(1) =~= fields@.skip(i + 1));
                    }
                    if str_eq(fields[i].0.as_str(), key) {
                        proof {
                            assert(fields_lookup(fields@.skip(i as int), key@) == Some(
                                fields@[i as int].1,
                            ));
                            assert(lookup(*self, key@) == Some(fields@[i as int].1));
                        }
                        return Some(&fields[i].1);
                    }
                    i += 1;
                }
                proof {
                    assert(fields@.skip(n as int) =~= Seq::<(String, JsonValue)>::empty());
                }
                None
            },
            _ => None,
        }
    }

    /// This value's text, when it is a string.
    pub fn as_str<'a>(&'a self) -> (r: Option<&'a String>)
        ensures
            r matches Some(s) ==> (self matches JsonValue::Str(t) && s@ == t@),
            r is None ==> !(self matches JsonValue::Str(_)),
    {
        match self {
            JsonValue::Str(s) => Some(s),
            _ => None,
        }
    }

    /// This value as an unsigned 64-bit integer, when it is such a number.
    pub fn as_u64(&self) -> (r: Option<u64>)
        ensures
            r matches Some(v) ==> (self matches JsonValue::Num(n) && n == Some(v)),
            r is None ==> !(self matches JsonValue::Num(Some(_))),
    {
        match self {
            JsonValue::Num(Some(v)) => Some(*v),
            _ => None,
        }
    }

    /// This value as a boolean, when it is one.
    pub fn as_bool(&self) -> (r: Option<bool>)
        ensures
            r matches Some(b) ==> self matches JsonValue::Bool(c) && c == b,
            r is None ==> !(self matches JsonValue::Bool(_)),
    {
        match self {
            JsonValue::Bool(b) => Some(*b),
            _ => None,
        }
    }

    /// This value's elements, when it is an array.
    pub fn as_array<'a>(&'a self) -> (r: Option<&'a Vec<JsonValue>>)
        ensures
            r matches Some(a) ==> (self matches JsonValue::Arr(b) && a@ == b@),
            r is None ==> !(self matches JsonValue::Arr(_)),
    {
        match self {
            JsonValue::Arr(a) => Some(a),
            _ => None,
        }
    }
}

} // verus!
