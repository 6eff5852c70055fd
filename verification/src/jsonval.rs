//! A small structured-value type for the loosely-typed parts of the data
//! model: record fields whose shapes vary per record are held as values of
//! this type and read back through typed extraction helpers.

use vstd::prelude::*;
use crate::text::str_eq;

verus! {

/// A JSON-like structured value. Numbers are split into integers and
/// non-integer numerals; a non-integer numeral keeps its JSON text
/// verbatim, so no floating point is involved.
#[derive(Debug)]
pub enum JsonValue {
    /// The null value.
    Null,
    /// A boolean.
    Bool(bool),
    /// An integer number.
    Int(i64),
    /// A non-integer number, kept as its JSON numeral text.
    Dec(String),
    /// A string.
    Str(String),
    /// An array of values.
    Arr(Vec<JsonValue>),
    /// An object: ordered key/value pairs, keys expected to be unique.
    Obj(Vec<(String, JsonValue)>),
}

/// The first value bound to `key` in an ordered field list, if any.
pub open spec fn obj_lookup(fields: Seq<(String, JsonValue)>, key: Seq<char>) -> Option<
    JsonValue,
>
    decreases fields.len(),
{
    if fields.len() == 0 {
        None
    } else if fields[0].0@ == key {
        Some(fields[0].1)
    } else {
        obj_lookup(fields.skip(1), key)
    }
}

/// Looks `key` up in an ordered field list; the first binding wins.
pub fn obj_get<'a>(fields: &'a Vec<(String, JsonValue)>, key: &str) -> (r: Option<
    &'a JsonValue,
>)
    ensures
        match r {
            Some(v) => obj_lookup(fields@, key@) == Some(*v),
            None => obj_lookup(fields@, key@) is None,
        },
{
    let mut i: usize = 0;
    proof {
        assert(fields@.skip(0) =~= fields@);
    }
    while i < fields.len()
        invariant
            i <= fields@.len(),
            obj_lookup(fields@, key@) == obj_lookup(fields@.skip(i as int), key@),
        decreases fields@.len() - i,
    {
        proof {
            assert(fields@.skip(i as int)[0] == fields@[i as int]);
            assert(fields@.skip(i as int).skip(1) =~= fields@.skip(i as int + 1));
        }
        if str_eq(fields[i].0.as_str(), key) {
            return Some(&fields[i].1);
        }
        i = i + 1;
    }
    proof {
        assert(fields@.skip(fields@.len() as int).len() == 0);
    }
    None
}

impl JsonValue {
    /// The integer held by the value, when it is an integer.
    pub open spec fn spec_as_int(self) -> Option<i64> {
        match self {
            JsonValue::Int(n) => Some(n),
            _ => None,
        }
    }

    /// The integer held by the value, when it is an integer.
    pub fn as_int(&self) -> (r: Option<i64>)
        ensures
            r == self.spec_as_int(),
    {
        match self {
            JsonValue::Int(n) => Some(*n),
            _ => None,
        }
    }

    /// The string held by the value, when it is a string.
    pub open spec fn spec_as_str(self) -> Option<String> {
        match self {
            JsonValue::Str(s) => Some(s),
            _ => None,
        }
    }

    /// The string held by the value, when it is a string.
    pub fn as_str_value<'a>(&'a self) -> (r: Option<&'a String>)
        ensures
            match r {
                Some(s) => self.spec_as_str() == Some(*s),
                None => self.spec_as_str() is None,
            },
    {
        match self {
            JsonValue::Str(s) => Some(s),
            _ => None,
        }
    }

    /// The boolean held by the value, when it is a boolean.
    pub open spec fn spec_as_bool(self) -> Option<bool> {
        match self {
            JsonValue::Bool(b) => Some(b),
            _ => None,
        }
    }

    /// The boolean held by the value, when it is a boolean.
    pub fn as_bool(&self) -> (r: Option<bool>)
        ensures
            r == self.spec_as_bool(),
    {
        match self {
            JsonValue::Bool(b) => Some(*b),
            _ => None,
        }
    }

    /// The field list held by the value, when it is an object.
    pub open spec fn spec_as_object(self) -> Option<Seq<(String, JsonValue)>> {
        match self {
            JsonValue::Obj(fields) => Some(fields@),
            _ => None,
        }
    }

    /// The field list held by the value, when it is an object.
    pub fn as_object<'a>(&'a self) -> (r: Option<&'a Vec<(String, JsonValue)>>)
        ensures
            match r {
                Some(fields) => self.spec_as_object() == Some(fields@),
                None => self.spec_as_object() is None,
            },
    {
        match self {
            JsonValue::Obj(fields) => Some(fields),
            _ => None,
        }
    }
}

} // verus!
