//! JSON values as plain data, and the lookups the service makes in them.

use vstd::prelude::*;
use crate::common::str_eq;

verus! {

/// A JSON value.
pub enum JsonValue {
    Null,
    Bool(bool),
    /// A number, by the bit pattern of its `f64` value.
    Number(u64),
    Str(String),
    Array(Vec<JsonValue>),
    Object(Vec<(String, JsonValue)>),
}

/// The value of the first member named `key` among `fields`.
pub open spec fn field_in(fields: Seq<(String, JsonValue)>, key: Seq<char>) -> Option<JsonValue>
    decreases fields.len(),
{
    if fields.len() == 0 {
        None
    } else if fields[0].0@ == key {
        Some(fields[0].1)
    } else {
        field_in(fields.drop_first(), key)
    }
}

/// The member `key` of an object (the first one, should keys repeat); none
/// for other values.
pub open spec fn field(v: JsonValue, key: Seq<char>) -> Option<JsonValue> {
    match v {
        JsonValue::Object(fields) => field_in(fields@, key),
        _ => None,
    }
}

/// The text of a string value.
pub open spec fn str_of(v: JsonValue) -> Option<Seq<char>> {
    match v {
        JsonValue::Str(s) => Some(s@),
        _ => None,
    }
}

/// The number of a number value (as `f64` bits).
pub open spec fn num_of(v: JsonValue) -> Option<u64> {
    match v {
        JsonValue::Number(n) => Some(n),
        _ => None,
    }
}

/// The texts of the string items of `items`, in order (other items skipped).
pub open spec fn strings_in(items: Seq<JsonValue>) -> Seq<Seq<char>>
    decreases items.len(),
{
    if items.len() == 0 {
        Seq::empty()
    } else {
        let rest = strings_in(items.drop_last());
        match str_of(items.last()) {
            Some(s) => rest.push(s),
            None => rest,
        }
    }
}

/// The texts of the string items of an array value (none for other values).
pub open spec fn string_items(v: JsonValue) -> Seq<Seq<char>> {
    match v {
        JsonValue::Array(items) => strings_in(items@),
        _ => Seq::empty(),
    }
}

/// An optional text: `null` is none, `{"some": x}` is the text of `x`, and a
/// plain string is itself.
pub open spec fn opt_text(v: JsonValue) -> Option<Seq<char>> {
    match v {
        JsonValue::Null => None,
        JsonValue::Object(_) => match field(v, "some"@) {
            Some(inner) => str_of(inner),
            None => None,
        },
        _ => str_of(v),
    }
}

/// An optional number: `null` is none, `{"some": x}` is the number `x`, and
/// a plain number is itself.
pub open spec fn opt_number(v: JsonValue) -> Option<u64> {
    match v {
        JsonValue::Null => None,
        JsonValue::Object(_) => match field(v, "some"@) {
            Some(inner) => num_of(inner),
            None => None,
        },
        _ => num_of(v),
    }
}

/// The member `key` of an object value.
pub fn get_field<'a>(v: &'a JsonValue, key: &str) -> (r: Option<&'a JsonValue>)
    ensures
        match r {
            Some(x) => field(*v, key@) == Some(*x),
            None => field(*v, key@) is None,
        },
{
    match v {
        JsonValue::Object(fields) => {
            let mut i: usize = 0;
            assert(fields@.skip(0) =~= fields@);
            while i < fields.len()
                invariant
                    i <= fields@.len(),
                    field(*v, key@) == field_in(fields@, key@),
                    field_in(fields@, key@) == field_in(fields@.skip(i as int), key@),
                decreases fields.len() - i,
            {
                assert(fields@.skip(i as int).drop_first() =~= fields@.skip(i + 1));
                if str_eq(fields[i].0.as_str(), key) {
                    assert(fields@.skip(i as int)[0] == fields@[i as int]);
                    return Some(&fields[i].1);
                }
                i = i + 1;
            }
            None
        },
        _ => None,
    }
}

/// The text of a string value.
pub fn as_text(v: &JsonValue) -> (r: Option<&String>)
    ensures
        match r {
            Some(s) => str_of(*v) == Some(s@),
            None => str_of(*v) is None,
        },
{
    match v {
        JsonValue::Str(s) => Some(s),
        _ => None,
    }
}

/// The number of a number value.
pub fn as_number(v: &JsonValue) -> (r: Option<u64>)
    ensures
        r == num_of(*v),
{
    match v {
        JsonValue::Number(n) => Some(*n),
        _ => None,
    }
}

/// An optional text (see [`opt_text`]).
pub fn extract_opt_string(v: &JsonValue) -> (r: Option<String>)
    ensures
        crate::tables::opt_view(r) == opt_text(*v),
{
    match v {
        JsonValue::Null => None,
        JsonValue::Object(_) => match get_field(v, "some") {
            Some(inner) => match as_text(inner) {
                Some(s) => Some(s.clone()),
                None => None,
            },
            None => None,
        },
        _ => match as_text(v) {
            Some(s) => Some(s.clone()),
            None => None,
        },
    }
}

/// An optional number (see [`opt_number`]).
pub fn extract_opt_number(v: &JsonValue) -> (r: Option<u64>)
    ensures
        r == opt_number(*v),
{
    match v {
        JsonValue::Null => None,
        JsonValue::Object(_) => match get_field(v, "some") {
            Some(inner) => as_number(inner),
            None => None,
        },
        _ => as_number(v),
    }
}

/// The texts of the string items of an array value.
pub fn string_list(v: &JsonValue) -> (r: Vec<String>)
    ensures
        r@.map_values(|s: String| s@) == string_items(*v),
{
    let mut out: Vec<String> = Vec::new();
    match v {
        JsonValue::Array(items) => {
            let mut i: usize = 0;
            while i < items.len()
                invariant
                    i <= items@.len(),
                    out@.map_values(|s: String| s@) == strings_in(items@.take(i as int)),
                decreases items.len() - i,
            {
                proof {
                    assert(items@.take(i + 1).drop_last() =~= items@.take(i as int));
                    assert(items@.take(i + 1).last() == items@[i as int]);
                }
                let ghost before = out@;
                match as_text(&items[i]) {
                    Some(s) => {
                        out.push(s.clone());
                        assert(out@.map_values(|s: String| s@) =~= before.map_values(|s: String| s@).push(s@));
                    },
                    None => {},
                }
                i = i + 1;
            }
            assert(items@.take(items@.len() as int) =~= items@);
        },
        _ => {
            assert(out@.map_values(|s: String| s@) =~= Seq::<Seq<char>>::empty());
        },
    }
    out
}

} // verus!
