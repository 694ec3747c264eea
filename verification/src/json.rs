//! A tagged value for decoded JSON, with accessors that return an option.

use serde_json::Value;
use vstd::prelude::*;
use vstd::string::*;
use crate::text::{same_text, signed_decimal, signed_decimal_of, text_of, views};

verus! {

/// A decoded JSON value as the executable code holds it.
#[derive(Debug)]
pub enum JsonValue {
    Null,
    Bool(bool),
    /// A number written without fraction or exponent that fits 64 bits,
    /// with or without sign.
    Integer(i128),
    /// Any other number, as the decoder writes it: one with a fraction or
    /// an exponent, an integer beyond 64 bits, and minus zero.
    Decimal(String),
    Text(String),
    Array(Vec<JsonValue>),
    /// The members of an object, each with its name.
    Object(Vec<(String, JsonValue)>),
}

/// The mathematical value that a `JsonValue` stands for.
pub enum JsonTree {
    Null,
    Bool(bool),
    Integer(int),
    Decimal(Seq<char>),
    Text(Seq<char>),
    Array(Seq<JsonTree>),
    Object(Seq<(Seq<char>, JsonTree)>),
}

/// The value of the first member named `key`.
pub open spec fn member(fields: Seq<(Seq<char>, JsonTree)>, key: Seq<char>) -> Option<JsonTree>
    decreases fields.len(),
{
    if fields.len() == 0 {
        None
    } else if fields[0].0 == key {
        Some(fields[0].1)
    } else {
        member(fields.drop_first(), key)
    }
}

impl JsonTree {
    /// The member `key` of an object; `None` for anything else.
    pub open spec fn field(self, key: Seq<char>) -> Option<JsonTree> {
        match self {
            JsonTree::Object(fields) => member(fields, key),
            _ => None,
        }
    }

    pub open spec fn text(self) -> Option<Seq<char>> {
        match self {
            JsonTree::Text(t) => Some(t),
            _ => None,
        }
    }

    pub open spec fn boolean(self) -> Option<bool> {
        match self {
            JsonTree::Bool(b) => Some(b),
            _ => None,
        }
    }

    /// The integer, where it lies between `low` and `high`.
    pub open spec fn integer_within(self, low: int, high: int) -> Option<int> {
        match self {
            JsonTree::Integer(i) => if low <= i <= high {
                Some(i)
            } else {
                None
            },
            _ => None,
        }
    }

    pub open spec fn items(self) -> Option<Seq<JsonTree>> {
        match self {
            JsonTree::Array(items) => Some(items),
            _ => None,
        }
    }

    /// The text of a number as JSON writes it.
    pub open spec fn number_text(self) -> Option<Seq<char>> {
        match self {
            JsonTree::Integer(i) => Some(signed_decimal(i)),
            JsonTree::Decimal(t) => Some(t),
            _ => None,
        }
    }
}

/// The tree that a value stands for.
pub open spec fn tree_of(value: JsonValue) -> JsonTree
    decreases value,
{
    match value {
        JsonValue::Null => JsonTree::Null,
        JsonValue::Bool(b) => JsonTree::Bool(b),
        JsonValue::Integer(i) => JsonTree::Integer(i as int),
        JsonValue::Decimal(t) => JsonTree::Decimal(t@),
        JsonValue::Text(t) => JsonTree::Text(t@),
        JsonValue::Array(items) => JsonTree::Array(
            Seq::new(
                items@.len(),
                |i: int|
                    if 0 <= i < items@.len() {
                        tree_of(items@[i])
                    } else {
                        JsonTree::Null
                    },
            ),
        ),
        JsonValue::Object(fields) => JsonTree::Object(
            Seq::new(
                fields@.len(),
                |i: int|
                    if 0 <= i < fields@.len() {
                        (fields@[i].0@, tree_of(fields@[i].1))
                    } else {
                        (Seq::empty(), JsonTree::Null)
                    },
            ),
        ),
    }
}

impl View for JsonValue {
    type V = JsonTree;

    open spec fn view(&self) -> JsonTree {
        tree_of(*self)
    }
}

impl JsonValue {
    /// The member `key` of an object.
    pub fn get(&self, key: &str) -> (r: Option<&JsonValue>)
        ensures
            match r {
                Some(v) => self@.field(key@) == Some(v@),
                None => self@.field(key@) is None,
            },
    {
        match self {
            JsonValue::Object(fields) => {
                let ghost all = self@->Object_0;
                assert(all.subrange(0, all.len() as int) == all);
                let mut i: usize = 0;
                while i < fields.len()
                    invariant
                        i <= fields.len(),
                        self@ == JsonTree::Object(all),
                        all.len() == fields@.len(),
                        forall|k: int|
                            0 <= k < all.len() ==> #[trigger] all[k] == (
                                fields@[k].0@,
                                fields@[k].1@,
                            ),
                        member(all, key@) == member(all.subrange(i as int, all.len() as int), key@),
                    decreases fields.len() - i,
                {
                    let ghost rest = all.subrange(i as int, all.len() as int);
                    assert(rest[0] == all[i as int]);
                    assert(rest.drop_first() == all.subrange(i + 1, all.len() as int));
                    if same_text(fields[i].0.as_str(), key) {
                        assert(member(rest, key@) == Some(rest[0].1));
                        return Some(&fields[i].1);
                    }
                    assert(member(rest, key@) == member(rest.drop_first(), key@));
                    i += 1;
                }
                assert(all.subrange(all.len() as int, all.len() as int).len() == 0);
                None
            },
            _ => None,
        }
    }

    pub fn as_text(&self) -> (r: Option<&String>)
        ensures
            match r {
                Some(t) => self@.text() == Some(t@),
                None => self@.text() is None,
            },
    {
        match self {
            JsonValue::Text(t) => Some(t),
            _ => None,
        }
    }

    pub fn as_bool(&self) -> (r: Option<bool>)
        ensures
            r == self@.boolean(),
    {
        match self {
            JsonValue::Bool(b) => Some(*b),
            _ => None,
        }
    }

    /// The integer, where it fits in 64 bits without sign.
    pub fn as_u64(&self) -> (r: Option<u64>)
        ensures
            match r {
                Some(n) => self@.integer_within(0, u64::MAX as int) == Some(n as int),
                None => self@.integer_within(0, u64::MAX as int) is None,
            },
    {
        match self {
            JsonValue::Integer(i) => if 0 <= *i && *i <= 0xFFFF_FFFF_FFFF_FFFF {
                Some(*i as u64)
            } else {
                None
            },
            _ => None,
        }
    }

    /// The integer, where it fits in 64 bits with sign.
    pub fn as_i64(&self) -> (r: Option<i64>)
        ensures
            match r {
                Some(n) => self@.integer_within(i64::MIN as int, i64::MAX as int) == Some(
                    n as int,
                ),
                None => self@.integer_within(i64::MIN as int, i64::MAX as int) is None,
            },
    {
        match self {
            JsonValue::Integer(i) => if -0x8000_0000_0000_0000 <= *i && *i
                <= 0x7FFF_FFFF_FFFF_FFFF {
                Some(*i as i64)
            } else {
                None
            },
            _ => None,
        }
    }

    pub fn as_array(&self) -> (r: Option<&Vec<JsonValue>>)
        ensures
            match r {
                Some(items) => self@.items() == Some(views(items@)),
                None => self@.items() is None,
            },
    {
        match self {
            JsonValue::Array(items) => {
                assert(self@->Array_0 =~= views(items@));
                Some(items)
            },
            _ => None,
        }
    }

    pub fn is_object(&self) -> (r: bool)
        ensures
            r == (self@ is Object),
    {
        match self {
            JsonValue::Object(_) => true,
            _ => false,
        }
    }

    /// The text of a number as JSON writes it.
    pub fn number_text(&self) -> (r: Option<String>)
        ensures
            match r {
                Some(t) => self@.number_text() == Some(t@),
                None => self@.number_text() is None,
            },
    {
        match self {
            JsonValue::Integer(i) => Some(text_of(&signed_decimal_of(*i))),
            JsonValue::Decimal(t) => Some(t.clone()),
            _ => None,
        }
    }
}

/// What the text decodes to as one JSON value, if it is one.
pub uninterp spec fn json_decoding(text: Seq<char>) -> Option<JsonTree>;

/// `serde_json::Value`, carried from the decoder to its conversion without
/// anything known of what it holds.
#[verifier::external_type_specification]
#[verifier::external_body]
pub struct ExValue(Value);

/// The conversion that belongs to `decode`: it moves a `serde_json::Value`
/// into the library's own value type, variant by variant and member by
/// member, in the order in which `serde_json` hands the members out. A number
/// that `serde_json` holds as an integer of 64 bits, with or without sign,
/// becomes `Integer`; any other number becomes `Decimal` with the text that
/// `serde_json` writes for it. Nothing is claimed of the result here; what
/// is claimed stands at `decode`.
#[verifier::external_body]
fn lift(v: Value) -> JsonValue {
    match v {
        Value::Null => JsonValue::Null,
        Value::Bool(b) => JsonValue::Bool(b),
        Value::Number(n) => match (n.as_u64(), n.as_i64()) {
            (Some(u), _) => JsonValue::Integer(i128::from(u)),
            (None, Some(i)) => JsonValue::Integer(i128::from(i)),
            (None, None) => JsonValue::Decimal(n.to_string()),
        },
        Value::String(s) => JsonValue::Text(s),
        Value::Array(a) => JsonValue::Array(a.into_iter().map(lift).collect()),
        Value::Object(m) => JsonValue::Object(m.into_iter().map(|(k, v)| (k, lift(v))).collect()),
    }
}

/// `serde_json::from_str` at `serde_json::Value`: the value that the text
/// holds, or nothing where the text is no single JSON value. The result
/// depends on the text alone.
#[verifier::external_body]
pub(crate) fn decode(text: &str) -> (r: Option<JsonValue>)
    ensures
        r matches Some(v) ==> json_decoding(text@) == Some(v@),
        r is None ==> json_decoding(text@) is None,
{
    match serde_json::from_str::<Value>(text) {
        Ok(v) => Some(lift(v)),
        Err(_) => None,
    }
}

} // verus!
