//! A JSON document model that the service's answers are read through.
//!
//! The service speaks JSON. Text is decoded by `serde_json` and turned into
//! a [`JsonValue`]; everything the library decides about a document it
//! decides on this model.
use vstd::prelude::*;
use serde_json::Error as JsonError;
use serde_json::Value as SerdeValue;

verus! {

/// A JSON number, kept in the three shapes a decoder distinguishes.
///
/// A number with a fraction or an exponent is kept as its decimal text.
#[derive(Debug)]
pub enum JsonNumber {
    /// A non-negative integer.
    PosInt(u64),
    /// A negative integer.
    NegInt(i64),
    /// Any other number, as written.
    Float(String),
}

/// A JSON value. An object is a list of members; a key that occurs more
/// than once is looked up at its first occurrence (a decoded document has
/// each key once).
#[derive(Debug)]
pub enum JsonValue {
    Null,
    Bool(bool),
    Number(JsonNumber),
    String(String),
    Array(Vec<JsonValue>),
    Object(Vec<(String, JsonValue)>),
}

/// The value stored under `key` in a member list: the first member whose
/// key is `key`.
pub open spec fn lookup(members: Seq<(String, JsonValue)>, key: Seq<char>) -> Option<JsonValue>
    decreases members.len(),
{
    if members.len() == 0 {
        None
    } else if members[0].0@ == key {
        Some(members[0].1)
    } else {
        lookup(members.drop_first(), key)
    }
}

/// No member of `members[..n]` has `key` as its key.
pub open spec fn key_absent_before(members: Seq<(String, JsonValue)>, key: Seq<char>, n: int) -> bool {
    forall|j: int| 0 <= j < n ==> #[trigger] members[j].0@ != key
}

proof fn lemma_lookup_first(members: Seq<(String, JsonValue)>, key: Seq<char>, i: int)
    requires
        0 <= i <= members.len(),
        key_absent_before(members, key, i),
    ensures
        i == members.len() ==> lookup(members, key) is None,
        i < members.len() && members[i].0@ == key ==> lookup(members, key) == Some(members[i].1),
    decreases i,
{
    if i > 0 {
        let rest = members.drop_first();
        assert(members[0].0@ != key);
        assert forall|j: int| 0 <= j < i - 1 implies #[trigger] rest[j].0@ != key by {
            assert(rest[j] == members[j + 1]);
        }
        lemma_lookup_first(rest, key, i - 1);
        if i < members.len() {
            assert(rest[i - 1] == members[i]);
        }
    }
}

impl JsonValue {
    /// The member `key` of an object; `None` for a missing key or a value
    /// that is not an object.
    pub open spec fn field(self, key: Seq<char>) -> Option<JsonValue> {
        match self {
            JsonValue::Object(members) => lookup(members@, key),
            _ => None,
        }
    }

    /// The member `key` of an object, and `Null` where [`JsonValue::field`]
    /// has none: what indexing a document by a key yields.
    pub open spec fn member(self, key: Seq<char>) -> JsonValue {
        match self.field(key) {
            Some(v) => v,
            None => JsonValue::Null,
        }
    }

    /// The value as an unsigned integer, where it is one.
    pub open spec fn u64_value(self) -> Option<u64> {
        match self {
            JsonValue::Number(JsonNumber::PosInt(n)) => Some(n),
            _ => None,
        }
    }

    /// The value as text, where it is a string.
    pub open spec fn text_value(self) -> Option<Seq<char>> {
        match self {
            JsonValue::String(s) => Some(s@),
            _ => None,
        }
    }

    /// The value as a boolean, where it is one.
    pub open spec fn bool_value(self) -> Option<bool> {
        match self {
            JsonValue::Bool(b) => Some(b),
            _ => None,
        }
    }

    /// The elements of an array.
    pub open spec fn array_value(self) -> Option<Seq<JsonValue>> {
        match self {
            JsonValue::Array(items) => Some(items@),
            _ => None,
        }
    }

    /// Looks up the member `key` of an object.
    pub fn get(&self, key: &str) -> (r: Option<&JsonValue>)
        ensures
            match r {
                Some(v) => self.field(key@) == Some(*v),
                None => self.field(key@) is None,
            },
    {
        match self {
            JsonValue::Object(members) => {
                let wanted: String = key.to_owned();
                let n = members.len();
                let mut i: usize = 0;
                while i < n
                    invariant
                        n == members@.len(),
                        wanted@ == key@,
                        self.field(key@) == lookup(members@, key@),
                        i <= n,
                        key_absent_before(members@, key@, i as int),
                    decreases n - i,
                {
                    if members[i].0 == wanted {
                        proof {
                            lemma_lookup_first(members@, key@, i as int);
                        }
                        return Some(&members[i].1);
                    }
                    i += 1;
                }
                proof {
                    lemma_lookup_first(members@, key@, i as int);
                }
                None
            },
            _ => None,
        }
    }

    /// The member `key`, or `Null` where there is none.
    pub fn index(&self, key: &str) -> (r: &JsonValue)
        ensures
            *r == self.member(key@),
    {
        match self.get(key) {
            Some(v) => v,
            None => &JsonValue::Null,
        }
    }

    /// The value as an unsigned integer, where it is one.
    pub fn as_u64(&self) -> (r: Option<u64>)
        ensures
            r == self.u64_value(),
    {
        match self {
            JsonValue::Number(JsonNumber::PosInt(n)) => Some(*n),
            _ => None,
        }
    }

    /// The value as text, where it is a string.
    pub fn as_str(&self) -> (r: Option<&str>)
        ensures
            match r {
                Some(s) => self.text_value() == Some(s@),
                None => self.text_value() is None,
            },
    {
        match self {
            JsonValue::String(s) => Some(s.as_str()),
            _ => None,
        }
    }

    /// The value as a boolean, where it is one.
    pub fn as_bool(&self) -> (r: Option<bool>)
        ensures
            r == self.bool_value(),
    {
        match self {
            JsonValue::Bool(b) => Some(*b),
            _ => None,
        }
    }

    /// The elements of an array.
    pub fn as_array(&self) -> (r: Option<&Vec<JsonValue>>)
        ensures
            match r {
                Some(items) => self.array_value() == Some(items@),
                None => self.array_value() is None,
            },
    {
        match self {
            JsonValue::Array(items) => Some(items),
            _ => None,
        }
    }
}

/// A JSON document as `serde_json` decodes it.
#[verifier::external_type_specification]
#[verifier::external_body]
pub struct ExSerdeValue(SerdeValue);

/// The document that `serde_json` reads from `text`, in this model: `None`
/// where the text is not JSON. Objects hold their members in the order of
/// `serde_json`'s map, each key once; numbers are kept as [`JsonNumber`]
/// tells them apart.
pub uninterp spec fn json_document(text: Seq<char>) -> Option<JsonValue>;

/// The model of a decoded `serde_json` value, one arm per variant of
/// `serde_json::Value`; a number is kept as an unsigned integer, else a
/// signed one, else its decimal text.
///
/// Trusted, and used only by [`decode_json`]: it moves each value into the
/// corresponding variant of [`JsonValue`] and claims nothing.
#[verifier::external_body]
fn document_model(value: &SerdeValue) -> JsonValue {
    match value {
        SerdeValue::Null => JsonValue::Null,
        SerdeValue::Bool(b) => JsonValue::Bool(*b),
        SerdeValue::Number(n) => JsonValue::Number(match (n.as_u64(), n.as_i64()) {
            (Some(u), _) => JsonNumber::PosInt(u),
            (None, Some(i)) => JsonNumber::NegInt(i),
            (None, None) => JsonNumber::Float(n.to_string()),
        }),
        SerdeValue::String(t) => JsonValue::String(t.clone()),
        SerdeValue::Array(items) => JsonValue::Array(items.iter().map(document_model).collect()),
        SerdeValue::Object(members) => JsonValue::Object(
            members.iter().map(|(k, v)| (k.clone(), document_model(v))).collect(),
        ),
    }
}

/// Decodes JSON text (`serde_json::from_str`) into this model.
///
/// Trusted: the result is the named document of the text, and decoding
/// fails exactly where there is none.
#[verifier::external_body]
pub(crate) fn decode_json(text: &str) -> (r: std::result::Result<JsonValue, JsonError>)
    ensures
        r is Ok <==> json_document(text@) is Some,
        r matches Ok(v) ==> json_document(text@) == Some(v),
{
    let value: SerdeValue = serde_json::from_str(text)?;
    Ok(document_model(&value))
}

} // verus!
