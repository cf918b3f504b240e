//! A JSON document tree held as plain values, and lookups into it.
use vstd::prelude::*;

verus! {

/// A JSON value.
///
/// Numbers keep their value when they are integers; the configuration logic
/// of this crate never reads a fractional number, so those keep only their kind.
#[derive(Debug)]
pub enum JsonValue {
    Null,
    Bool(bool),
    Int(i128),
    Real,
    Str(String),
    Array(Vec<JsonValue>),
    Object(Vec<(String, JsonValue)>),
}

/// The value stored under `key` in a list of object entries; the first entry
/// with that key wins.
pub open spec fn entries_get(es: Seq<(String, JsonValue)>, key: Seq<char>) -> Option<JsonValue>
    decreases es.len(),
{
    if es.len() == 0 {
        None
    } else if es[0].0@ == key {
        Some(es[0].1)
    } else {
        entries_get(es.drop_first(), key)
    }
}

impl JsonValue {
    /// The member `key` of an object; `None` for a missing key or a non-object.
    pub open spec fn field(self, key: Seq<char>) -> Option<JsonValue> {
        match self {
            JsonValue::Object(es) => entries_get(es@, key),
            _ => None,
        }
    }

    pub open spec fn is_null_or_empty_object(self) -> bool {
        match self {
            JsonValue::Null => true,
            JsonValue::Object(es) => es@.len() == 0,
            _ => false,
        }
    }

    /// Looks up the member `key` of an object.
    pub fn get(&self, key: &str) -> (r: Option<&JsonValue>)
        ensures
            match r {
                Some(v) => self.field(key@) == Some(*v),
                None => self.field(key@) is None,
            },
    {
        match self {
            JsonValue::Object(es) => {
                let mut i: usize = 0;
                assert(es@.skip(0) =~= es@);
                while i < es.len()
                    invariant
                        *self == JsonValue::Object(*es),
                        i <= es@.len(),
                        entries_get(es@, key@) == entries_get(es@.skip(i as int), key@),
                    decreases es.len() - i,
                {
                    proof {
                        lemma_entries_get_skip(es@, key@, i as int);
                    }
                    if str_eq(es[i].0.as_str(), key) {
                        return Some(&es[i].1);
                    }
                    i = i + 1;
                }
                None
            },
            _ => None,
        }
    }

    pub fn as_bool(&self) -> (r: Option<bool>)
        ensures
            r == (match self {
                JsonValue::Bool(b) => Some(*b),
                _ => None::<bool>,
            }),
    {
        match self {
            JsonValue::Bool(b) => Some(*b),
            _ => None,
        }
    }

    pub fn as_str(&self) -> (r: Option<&str>)
        ensures
            match self {
                JsonValue::Str(s) => r is Some && r->0@ == s@,
                _ => r is None,
            },
    {
        match self {
            JsonValue::Str(s) => Some(s.as_str()),
            _ => None,
        }
    }

    /// The value of a non-negative integer that fits in 64 bits.
    pub fn as_u64(&self) -> (r: Option<u64>)
        ensures
            match self {
                JsonValue::Int(n) => if 0 <= *n <= u64::MAX {
                    r == Some(*n as u64)
                } else {
                    r is None
                },
                _ => r is None,
            },
    {
        match self {
            JsonValue::Int(n) => {
                if 0 <= *n && *n <= u64::MAX as i128 {
                    Some(*n as u64)
                } else {
                    None
                }
            },
            _ => None,
        }
    }

    pub fn is_null_or_empty(&self) -> (r: bool)
        ensures
            r == self.is_null_or_empty_object(),
    {
        match self {
            JsonValue::Null => true,
            JsonValue::Object(es) => es.len() == 0,
            _ => false,
        }
    }
}

proof fn lemma_entries_get_skip(es: Seq<(String, JsonValue)>, key: Seq<char>, i: int)
    requires
        0 <= i < es.len(),
    ensures
        es[i].0@ == key ==> entries_get(es.skip(i), key) == Some(es[i].1),
        es[i].0@ != key ==> entries_get(es.skip(i), key) == entries_get(es.skip(i + 1), key),
{
    assert(es.skip(i)[0] == es[i]);
    assert(es.skip(i).drop_first() =~= es.skip(i + 1));
}

/// Whether two strings hold the same characters.
pub fn str_eq(a: &str, b: &str) -> (r: bool)
    ensures
        r == (a@ == b@),
{
    let n = a.unicode_len();
    if n != b.unicode_len() {
        return false;
    }
    let mut i: usize = 0;
    while i < n
        invariant
            n == a@.len(),
            n == b@.len(),
            i <= n,
            forall|j: int| 0 <= j < i ==> a@[j] == b@[j],
        decreases n - i,
    {
        if a.get_char(i) != b.get_char(i) {
            return false;
        }
        i = i + 1;
    }
    assert(a@ =~= b@);
    true
}

/// The document that serde_json reads from `text`, or `None` where the text is
/// not JSON.
pub uninterp spec fn json_document_of(text: Seq<char>) -> Option<JsonValue>;

/// Relies on serde_json::from_str into serde_json::Value: its result depends on
/// the text alone; the tree is then copied node for node.
#[verifier::external_body]
pub(crate) fn parse_json_text(text: &str) -> (r: Option<JsonValue>)
    ensures
        r == json_document_of(text@),
{
    serde_json::from_str::<serde_json::Value>(text).ok().map(|v| from_serde(&v))
}

impl JsonValue {
    /// Reads JSON text; `None` where the text is not JSON.
    pub fn parse(text: &str) -> (r: Option<JsonValue>)
        ensures
            r == json_document_of(text@),
    {
        parse_json_text(text)
    }
}

/// serde_json's document tree, carried through opaque.
#[verifier::external_type_specification]
#[verifier::external_body]
pub struct ExSerdeValue(serde_json::Value);

/// Copies a serde_json tree into a `JsonValue`, node for node.
#[verifier::external_body]
fn from_serde(v: &serde_json::Value) -> JsonValue {
    match v {
        serde_json::Value::Null => JsonValue::Null,
        serde_json::Value::Bool(b) => JsonValue::Bool(*b),
        serde_json::Value::Number(n) => match (n.as_u64(), n.as_i64()) {
            (Some(u), _) => JsonValue::Int(u as i128),
            (None, Some(i)) => JsonValue::Int(i as i128),
            (None, None) => JsonValue::Real,
        },
        serde_json::Value::String(s) => JsonValue::Str(s.clone()),
        serde_json::Value::Array(a) => JsonValue::Array(a.iter().map(from_serde).collect()),
        serde_json::Value::Object(m) => JsonValue::Object(
            m.iter().map(|(k, x)| (k.clone(), from_serde(x))).collect(),
        ),
    }
}

} // verus!
