use vstd::prelude::*;

verus! {

#[verifier::external_type_specification]
#[verifier::external_body]
pub struct ExSerdeValue(serde_json::Value);

#[verifier::external_type_specification]
#[verifier::external_body]
pub struct ExSerdeNumber(serde_json::Number);

#[verifier::external_type_specification]
#[verifier::external_body]
pub struct ExJsonError(serde_json::Error);

/// A JSON number, kept in the form that decoding rules ask about.
#[derive(Debug)]
pub enum JsonNumber {
    /// A non-negative integer that fits in 64 bits.
    Unsigned(u64),
    /// A negative integer that fits in 64 bits.
    Signed(i64),
    /// Any other number, as decimal text.
    Decimal(String),
}

/// A decoded JSON document. An object holds one entry per key; documents parsed here list
/// them sorted by key, not in the order of the text.
#[derive(Debug)]
pub enum JsonValue {
    Null,
    Bool(bool),
    Number(JsonNumber),
    Text(String),
    Array(Vec<JsonValue>),
    Object(Vec<(String, JsonValue)>),
}

/// What a member of an event object must hold for the object to have a given shape.
#[derive(Clone, Copy, Debug, PartialEq, Eq, Structural)]
pub enum FieldKind {
    /// A string.
    Text,
    /// A non-negative integer that fits in 64 bits.
    Unsigned,
    /// A boolean.
    Flag,
    /// An array.
    List,
    /// An object.
    Record,
}

/// The member stored under `key` in `entries`, searching from position `i`: the first match wins.
pub open spec fn member_from(entries: Seq<(String, JsonValue)>, key: Seq<char>, i: int) -> Option<
    JsonValue,
>
    decreases entries.len() - i,
{
    if i < 0 || i >= entries.len() {
        None
    } else if entries[i].0@ == key {
        Some(entries[i].1)
    } else {
        member_from(entries, key, i + 1)
    }
}

/// No member is found under a key that no entry has.
pub proof fn lemma_member_absent(
    entries: Seq<(String, JsonValue)>,
    key: Seq<char>,
    a: Seq<char>,
    b: Seq<char>,
    i: int,
)
    requires
        0 <= i,
        key != a,
        key != b,
        forall|m: int| 0 <= m < entries.len() ==> (#[trigger] entries[m]).0@ == a || entries[m].0@ == b,
    ensures
        member_from(entries, key, i) is None,
    decreases entries.len() - i,
{
    if i < entries.len() {
        lemma_member_absent(entries, key, a, b, i + 1);
    }
}

impl JsonValue {
    /// The member under `key` when this value is an object.
    pub open spec fn member(self, key: Seq<char>) -> Option<JsonValue> {
        match self {
            JsonValue::Object(entries) => member_from(entries@, key, 0),
            _ => None,
        }
    }

    /// Whether this value is of the given kind.
    pub open spec fn is_kind(self, kind: FieldKind) -> bool {
        match kind {
            FieldKind::Text => self is Text,
            FieldKind::Unsigned => self matches JsonValue::Number(JsonNumber::Unsigned(_)),
            FieldKind::Flag => self is Bool,
            FieldKind::List => self is Array,
            FieldKind::Record => self is Object,
        }
    }

    /// Whether this value is an object with a member of the given kind under `key`.
    #[verifier::opaque]
    pub open spec fn holds(self, key: Seq<char>, kind: FieldKind) -> bool {
        match self.member(key) {
            Some(v) => v.is_kind(kind),
            None => false,
        }
    }

    /// Whether this value is an object whose every key is `a` or `b`.
    pub open spec fn keys_within(self, a: Seq<char>, b: Seq<char>) -> bool {
        match self {
            JsonValue::Object(entries) => forall|i: int|
                0 <= i < entries@.len() ==> (#[trigger] entries@[i]).0@ == a || entries@[i].0@ == b,
            _ => false,
        }
    }

    pub fn is_kind_of(&self, kind: FieldKind) -> (r: bool)
        ensures
            r == self.is_kind(kind),
    {
        match kind {
            FieldKind::Text => matches!(self, JsonValue::Text(_)),
            FieldKind::Unsigned => matches!(self, JsonValue::Number(JsonNumber::Unsigned(_))),
            FieldKind::Flag => matches!(self, JsonValue::Bool(_)),
            FieldKind::List => matches!(self, JsonValue::Array(_)),
            FieldKind::Record => matches!(self, JsonValue::Object(_)),
        }
    }

    /// The member under `key`, when this value is an object that has one.
    pub fn get(&self, key: &str) -> (r: Option<&JsonValue>)
        ensures
            match r {
                Some(v) => self.member(key@) == Some(*v),
                None => self.member(key@) is None,
            },
    {
        match self {
            JsonValue::Object(entries) => {
                let wanted = key.to_owned();
                let mut i: usize = 0;
                while i < entries.len()
                    invariant
                        i <= entries@.len(),
                        wanted@ == key@,
                        self.member(key@) == member_from(entries@, key@, 0),
                        member_from(entries@, key@, 0) == member_from(entries@, key@, i as int),
                    decreases entries@.len() - i,
                {
                    if entries[i].0 == wanted {
                        assert(entries@[i as int].0@ == key@);
                        return Some(&entries[i].1);
                    }
                    i = i + 1;
                }
                None
            },
            _ => None,
        }
    }

    /// Whether this value is an object with a member of the given kind under `key`.
    pub fn has(&self, key: &str, kind: FieldKind) -> (r: bool)
        ensures
            r == self.holds(key@, kind),
    {
        reveal(JsonValue::holds);
        match self.get(key) {
            Some(v) => v.is_kind_of(kind),
            None => false,
        }
    }

    /// Takes this object apart and keeps only the member under `key`.
    pub fn into_member(self, key: &str) -> (r: Option<JsonValue>)
        ensures
            r == self.member(key@),
    {
        match self {
            JsonValue::Object(mut entries) => {
                let ghost original = entries@;
                assert(self.member(key@) == member_from(original, key@, 0));
                let wanted = key.to_owned();
                let mut i: usize = 0;
                while i < entries.len()
                    invariant
                        i <= entries@.len(),
                        entries@ == original,
                        wanted@ == key@,
                        self.member(key@) == member_from(original, key@, 0),
                        member_from(original, key@, 0) == member_from(original, key@, i as int),
                    decreases entries@.len() - i,
                {
                    if entries[i].0 == wanted {
                        assert(original[i as int].0@ == key@);
                        let (_, v) = entries.swap_remove(i);
                        return Some(v);
                    }
                    i = i + 1;
                }
                None
            },
            _ => None,
        }
    }

    /// The text of a string value.
    pub fn as_str(&self) -> (r: Option<&str>)
        ensures
            match self {
                JsonValue::Text(s) => r matches Some(t) && t@ == s@,
                _ => r is None,
            },
    {
        match self {
            JsonValue::Text(s) => Some(s.as_str()),
            _ => None,
        }
    }

    /// The value of a non-negative integer that fits in 64 bits.
    pub fn as_u64(&self) -> (r: Option<u64>)
        ensures
            match self {
                JsonValue::Number(JsonNumber::Unsigned(n)) => r == Some(*n),
                _ => r is None,
            },
    {
        match self {
            JsonValue::Number(JsonNumber::Unsigned(n)) => Some(*n),
            _ => None,
        }
    }

    /// The value of a boolean.
    pub fn as_bool(&self) -> (r: Option<bool>)
        ensures
            match self {
                JsonValue::Bool(b) => r == Some(*b),
                _ => r is None,
            },
    {
        match self {
            JsonValue::Bool(b) => Some(*b),
            _ => None,
        }
    }

    /// The items of an array.
    pub fn as_array(&self) -> (r: Option<&Vec<JsonValue>>)
        ensures
            match self {
                JsonValue::Array(items) => r == Some(items),
                _ => r is None,
            },
    {
        match self {
            JsonValue::Array(items) => Some(items),
            _ => None,
        }
    }
}

/// Relies on the variants of serde_json::Value and on serde_json::Number's as_u64 and as_i64:
/// moves a parsed document into the library's own tree, one node for one node.
#[verifier::external_body]
fn from_serde(v: serde_json::Value) -> JsonValue {
    match v {
        serde_json::Value::Null => JsonValue::Null,
        serde_json::Value::Bool(b) => JsonValue::Bool(b),
        serde_json::Value::Number(n) => JsonValue::Number(number_from_serde(n)),
        serde_json::Value::String(s) => JsonValue::Text(s),
        serde_json::Value::Array(a) => JsonValue::Array(a.into_iter().map(from_serde).collect()),
        serde_json::Value::Object(m) => JsonValue::Object(
            m.into_iter().map(|(k, x)| (k, from_serde(x))).collect(),
        ),
    }
}

/// Relies on serde_json::Number::as_u64 and as_i64, and its Display for other numbers.
#[verifier::external_body]
fn number_from_serde(n: serde_json::Number) -> JsonNumber {
    match (n.as_u64(), n.as_i64()) {
        (Some(u), _) => JsonNumber::Unsigned(u),
        (None, Some(i)) => JsonNumber::Signed(i),
        (None, None) => JsonNumber::Decimal(n.to_string()),
    }
}

/// The document that serde_json reads from `text`, when it accepts `text` as JSON.
pub uninterp spec fn json_of(text: Seq<char>) -> Option<JsonValue>;

/// Relies on serde_json::from_str into serde_json::Value: parses one JSON text; the outcome
/// depends on the text alone.
#[verifier::external_body]
pub(crate) fn parse_json(text: &str) -> (r: Result<JsonValue, serde_json::Error>)
    ensures
        match r {
            Ok(j) => json_of(text@) == Some(j),
            Err(_) => json_of(text@) is None,
        },
{
    serde_json::from_str::<serde_json::Value>(text).map(from_serde)
}

} // verus!
