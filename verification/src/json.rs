use vstd::prelude::*;

verus! {

/// A loosely-typed JSON document, as the upstream search service returns one.
///
/// The library works on this type so that field lookups and the defaults taken
/// for missing fields can be specified exactly. Numbers outside the range of
/// `i64` (and non-integral numbers) carry no information the extractor reads;
/// a caller that decodes a real document maps such a number to `Null`.
pub enum JsonValue {
    Null,
    Bool(bool),
    Int(i64),
    Text(String),
    Array(Vec<JsonValue>),
    Object(Vec<(String, JsonValue)>),
}

/// The value under `key` in a list of object entries: the first entry whose
/// key matches, as a JSON object decoded from text never repeats a key.
pub open spec fn entries_lookup(entries: Seq<(String, JsonValue)>, key: Seq<char>) -> Option<
    JsonValue,
>
    decreases entries.len(),
{
    if entries.len() == 0 {
        None
    } else if entries[0].0@ == key {
        Some(entries[0].1)
    } else {
        entries_lookup(entries.drop_first(), key)
    }
}

/// The value under `key` in `v`, or `None` where `v` is not an object or has
/// no such key.
pub open spec fn spec_get(v: JsonValue, key: Seq<char>) -> Option<JsonValue> {
    match v {
        JsonValue::Object(entries) => entries_lookup(entries@, key),
        _ => None,
    }
}

/// The value two keys deep: `v[k1][k2]`, or `None` anywhere on the way.
pub open spec fn spec_get2(v: JsonValue, k1: Seq<char>, k2: Seq<char>) -> Option<JsonValue> {
    match spec_get(v, k1) {
        Some(inner) => spec_get(inner, k2),
        None => None,
    }
}

/// The characters of a text value, or the empty sequence for a missing value
/// or one of any other shape.
pub open spec fn text_or_empty(v: Option<JsonValue>) -> Seq<char> {
    match v {
        Some(JsonValue::Text(s)) => s@,
        _ => Seq::empty(),
    }
}

/// The integer of a numeric value when it fits an `i32`, or `0` for a missing
/// value, one of another shape, or one out of range.
pub open spec fn int_or_zero(v: Option<JsonValue>) -> int {
    match v {
        Some(JsonValue::Int(i)) => if i32::MIN <= i <= i32::MAX {
            i as int
        } else {
            0
        },
        _ => 0,
    }
}

/// Relies on `str`'s `==` (core's `PartialEq for str`): equality of the two
/// slices' bytes, which for valid UTF-8 is equality of their characters.
#[verifier::external_body]
fn str_eq(a: &str, b: &str) -> (r: bool)
    ensures
        r == (a@ == b@),
{
    a == b
}

proof fn lemma_entries_lookup_skip(entries: Seq<(String, JsonValue)>, key: Seq<char>, i: int)
    requires
        0 <= i <= entries.len(),
        forall|j: int| 0 <= j < i ==> entries[j].0@ != key,
    ensures
        entries_lookup(entries, key) == entries_lookup(entries.skip(i), key),
    decreases i,
{
    if i > 0 {
        assert(entries[0].0@ != key);
        lemma_entries_lookup_skip(entries.drop_first(), key, i - 1);
        assert(entries.drop_first().skip(i - 1) =~= entries.skip(i));
    } else {
        assert(entries.skip(0) =~= entries);
    }
}

impl JsonValue {
    /// The value under `key`, where `self` is an object that has one.
    #[verifier::loop_isolation(false)]
    pub fn get<'a>(&'a self, key: &str) -> (r: Option<&'a JsonValue>)
        ensures
            match r {
                Some(v) => spec_get(*self, key@) == Some(*v),
                None => spec_get(*self, key@) is None,
            },
    {
        match self {
            JsonValue::Object(entries) => {
                let n = entries.len();
                let mut i: usize = 0;
                while i < n
                    invariant
                        forall|j: int| 0 <= j < i ==> entries@[j].0@ != key@,
                    decreases n - i,
                {
                    if str_eq(entries[i].0.as_str(), key) {
                        proof {
                            lemma_entries_lookup_skip(entries@, key@, i as int);
                        }
                        return Some(&entries[i].1);
                    }
                    i += 1;
                }
                proof {
                    lemma_entries_lookup_skip(entries@, key@, n as int);
                }
                None
            },
            _ => None,
        }
    }

    /// The value two keys deep: `self[k1][k2]`.
    pub fn get2<'a>(&'a self, k1: &str, k2: &str) -> (r: Option<&'a JsonValue>)
        ensures
            match r {
                Some(v) => spec_get2(*self, k1@, k2@) == Some(*v),
                None => spec_get2(*self, k1@, k2@) is None,
            },
    {
        match self.get(k1) {
            Some(inner) => inner.get(k2),
            None => None,
        }
    }

    /// The text held by a text value.
    pub fn as_text(&self) -> (r: Option<&String>)
        ensures
            match r {
                Some(s) => *self matches JsonValue::Text(t) && t == *s,
                None => !(*self is Text),
            },
    {
        match self {
            JsonValue::Text(s) => Some(s),
            _ => None,
        }
    }

    /// The integer held by a numeric value.
    pub fn as_int(&self) -> (r: Option<i64>)
        ensures
            match r {
                Some(i) => *self == JsonValue::Int(i),
                None => !(*self is Int),
            },
    {
        match self {
            JsonValue::Int(i) => Some(*i),
            _ => None,
        }
    }

    /// The elements held by an array value.
    pub fn as_array(&self) -> (r: Option<&Vec<JsonValue>>)
        ensures
            match r {
                Some(a) => *self matches JsonValue::Array(elems) && elems == *a,
                None => !(*self is Array),
            },
    {
        match self {
            JsonValue::Array(elems) => Some(elems),
            _ => None,
        }
    }
}

} // verus!
