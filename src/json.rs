//! JSON values as the library holds them, and the passage to and from text.
use crate::text::str_eq;
use vstd::prelude::*;
use vstd::string::*;

verus! {

/// A JSON value. Integers are held exactly; any other number keeps the text
/// that it was written with.
#[derive(Debug)]
pub enum Json {
    Null,
    Bool(bool),
    Int(i128),
    Float(String),
    Str(String),
    Array(Vec<Json>),
    Object(Vec<(String, Json)>),
}

/// The value under the first member of `fields` whose key is `key`.
pub open spec fn lookup(fields: Seq<(String, Json)>, key: Seq<char>) -> Option<Json>
    decreases fields.len(),
{
    if fields.len() == 0 {
        None
    } else if fields[0].0@ == key {
        Some(fields[0].1)
    } else {
        lookup(fields.drop_first(), key)
    }
}

/// `j` is a string whose characters are `s`.
pub open spec fn is_text(j: Json, s: Seq<char>) -> bool {
    j matches Json::Str(x) && x@ == s
}

/// `j` is the integer `n`.
pub open spec fn is_int(j: Json, n: int) -> bool {
    j matches Json::Int(x) && x == n
}

/// The number of members of an object, or elements of an array; zero otherwise.
pub open spec fn size(j: Json) -> nat {
    match j {
        Json::Object(f) => f@.len(),
        Json::Array(v) => v@.len(),
        _ => 0,
    }
}

/// The key of member `i` of an object.
pub open spec fn key_at(j: Json, i: int) -> Seq<char> {
    match j {
        Json::Object(f) => f@[i].0@,
        _ => Seq::empty(),
    }
}

/// The value of member `i` of an object, or element `i` of an array.
pub open spec fn value_at(j: Json, i: int) -> Json {
    match j {
        Json::Object(f) => f@[i].1,
        Json::Array(v) => v@[i],
        _ => Json::Null,
    }
}

/// `j` is an object whose member `i` is `key` with a value that is `v`.
pub open spec fn has_member(j: Json, i: int, key: Seq<char>, v: Json) -> bool {
    j is Object && 0 <= i < size(j) && key_at(j, i) == key && value_at(j, i) == v
}

/// `j` is an object whose member `i` is `key` with the string `s`.
pub open spec fn has_text_member(j: Json, i: int, key: Seq<char>, s: Seq<char>) -> bool {
    j is Object && 0 <= i < size(j) && key_at(j, i) == key && is_text(value_at(j, i), s)
}

/// The value of `text` read as a JSON document, or `None` where it is not one.
pub uninterp spec fn parsed(text: Seq<char>) -> Option<Json>;

/// The compact JSON text of `j`.
pub uninterp spec fn rendered(j: Json) -> Seq<char>;

/// Index of the first member of `fields` whose key is `key`.
pub fn find_member(fields: &Vec<(String, Json)>, key: &str) -> (r: Option<usize>)
    ensures
        match r {
            Some(i) => i < fields@.len() && lookup(fields@, key@) == Some(fields@[i as int].1),
            None => lookup(fields@, key@) is None,
        },
{
    let mut i: usize = 0;
    assert(fields@.subrange(0, fields@.len() as int) =~= fields@);
    while i < fields.len()
        invariant
            i <= fields@.len(),
            lookup(fields@, key@) == lookup(fields@.subrange(i as int, fields@.len() as int), key@),
        decreases fields@.len() - i,
    {
        let ghost rest = fields@.subrange(i as int, fields@.len() as int);
        assert(rest.drop_first() =~= fields@.subrange(i + 1, fields@.len() as int));
        assert(rest[0] == fields@[i as int]);
        if str_eq(fields[i].0.as_str(), key) {
            return Some(i);
        }
        i = i + 1;
    }
    None
}

impl Json {
    /// The member `key` of an object; nothing for any other value.
    pub open spec fn field(self, key: Seq<char>) -> Option<Json> {
        match self {
            Json::Object(fields) => lookup(fields@, key),
            _ => None,
        }
    }

    pub open spec fn spec_as_u64(self) -> Option<u64> {
        match self {
            Json::Int(i) => if 0 <= i <= u64::MAX {
                Some(i as u64)
            } else {
                None
            },
            _ => None,
        }
    }

    pub open spec fn spec_as_i64(self) -> Option<i64> {
        match self {
            Json::Int(i) => if i64::MIN <= i <= i64::MAX {
                Some(i as i64)
            } else {
                None
            },
            _ => None,
        }
    }

    /// Looks up the member `key` of an object.
    pub fn get(&self, key: &str) -> (r: Option<&Json>)
        ensures
            match r {
                Some(v) => self.field(key@) == Some(*v),
                None => self.field(key@) is None,
            },
    {
        match self {
            Json::Object(fields) => match find_member(fields, key) {
                Some(i) => Some(&fields[i].1),
                None => None,
            },
            _ => None,
        }
    }

    /// Takes the member `key` out of an object, dropping the rest.
    pub fn take(self, key: &str) -> (r: Option<Json>)
        ensures
            r == self.field(key@),
    {
        match self {
            Json::Object(mut fields) => match find_member(&fields, key) {
                Some(i) => Some(fields.remove(i).1),
                None => None,
            },
            _ => None,
        }
    }

    /// Takes the members `k1`, `k2` and `k3` out of an object, dropping the rest.
    pub(crate) fn take3(self, k1: &str, k2: &str, k3: &str) -> (r: (Option<Json>, Option<Json>, Option<Json>))
        requires
            k1@ != k2@,
            k1@ != k3@,
            k2@ != k3@,
        ensures
            r.0 == self.field(k1@),
            r.1 == self.field(k2@),
            r.2 == self.field(k3@),
    {
        match self {
            Json::Object(mut fields) => {
                let ghost all = fields@;
                let mut a: Option<Json> = None;
                let mut b: Option<Json> = None;
                let mut c: Option<Json> = None;
                while fields.len() > 0
                    invariant
                        k1@ != k2@,
                        k1@ != k3@,
                        k2@ != k3@,
                        lookup(all, k1@) == match a { Some(v) => Some(v), None => lookup(fields@, k1@) },
                        lookup(all, k2@) == match b { Some(v) => Some(v), None => lookup(fields@, k2@) },
                        lookup(all, k3@) == match c { Some(v) => Some(v), None => lookup(fields@, k3@) },
                    decreases fields@.len(),
                {
                    let ghost before = fields@;
                    let (k, v) = fields.remove(0);
                    assert(fields@ =~= before.drop_first());
                    assert(k@ == before[0].0@ && v == before[0].1);
                    assert(lookup(before, k2@) == if k@ == k2@ { Some(v) } else { lookup(fields@, k2@) });
                    assert(lookup(before, k3@) == if k@ == k3@ { Some(v) } else { lookup(fields@, k3@) });
                    if a.is_none() && str_eq(k.as_str(), k1) {
                        a = Some(v);
                    } else if b.is_none() && str_eq(k.as_str(), k2) {
                        b = Some(v);
                    } else if c.is_none() && str_eq(k.as_str(), k3) {
                        c = Some(v);
                    }
                }
                (a, b, c)
            },
            _ => (None, None, None),
        }
    }

    /// Takes the members `k1` and `k2` out of an object, dropping the rest.
    pub(crate) fn take2(self, k1: &str, k2: &str) -> (r: (Option<Json>, Option<Json>))
        requires
            k1@ != k2@,
        ensures
            r.0 == self.field(k1@),
            r.1 == self.field(k2@),
    {
        match self {
            Json::Object(mut fields) => {
                let ghost all = fields@;
                let mut a: Option<Json> = None;
                let mut b: Option<Json> = None;
                while fields.len() > 0
                    invariant
                        k1@ != k2@,
                        lookup(all, k1@) == match a { Some(v) => Some(v), None => lookup(fields@, k1@) },
                        lookup(all, k2@) == match b { Some(v) => Some(v), None => lookup(fields@, k2@) },
                    decreases fields@.len(),
                {
                    let ghost before = fields@;
                    let (k, v) = fields.remove(0);
                    assert(fields@ =~= before.drop_first());
                    assert(k@ == before[0].0@ && v == before[0].1);
                    assert(lookup(before, k2@) == if k@ == k2@ { Some(v) } else { lookup(fields@, k2@) });
                    if a.is_none() && str_eq(k.as_str(), k1) {
                        a = Some(v);
                    } else if b.is_none() && str_eq(k.as_str(), k2) {
                        b = Some(v);
                    }
                }
                (a, b)
            },
            _ => (None, None),
        }
    }

    /// The characters of a string value.
    pub fn as_str(&self) -> (r: Option<&str>)
        ensures
            match r {
                Some(s) => is_text(*self, s@),
                None => !(self is Str),
            },
    {
        match self {
            Json::Str(s) => Some(s.as_str()),
            _ => None,
        }
    }

    /// An integer value that fits in `u64`.
    pub fn as_u64(&self) -> (r: Option<u64>)
        ensures
            r == self.spec_as_u64(),
    {
        match self {
            Json::Int(i) => if 0 <= *i && *i <= u64::MAX as i128 {
                Some(*i as u64)
            } else {
                None
            },
            _ => None,
        }
    }

    /// An integer value that fits in `i64`.
    pub fn as_i64(&self) -> (r: Option<i64>)
        ensures
            r == self.spec_as_i64(),
    {
        match self {
            Json::Int(i) => if i64::MIN as i128 <= *i && *i <= i64::MAX as i128 {
                Some(*i as i64)
            } else {
                None
            },
            _ => None,
        }
    }

    /// The elements of an array value.
    pub fn as_array(&self) -> (r: Option<&Vec<Json>>)
        ensures
            match r {
                Some(v) => *self == Json::Array(*v),
                None => !(self is Array),
            },
    {
        match self {
            Json::Array(v) => Some(v),
            _ => None,
        }
    }

    /// An object member `key` with value `v`.
    pub fn member(key: &str, v: Json) -> (r: (String, Json))
        ensures
            r.0@ == key@,
            r.1 == v,
    {
        (String::from_str(key), v)
    }

    /// Reads a JSON document; `None` where `text` is not one.
    pub fn parse(text: &str) -> (r: Option<Json>)
        ensures
            r == parsed(text@),
    {
        parse_json(text)
    }

    /// The compact JSON text of this value.
    pub fn render(&self) -> (r: String)
        ensures
            r@ == rendered(*self),
    {
        render_json(self)
    }

    /// A string value holding `s`.
    pub fn text(s: &str) -> (r: Json)
        ensures
            is_text(r, s@),
    {
        Json::Str(String::from_str(s))
    }
}

/// Relies on serde_json::from_str into serde_json::Value: the value read
/// depends on the text alone, and text that is no JSON document gives an error.
#[verifier::external_body]
pub(crate) fn parse_json(text: &str) -> (r: Option<Json>)
    ensures
        r == parsed(text@),
{
    serde_json::from_str::<serde_json::Value>(text).ok().map(|v| from_value(&v))
}

/// Relies on serde_json::to_string of a serde_json::Value: the text depends on
/// the value alone, and a value with string keys always serialises.
#[verifier::external_body]
pub(crate) fn render_json(j: &Json) -> (r: String)
    ensures
        r@ == rendered(*j),
{
    serde_json::to_string(&to_value(j)).unwrap_or_default()
}

/// serde_json's document type, handed between serde_json and the two
/// conversions below; nothing is read from it in verified code.
#[verifier::external_type_specification]
#[verifier::external_body]
pub struct ExValue(serde_json::Value);

/// Relies on the variants of serde_json::Value and on serde_json::Number's
/// `as_i128` and text form: converts a parsed document into the library's
/// form, one node for one.
#[verifier::external_body]
fn from_value(v: &serde_json::Value) -> Json {
    match v {
        serde_json::Value::Null => Json::Null,
        serde_json::Value::Bool(b) => Json::Bool(*b),
        serde_json::Value::Number(n) => match n.as_i128() {
            Some(i) => Json::Int(i),
            None => Json::Float(n.to_string()),
        },
        serde_json::Value::String(s) => Json::Str(s.clone()),
        serde_json::Value::Array(a) => Json::Array(a.iter().map(from_value).collect()),
        serde_json::Value::Object(o) => Json::Object(o.iter().map(|(k, x)| (k.clone(), from_value(x))).collect()),
    }
}

/// Relies on the variants of serde_json::Value, on
/// serde_json::Number::from_i128, and on serde_json::from_str for a number's
/// text: converts the library's form into a serde_json value, one node for
/// one.
#[verifier::external_body]
fn to_value(j: &Json) -> serde_json::Value {
    match j {
        Json::Null => serde_json::Value::Null,
        Json::Bool(b) => serde_json::Value::Bool(*b),
        Json::Int(i) => serde_json::Number::from_i128(*i).map_or(serde_json::Value::Null, serde_json::Value::Number),
        Json::Float(s) => serde_json::from_str(s).unwrap_or(serde_json::Value::Null),
        Json::Str(s) => serde_json::Value::String(s.clone()),
        Json::Array(a) => serde_json::Value::Array(a.iter().map(to_value).collect()),
        Json::Object(o) => serde_json::Value::Object(o.iter().map(|(k, x)| (k.clone(), to_value(x))).collect()),
    }
}

} // verus!
