//! The JSON model this library works on.
//!
//! Every response body is parsed (by the serialization dependency, behind a
//! trusted wrapper) into a [`JsonValue`]. The record codecs and the transport
//! classification are specified directly over this datatype; text is compared
//! through its `Seq<char>` view.

use vstd::prelude::*;

verus! {

/// A JSON value, as this library holds it.
///
/// Integers keep their sign split the way the parser reports them: a number
/// that fits `i64` is `Int`, a larger non-negative one is `UInt`. A number
/// that is neither (a fractional or out-of-range literal) is carried as its
/// decimal rendering in `NumLit`, so that no value is lost even though this
/// library's logic never computes with it. Object fields keep the order the
/// parser hands them out in, with keys unique after parsing; a lookup takes
/// the first match.
#[derive(Debug, PartialEq, Eq)]
pub enum JsonValue {
    Null,
    Bool(bool),
    Int(i64),
    UInt(u64),
    NumLit(String),
    Str(String),
    Arr(Vec<JsonValue>),
    Obj(Vec<(String, JsonValue)>),
}

/// First field of `fields` whose key reads as `key`.
pub open spec fn obj_get(fields: Seq<(String, JsonValue)>, key: Seq<char>) -> Option<JsonValue>
    decreases fields.len(),
{
    if fields.len() == 0 {
        None
    } else if fields[0].0@ == key {
        Some(fields[0].1)
    } else {
        obj_get(fields.drop_first(), key)
    }
}

/// Looks `key` up in `j`; `None` unless `j` is an object holding it.
pub open spec fn spec_get(j: JsonValue, key: Seq<char>) -> Option<JsonValue> {
    match j {
        JsonValue::Obj(fields) => obj_get(fields@, key),
        _ => None,
    }
}

/// A required string field: present and a string.
pub open spec fn spec_get_str(j: JsonValue, key: Seq<char>) -> Option<Seq<char>> {
    match spec_get(j, key) {
        Some(JsonValue::Str(s)) => Some(s@),
        _ => None,
    }
}

/// A required boolean field.
pub open spec fn spec_get_bool(j: JsonValue, key: Seq<char>) -> Option<bool> {
    match spec_get(j, key) {
        Some(JsonValue::Bool(b)) => Some(b),
        _ => None,
    }
}

/// A required signed integer field: any JSON integer in `i64` range.
pub open spec fn spec_get_i64(j: JsonValue, key: Seq<char>) -> Option<i64> {
    match spec_get(j, key) {
        Some(JsonValue::Int(i)) => Some(i),
        Some(JsonValue::UInt(u)) => if u <= i64::MAX as u64 {
            Some(u as i64)
        } else {
            None
        },
        _ => None,
    }
}

/// A required non-negative integer field: any JSON integer that fits `u64`.
pub open spec fn spec_get_u64(j: JsonValue, key: Seq<char>) -> Option<u64> {
    match spec_get(j, key) {
        Some(JsonValue::Int(i)) => if i >= 0 {
            Some(i as u64)
        } else {
            None
        },
        Some(JsonValue::UInt(u)) => Some(u),
        _ => None,
    }
}

/// A required integer field narrowed to `i32` range.
pub open spec fn spec_get_i32(j: JsonValue, key: Seq<char>) -> Option<i32> {
    match spec_get_i64(j, key) {
        Some(i) => if i32::MIN as i64 <= i && i <= i32::MAX as i64 {
            Some(i as i32)
        } else {
            None
        },
        None => None,
    }
}

/// A required integer field narrowed to `u32` range.
pub open spec fn spec_get_u32(j: JsonValue, key: Seq<char>) -> Option<u32> {
    match spec_get_u64(j, key) {
        Some(u) => if u <= u32::MAX as u64 {
            Some(u as u32)
        } else {
            None
        },
        None => None,
    }
}

/// A required array field.
pub open spec fn spec_get_arr(j: JsonValue, key: Seq<char>) -> Option<Seq<JsonValue>> {
    match spec_get(j, key) {
        Some(JsonValue::Arr(items)) => Some(items@),
        _ => None,
    }
}

/// An optional string field: absent or `null` decodes to `Some(None)`,
/// a string to `Some(Some(..))`, any other shape is a type error (`None`).
pub open spec fn spec_get_opt_str(j: JsonValue, key: Seq<char>) -> Option<Option<Seq<char>>> {
    match spec_get(j, key) {
        Some(JsonValue::Str(s)) => Some(Some(s@)),
        Some(JsonValue::Null) => Some(None),
        None => Some(None),
        _ => None,
    }
}

/// An optional boolean field, with the same absent/`null` rule.
pub open spec fn spec_get_opt_bool(j: JsonValue, key: Seq<char>) -> Option<Option<bool>> {
    match spec_get(j, key) {
        Some(JsonValue::Bool(b)) => Some(Some(b)),
        Some(JsonValue::Null) => Some(None),
        None => Some(None),
        _ => None,
    }
}

/// An optional `i64` field, with the same absent/`null` rule.
pub open spec fn spec_get_opt_i64(j: JsonValue, key: Seq<char>) -> Option<Option<i64>> {
    match spec_get(j, key) {
        Some(JsonValue::Null) => Some(None),
        None => Some(None),
        Some(v) => match spec_get_i64(j, key) {
            Some(i) => Some(Some(i)),
            None => None,
        },
    }
}

/// An optional `u64` field, with the same absent/`null` rule.
pub open spec fn spec_get_opt_u64(j: JsonValue, key: Seq<char>) -> Option<Option<u64>> {
    match spec_get(j, key) {
        Some(JsonValue::Null) => Some(None),
        None => Some(None),
        Some(v) => match spec_get_u64(j, key) {
            Some(u) => Some(Some(u)),
            None => None,
        },
    }
}

impl JsonValue {
    /// Looks a key up among an object's fields; `None` on any other shape.
    pub fn get<'a>(&'a self, key: &str) -> (r: Option<&'a JsonValue>)
        ensures
            (match r {
                Some(v) => spec_get(*self, key@) == Some(*v),
                None => spec_get(*self, key@) is None,
            }),
    {
        match self {
            JsonValue::Obj(fields) => {
                let k = key.to_owned();
                proof {
                    assert(fields@.skip(0) =~= fields@);
                }
                let mut i: usize = 0;
                while i < fields.len()
                    invariant
                        i <= fields.len(),
                        k@ == key@,
                        *self == JsonValue::Obj(*fields),
                        obj_get(fields@.skip(i as int), key@) == obj_get(fields@, key@),
                    decreases fields.len() - i,
                {
                    proof {
                        assert(fields@.skip(i as int)[0] == fields@[i as int]);
                    }
                    if fields[i].0 == k {
                        return Some(&fields[i].1);
                    }
                    proof {
                        assert(fields@.skip(i as int).drop_first()
                            =~= fields@.skip(i as int + 1));
                    }
                    i = i + 1;
                }
                proof {
                    assert(fields@.skip(i as int)
                        =~= Seq::<(String, JsonValue)>::empty());
                }
                None
            },
            _ => None,
        }
    }

    /// A required string field, cloned out of the object.
    pub fn get_str(&self, key: &str) -> (r: Option<String>)
        ensures
            r.deep_view() == spec_get_str(*self, key@),
    {
        match self.get(key) {
            Some(JsonValue::Str(s)) => Some(s.clone()),
            _ => None,
        }
    }

    /// A required boolean field.
    pub fn get_bool(&self, key: &str) -> (r: Option<bool>)
        ensures
            r == spec_get_bool(*self, key@),
    {
        match self.get(key) {
            Some(JsonValue::Bool(b)) => Some(*b),
            _ => None,
        }
    }

    /// A required signed integer field.
    pub fn get_i64(&self, key: &str) -> (r: Option<i64>)
        ensures
            r == spec_get_i64(*self, key@),
    {
        match self.get(key) {
            Some(JsonValue::Int(i)) => Some(*i),
            Some(JsonValue::UInt(u)) => if *u <= i64::MAX as u64 {
                Some(*u as i64)
            } else {
                None
            },
            _ => None,
        }
    }

    /// A required non-negative integer field.
    pub fn get_u64(&self, key: &str) -> (r: Option<u64>)
        ensures
            r == spec_get_u64(*self, key@),
    {
        match self.get(key) {
            Some(JsonValue::Int(i)) => if *i >= 0 {
                Some(*i as u64)
            } else {
                None
            },
            Some(JsonValue::UInt(u)) => Some(*u),
            _ => None,
        }
    }

    /// A required integer field narrowed to `i32`.
    pub fn get_i32(&self, key: &str) -> (r: Option<i32>)
        ensures
            r == spec_get_i32(*self, key@),
    {
        match self.get_i64(key) {
            Some(i) => if i32::MIN as i64 <= i && i <= i32::MAX as i64 {
                Some(i as i32)
            } else {
                None
            },
            None => None,
        }
    }

    /// A required integer field narrowed to `u32`.
    pub fn get_u32(&self, key: &str) -> (r: Option<u32>)
        ensures
            r == spec_get_u32(*self, key@),
    {
        match self.get_u64(key) {
            Some(u) => if u <= u32::MAX as u64 {
                Some(u as u32)
            } else {
                None
            },
            None => None,
        }
    }

    /// A required array field, borrowed.
    pub fn get_arr<'a>(&'a self, key: &str) -> (r: Option<&'a Vec<JsonValue>>)
        ensures
            (match r {
                Some(items) => spec_get_arr(*self, key@) == Some(items@),
                None => spec_get_arr(*self, key@) is None,
            }),
    {
        match self.get(key) {
            Some(v) => match v {
                JsonValue::Arr(items) => Some(items),
                _ => None,
            },
            _ => None,
        }
    }

    /// An optional string field: absent or `null` is `Some(None)`,
    /// any non-string shape is a type error.
    pub fn get_opt_str(&self, key: &str) -> (r: Option<Option<String>>)
        ensures
            r.deep_view() == spec_get_opt_str(*self, key@),
    {
        match self.get(key) {
            Some(JsonValue::Str(s)) => Some(Some(s.clone())),
            Some(JsonValue::Null) => Some(None),
            None => Some(None),
            _ => None,
        }
    }

    /// An optional boolean field, with the same absent/`null` rule.
    pub fn get_opt_bool(&self, key: &str) -> (r: Option<Option<bool>>)
        ensures
            r == spec_get_opt_bool(*self, key@),
    {
        match self.get(key) {
            Some(JsonValue::Bool(b)) => Some(Some(*b)),
            Some(JsonValue::Null) => Some(None),
            None => Some(None),
            _ => None,
        }
    }

    /// An optional `i64` field, with the same absent/`null` rule.
    pub fn get_opt_i64(&self, key: &str) -> (r: Option<Option<i64>>)
        ensures
            r == spec_get_opt_i64(*self, key@),
    {
        match self.get(key) {
            Some(JsonValue::Null) => Some(None),
            None => Some(None),
            Some(_) => match self.get_i64(key) {
                Some(i) => Some(Some(i)),
                None => None,
            },
        }
    }

    /// An optional `u64` field, with the same absent/`null` rule.
    pub fn get_opt_u64(&self, key: &str) -> (r: Option<Option<u64>>)
        ensures
            r == spec_get_opt_u64(*self, key@),
    {
        match self.get(key) {
            Some(JsonValue::Null) => Some(None),
            None => Some(None),
            Some(_) => match self.get_u64(key) {
                Some(u) => Some(Some(u)),
                None => None,
            },
        }
    }
}

/// A lookup lands on the first field whose key matches: if every key before
/// position `i` differs from `key` and the key at `i` matches, the lookup
/// returns the value at `i`.
pub proof fn lemma_obj_get_at(fields: Seq<(String, JsonValue)>, key: Seq<char>, i: int)
    requires
        0 <= i < fields.len(),
        fields[i].0@ == key,
        forall|k: int| 0 <= k < i ==> #[trigger] fields[k].0@ != key,
    ensures
        obj_get(fields, key) == Some(fields[i].1),
    decreases i,
{
    if i > 0 {
        lemma_obj_get_at(fields.drop_first(), key, i - 1);
    }
}

/// A string-array body: every element a string.
pub open spec fn str_arr_wf(items: Seq<JsonValue>) -> bool {
    forall|i: int| 0 <= i < items.len() ==> (#[trigger] items[i]) matches JsonValue::Str(_)
}

/// How a decoded string list reads against a string-array body.
pub open spec fn str_arr_decodes_to(items: Seq<JsonValue>, out: Seq<String>) -> bool {
    &&& out.len() == items.len()
    &&& forall|i: int|
        0 <= i < items.len() ==> ((#[trigger] items[i]) matches JsonValue::Str(s) && s@ == out[i]@)
}

/// Decodes an array of strings; `None` as soon as one element is not a
/// string.
pub fn decode_str_items(items: &Vec<JsonValue>) -> (r: Option<Vec<String>>)
    ensures
        r is Some <==> str_arr_wf(items@),
        (r matches Some(out) ==> str_arr_decodes_to(items@, out@)),
{
    let mut out: Vec<String> = Vec::new();
    let mut i: usize = 0;
    while i < items.len()
        invariant
            i <= items.len(),
            out@.len() == i,
            forall|k: int|
                0 <= k < i ==> ((#[trigger] items@[k]) matches JsonValue::Str(s) && s@
                    == out@[k]@),
        decreases items.len() - i,
    {
        match &items[i] {
            JsonValue::Str(s) => {
                out.push(s.clone());
            },
            _ => {
                return None;
            },
        }
        i = i + 1;
    }
    Some(out)
}

/// An array of strings whose encodings carry exactly the texts of `out`.
pub open spec fn str_arr_encoding(out: Seq<String>, items: Seq<JsonValue>) -> bool {
    &&& items.len() == out.len()
    &&& forall|i: int|
        0 <= i < items.len() ==> ((#[trigger] items[i]) matches JsonValue::Str(s) && s@ == out[i]@)
}

/// Encodes a list of strings as a JSON array of strings.
pub fn encode_str_items(out: &Vec<String>) -> (r: Vec<JsonValue>)
    ensures
        str_arr_encoding(out@, r@),
{
    let mut items: Vec<JsonValue> = Vec::new();
    let mut i: usize = 0;
    while i < out.len()
        invariant
            i <= out.len(),
            items@.len() == i,
            forall|k: int|
                0 <= k < i ==> ((#[trigger] items@[k]) matches JsonValue::Str(s) && s@
                    == out@[k]@),
        decreases out.len() - i,
    {
        items.push(JsonValue::Str(out[i].clone()));
        i = i + 1;
    }
    items
}

/// Structural equivalence of JSON values: the same shape, with texts
/// compared by content.
pub open spec fn json_eqv(a: JsonValue, b: JsonValue) -> bool
    decreases a,
{
    match (a, b) {
        (JsonValue::Null, JsonValue::Null) => true,
        (JsonValue::Bool(x), JsonValue::Bool(y)) => x == y,
        (JsonValue::Int(x), JsonValue::Int(y)) => x == y,
        (JsonValue::UInt(x), JsonValue::UInt(y)) => x == y,
        (JsonValue::NumLit(x), JsonValue::NumLit(y)) => x@ == y@,
        (JsonValue::Str(x), JsonValue::Str(y)) => x@ == y@,
        (JsonValue::Arr(xs), JsonValue::Arr(ys)) => xs@.len() == ys@.len() && (forall|i: int|
            0 <= i < xs@.len() ==> json_eqv(a->Arr_0@[i], #[trigger] ys@[i])),
        (JsonValue::Obj(xf), JsonValue::Obj(yf)) => xf@.len() == yf@.len() && (forall|i: int|
            0 <= i < xf@.len() ==> (#[trigger] yf@[i]).0@ == a->Obj_0@[i].0@ && json_eqv(
                a->Obj_0@[i].1,
                yf@[i].1,
            )),
        _ => false,
    }
}

impl JsonValue {
    /// An owned copy of the value, structurally equivalent to it.
    pub fn duplicate(&self) -> (r: JsonValue)
        ensures
            json_eqv(*self, r),
        decreases *self,
    {
        match self {
            JsonValue::Null => JsonValue::Null,
            JsonValue::Bool(b) => JsonValue::Bool(*b),
            JsonValue::Int(i) => JsonValue::Int(*i),
            JsonValue::UInt(u) => JsonValue::UInt(*u),
            JsonValue::NumLit(s) => JsonValue::NumLit(s.clone()),
            JsonValue::Str(s) => JsonValue::Str(s.clone()),
            JsonValue::Arr(items) => {
                let mut out: Vec<JsonValue> = Vec::new();
                let mut i: usize = 0;
                while i < items.len()
                    invariant
                        i <= items.len(),
                        *self == JsonValue::Arr(*items),
                        out@.len() == i,
                        forall|k: int| 0 <= k < i ==> json_eqv(items@[k], #[trigger] out@[k]),
                    decreases items.len() - i,
                {
                    proof {
                        assert(decreases_to!(*self => (*self)->Arr_0@[i as int]));
                    }
                    out.push(items[i].duplicate());
                    i = i + 1;
                }
                JsonValue::Arr(out)
            },
            JsonValue::Obj(fields) => {
                let mut out: Vec<(String, JsonValue)> = Vec::new();
                let mut i: usize = 0;
                while i < fields.len()
                    invariant
                        i <= fields.len(),
                        *self == JsonValue::Obj(*fields),
                        out@.len() == i,
                        forall|k: int|
                            0 <= k < i ==> (#[trigger] out@[k]).0@ == fields@[k].0@ && json_eqv(
                                fields@[k].1,
                                out@[k].1,
                            ),
                    decreases fields.len() - i,
                {
                    proof {
                        assert(decreases_to!(*self => (*self)->Obj_0@[i as int].1));
                    }
                    out.push((fields[i].0.clone(), fields[i].1.duplicate()));
                    i = i + 1;
                }
                JsonValue::Obj(out)
            },
        }
    }
}

/// What the JSON parser returns on a given body text. The result depends on
/// the text alone; nothing more is assumed of it.
pub uninterp spec fn json_of(body: Seq<char>) -> Option<JsonValue>;

/// Relies on `serde_json::from_str::<serde_json::Value>`: whether a body
/// parses as JSON, and the value parsed, are functions of the text alone.
#[verifier::external_body]
pub(crate) fn parse_json(body: &str) -> (r: Option<JsonValue>)
    ensures
        r == json_of(body@),
{
    match serde_json::from_str::<serde_json::Value>(body) {
        Ok(v) => Some(convert_value(v)),
        Err(_) => None,
    }
}

/// The parsed value type of the serialization dependency, opaque here: the
/// trusted conversion below is the only code that looks inside one.
#[verifier::external_type_specification]
#[verifier::external_body]
pub struct ExSerdeJsonValue(serde_json::Value);

/// Relies on `serde_json::Value`: carries each parsed variant over one for
/// one; a number keeps `i64` first, then `u64`, else its decimal rendering.
#[verifier::external_body]
fn convert_value(v: serde_json::Value) -> JsonValue {
    match v {
        serde_json::Value::Null => JsonValue::Null,
        serde_json::Value::Bool(b) => JsonValue::Bool(b),
        serde_json::Value::Number(n) => match (n.as_i64(), n.as_u64()) {
            (Some(i), _) => JsonValue::Int(i),
            (None, Some(u)) => JsonValue::UInt(u),
            (None, None) => JsonValue::NumLit(n.to_string()),
        },
        serde_json::Value::String(s) => JsonValue::Str(s),
        serde_json::Value::Array(a) => JsonValue::Arr(a.into_iter().map(convert_value).collect()),
        serde_json::Value::Object(m) => JsonValue::Obj(
            m.into_iter().map(|(k, f)| (k, convert_value(f))).collect(),
        ),
    }
}

} // verus!
