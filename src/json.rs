//! The generic structured value that wire text is parsed into, and the
//! boundary with serde_json, which does the parsing and printing.
use serde_json::Value;
use vstd::prelude::*;
use vstd::string::*;

verus! {

/// What a JSON value holds, as a mathematical value.
///
/// Integers are kept exactly; a number with a fraction or exponent is kept
/// as the decimal text that serde_json writes for it. An object is a finite
/// map from key to value (serde_json keeps its keys sorted, so the order of
/// insertion carries no information).
pub enum JsonModel {
    Null,
    Bool(bool),
    Int(int),
    Real(Seq<char>),
    Str(Seq<char>),
    Arr(Seq<JsonModel>),
    Obj(Map<Seq<char>, JsonModel>),
}

/// The kind of a JSON value, as reported when a field holds the wrong one.
#[derive(Clone, Copy, Debug, PartialEq, Eq, Structural)]
pub enum JsonKind {
    Null,
    Bool,
    Integer,
    Real,
    Text,
    Array,
    Object,
}

/// The kind of what a JSON value holds.
pub open spec fn kind_of(m: JsonModel) -> JsonKind {
    match m {
        JsonModel::Null => JsonKind::Null,
        JsonModel::Bool(_) => JsonKind::Bool,
        JsonModel::Int(_) => JsonKind::Integer,
        JsonModel::Real(_) => JsonKind::Real,
        JsonModel::Str(_) => JsonKind::Text,
        JsonModel::Arr(_) => JsonKind::Array,
        JsonModel::Obj(_) => JsonKind::Object,
    }
}

#[verifier::external_type_specification]
#[verifier::external_body]
pub struct ExValue(serde_json::Value);

/// What a `serde_json::Value` holds.
pub uninterp spec fn value_model(v: serde_json::Value) -> JsonModel;

/// The value that serde_json parses from a text, or `None` where the text is
/// not one JSON document.
pub uninterp spec fn parsed_text(s: Seq<char>) -> Option<JsonModel>;

/// The compact text that serde_json prints for a value.
pub uninterp spec fn printed_text(m: JsonModel) -> Seq<char>;

/// Relies on `serde_json::from_str::<Value>`: it fails exactly on text that
/// is not a single JSON document, and otherwise depends on the text alone.
#[verifier::external_body]
pub(crate) fn parse_text(s: &str) -> (r: Option<Value>)
    ensures
        r is Some <==> parsed_text(s@) is Some,
        r is Some ==> value_model(r->Some_0) == parsed_text(s@)->Some_0,
{
    serde_json::from_str::<Value>(s).ok()
}

/// Relies on `serde_json::to_string` on a `Value`: the compact text, which
/// depends on what the value holds alone. It does not fail on a `Value`:
/// `Serialize for Value` fails only through its writer, `to_string` writes
/// into a `Vec`, keys are strings, and no `Value` holds a non-finite number.
#[verifier::external_body]
pub(crate) fn print_value(v: &Value) -> (r: Option<String>)
    ensures
        r is Some,
        r->Some_0@ == printed_text(value_model(*v)),
{
    serde_json::to_string(v).ok()
}

/// Relies on `Value::get` with a string key: the member of an object under
/// that key, and `None` for a missing key or a value that is not an object.
#[verifier::external_body]
pub(crate) fn member<'a>(v: &'a Value, key: &str) -> (r: Option<&'a Value>)
    ensures
        r is Some <==> (value_model(*v) is Obj && value_model(*v)->Obj_0.contains_key(key@)),
        r is Some ==> value_model(*r->Some_0) == value_model(*v)->Obj_0[key@],
{
    v.get(key)
}

pub assume_specification[ serde_json::Value::is_object ](v: &Value) -> (r: bool)
    ensures
        r == (value_model(*v) is Obj),
;

pub assume_specification[ serde_json::Value::is_null ](v: &Value) -> (r: bool)
    ensures
        r == (value_model(*v) is Null),
;

pub assume_specification[ serde_json::Value::is_number ](v: &Value) -> (r: bool)
    ensures
        r == (value_model(*v) is Int || value_model(*v) is Real),
;

pub assume_specification[ serde_json::Value::is_f64 ](v: &Value) -> (r: bool)
    ensures
        r == (value_model(*v) is Real),
;

pub assume_specification[ serde_json::Value::as_bool ](v: &Value) -> (r: Option<bool>)
    ensures
        r == (match value_model(*v) {
            JsonModel::Bool(b) => Some(b),
            _ => None,
        }),
;

pub assume_specification[ serde_json::Value::as_i64 ](v: &Value) -> (r: Option<i64>)
    ensures
        r == (match value_model(*v) {
            JsonModel::Int(n) => if i64::MIN <= n <= i64::MAX {
                Some(n as i64)
            } else {
                None
            },
            _ => None,
        }),
;

pub assume_specification<'a>[ serde_json::Value::as_str ](v: &'a Value) -> (r: Option<&'a str>)
    ensures
        r is Some <==> value_model(*v) is Str,
        r is Some ==> r->Some_0@ == value_model(*v)->Str_0,
;

pub assume_specification<'a>[ serde_json::Value::as_array ](v: &'a Value) -> (r: Option<
    &'a Vec<Value>,
>)
    ensures
        r is Some <==> value_model(*v) is Arr,
        r is Some ==> r->Some_0@.len() == value_model(*v)->Arr_0.len(),
        r is Some ==> forall|i: int|
            0 <= i < r->Some_0@.len() ==> #[trigger] value_model(r->Some_0@[i])
                == value_model(*v)->Arr_0[i],
;

pub assume_specification[ <serde_json::Value as Clone>::clone ](v: &Value) -> (r: Value)
    ensures
        value_model(r) == value_model(*v),
;

/// Relies on `Value::Object` and `Map::new`: an object with no members.
#[verifier::external_body]
pub(crate) fn empty_object() -> (r: Value)
    ensures
        value_model(r) == JsonModel::Obj(Map::empty()),
{
    Value::Object(serde_json::Map::new())
}

/// Relies on `Map::insert` of an object's map: the member under `key` is
/// replaced or added; a value that is not an object is left as it was.
#[verifier::external_body]
pub(crate) fn insert_member(v: &mut Value, key: String, item: Value)
    ensures
        value_model(*old(v)) is Obj ==> value_model(*final(v)) == JsonModel::Obj(
            value_model(*old(v))->Obj_0.insert(key@, value_model(item)),
        ),
        !(value_model(*old(v)) is Obj) ==> value_model(*final(v)) == value_model(*old(v)),
{
    if let Value::Object(map) = v {
        map.insert(key, item);
    }
}

/// Relies on `From<i64> for Value`: the integer as a JSON number.
#[verifier::external_body]
pub(crate) fn int_value(n: i64) -> (r: Value)
    ensures
        value_model(r) == JsonModel::Int(n as int),
{
    Value::from(n)
}

/// Relies on `Value::Null`.
#[verifier::external_body]
pub(crate) fn null_value() -> (r: Value)
    ensures
        value_model(r) == JsonModel::Null,
{
    Value::Null
}

/// Relies on `Value::Bool`.
#[verifier::external_body]
pub(crate) fn bool_value(b: bool) -> (r: Value)
    ensures
        value_model(r) == JsonModel::Bool(b),
{
    Value::Bool(b)
}

/// Relies on `Value::String`.
#[verifier::external_body]
pub(crate) fn string_value(s: String) -> (r: Value)
    ensures
        value_model(r) == JsonModel::Str(s@),
{
    Value::String(s)
}

/// Relies on `Value::Array`: the items in their order.
#[verifier::external_body]
pub(crate) fn array_value(items: Vec<Value>) -> (r: Value)
    ensures
        value_model(r) == JsonModel::Arr(items@.map_values(|x: Value| value_model(x))),
{
    Value::Array(items)
}

/// A JSON object, such as a nested record of a shape outside the schema
/// table. Its view is its members.
#[derive(Debug)]
pub struct JsonObject {
    value: Value,
}

impl JsonObject {
    #[verifier::type_invariant]
    spec fn is_object(&self) -> bool {
        value_model(self.value) is Obj
    }

    /// The value, where it is an object.
    pub fn new(value: Value) -> (r: Option<JsonObject>)
        ensures
            r is Some <==> value_model(value) is Obj,
            r is Some ==> r->Some_0@ == value_model(value)->Obj_0,
    {
        if value.is_object() {
            Some(JsonObject { value })
        } else {
            None
        }
    }

    /// A copy of the value, where it is an object.
    pub fn from_ref(value: &Value) -> (r: Option<JsonObject>)
        ensures
            r is Some <==> value_model(*value) is Obj,
            r is Some ==> r->Some_0@ == value_model(*value)->Obj_0,
    {
        JsonObject::new(value.clone())
    }

    /// The object with no members.
    pub fn empty() -> (r: JsonObject)
        ensures
            r@ == Map::<Seq<char>, JsonModel>::empty(),
    {
        JsonObject { value: empty_object() }
    }

    /// The object as a JSON value.
    pub fn as_value(&self) -> (r: &Value)
        ensures
            value_model(*r) == JsonModel::Obj(self@),
    {
        proof {
            use_type_invariant(self);
        }
        &self.value
    }

    /// A copy with the same members.
    pub fn copied(&self) -> (r: JsonObject)
        ensures
            r@ == self@,
    {
        proof {
            use_type_invariant(self);
        }
        JsonObject { value: self.value.clone() }
    }
}

impl View for JsonObject {
    type V = Map<Seq<char>, JsonModel>;

    closed spec fn view(&self) -> Map<Seq<char>, JsonModel> {
        value_model(self.value)->Obj_0
    }
}

impl Clone for JsonObject {
    fn clone(&self) -> (r: JsonObject)
        ensures
            r@ == self@,
    {
        self.copied()
    }
}

/// The kind of a JSON value.
pub fn json_kind(v: &Value) -> (r: JsonKind)
    ensures
        r == kind_of(value_model(*v)),
{
    if v.is_null() {
        JsonKind::Null
    } else if v.as_bool().is_some() {
        JsonKind::Bool
    } else if v.is_f64() {
        JsonKind::Real
    } else if v.is_number() {
        JsonKind::Integer
    } else if v.as_str().is_some() {
        JsonKind::Text
    } else if v.as_array().is_some() {
        JsonKind::Array
    } else {
        JsonKind::Object
    }
}

/// Whether two strings hold the same characters.
pub fn str_eq(a: &str, b: &str) -> (r: bool)
    ensures
        r == (a@ == b@),
{
    let n = a.unicode_len();
    if n != b.unicode_len() {
        return false;
    }
    let mut i: usize = 0;
    while i < n
        invariant
            n == a@.len(),
            n == b@.len(),
            i <= n,
            forall|j: int| 0 <= j < i ==> a@[j] == b@[j],
        decreases n - i,
    {
        if a.get_char(i) != b.get_char(i) {
            return false;
        }
        i = i + 1;
    }
    assert(a@ =~= b@);
    true
}

} // verus!
