//! The executable codec: reading the header and the declared fields of an
//! object, writing them back, and the capability that every record type has.
use crate::errors::{ErrorModel, FieldProblem, RTDError, RTDResult};
use crate::json::{
    array_value, bool_value, empty_object, json_kind, insert_member, int_value, member, null_value,
    kind_of, parse_text, print_value, printed_text, string_value, value_model, JsonModel,
    JsonObject,
};
use crate::model::{
    decode_extra, decode_field, decode_in, decode_text, encode_field, encode_record, field_error,
    header_of, in_i32, wf_record, FieldModel, RecordModel,
};
use crate::schema::{lookup_tag, members, tag_name, tag_named, Category, FieldKind, Tag};
use serde_json::Value;
use vstd::prelude::*;
use vstd::string::*;

verus! {

/// An optional string, as an optional sequence of characters.
pub open spec fn opt_text(o: Option<String>) -> Option<Seq<char>> {
    match o {
        Some(s) => Some(s@),
        None => None,
    }
}

/// The members of an optional object.
pub open spec fn opt_object(o: Option<JsonObject>) -> Option<Map<Seq<char>, JsonModel>> {
    match o {
        Some(x) => Some(x@),
        None => None,
    }
}

/// The members of each of a sequence of objects.
pub open spec fn objects_model(xs: Seq<JsonObject>) -> Seq<Map<Seq<char>, JsonModel>> {
    xs.map_values(|x: JsonObject| x@)
}

/// What each of a sequence of JSON values holds.
pub open spec fn values_model(vs: Seq<Value>) -> Seq<JsonModel> {
    vs.map_values(|v: Value| value_model(v))
}

/// The outcome of a decode, as a mathematical value.
pub open spec fn outcome<T: View<V = RecordModel>>(r: RTDResult<T>) -> Result<
    RecordModel,
    ErrorModel,
> {
    match r {
        Ok(x) => Ok(x@),
        Err(e) => Err(e@),
    }
}

/// A field read agrees with the spec decode: the same error, or a value
/// whose model `f` gives the decoded field.
pub open spec fn agrees<T>(
    r: RTDResult<T>,
    d: Result<FieldModel, ErrorModel>,
    f: spec_fn(T) -> FieldModel,
) -> bool {
    match d {
        Ok(x) => r is Ok && x == f(r->Ok_0),
        Err(e) => r is Err && r->Err_0@ == e,
    }
}

/// The capability that every record type has: a fixed discriminator, an
/// optional correlation id, and an encode that the decode inverts.
pub trait RObject: Sized + View<V = RecordModel> {
    /// The shapes that this type decodes.
    spec fn accepted() -> Set<Tag>;

    /// Every value is a well-formed record of a shape that the type accepts.
    proof fn lemma_view_wf(&self)
        ensures
            wf_record(self@),
            Self::accepted().contains(self@.tag),
    ;

    /// The discriminator of this value's shape.
    fn td_name(&self) -> (r: &'static str)
        ensures
            r@ == tag_name(self@.tag),
    ;

    /// The correlation id, if any.
    fn extra(&self) -> (r: Option<String>)
        ensures
            opt_text(r) == self@.extra,
    ;

    /// The JSON value of this record.
    fn to_value(&self) -> (r: Value)
        ensures
            value_model(r) == encode_record(self@),
    ;

    /// Decodes a JSON value as one of the accepted shapes.
    fn from_value(v: &Value) -> (r: RTDResult<Self>)
        ensures
            outcome(r) == decode_in(value_model(*v), Self::accepted()),
    ;

    /// A copy with the same fields.
    fn copied(&self) -> (r: Self)
        ensures
            r@ == self@,
    ;

    /// The JSON text of this record.
    fn to_json(&self) -> (r: RTDResult<String>)
        ensures
            r is Ok,
            r->Ok_0@ == printed_text(encode_record(self@)),
    {
        let v = self.to_value();
        match print_value(&v) {
            Some(s) => Ok(s),
            None => Err(RTDError::Encode),
        }
    }
}

/// The capability of request records: those that may be sent to the engine.
/// A request never decodes as an event or a result.
pub trait RFunction: RObject {}

/// Decodes a text as the record type `T`.
pub fn from_json<T: RObject>(json: &str) -> (r: RTDResult<T>)
    ensures
        outcome(r) == decode_text(json@, T::accepted()),
{
    match parse_text(json) {
        Some(v) => T::from_value(&v),
        None => Err(RTDError::Parse),
    }
}

/// The discriminator of a parsed value, if it is an object with a string
/// discriminator.
pub open spec fn peek_type(m: Option<JsonModel>) -> Option<Seq<char>> {
    match m {
        Some(JsonModel::Obj(o)) => if o.contains_key("@type"@) && o["@type"@] is Str {
            Some(o["@type"@]->Str_0)
        } else {
            None
        },
        _ => None,
    }
}

/// The correlation id of a parsed value, if it is an object with a string
/// correlation id.
pub open spec fn peek_extra(m: Option<JsonModel>) -> Option<Seq<char>> {
    match m {
        Some(JsonModel::Obj(o)) => if o.contains_key("@extra"@) && o["@extra"@] is Str {
            Some(o["@extra"@]->Str_0)
        } else {
            None
        },
        _ => None,
    }
}

/// A string member of `v`, copied out.
fn string_member(v: &Value, key: &str) -> (r: Option<String>)
    ensures
        opt_text(r) == (match value_model(*v) {
            JsonModel::Obj(o) => if o.contains_key(key@) && o[key@] is Str {
                Some(o[key@]->Str_0)
            } else {
                None
            },
            _ => None,
        }),
{
    match member(v, key) {
        Some(x) => match x.as_str() {
            Some(s) => Some(String::from_str(s)),
            None => None,
        },
        None => None,
    }
}

/// The discriminator of a text, without decoding the rest: for a router
/// that classifies a message before decoding it.
pub fn detect_td_type(json: &str) -> (r: Option<String>)
    ensures
        opt_text(r) == peek_type(parsed_text_of(json)),
{
    match parse_text(json) {
        Some(v) => string_member(&v, "@type"),
        None => None,
    }
}

/// The discriminator and the correlation id of a text, without decoding the
/// rest.
pub fn detect_td_type_and_extra(json: &str) -> (r: (Option<String>, Option<String>))
    ensures
        opt_text(r.0) == peek_type(parsed_text_of(json)),
        opt_text(r.1) == peek_extra(parsed_text_of(json)),
{
    match parse_text(json) {
        Some(v) => (string_member(&v, "@type"), string_member(&v, "@extra")),
        None => (None, None),
    }
}

/// What serde_json parses from a text.
pub open spec fn parsed_text_of(json: &str) -> Option<JsonModel> {
    crate::json::parsed_text(json@)
}

/// The discriminator of an object: its shape in the table, or why there is
/// none.
pub(crate) fn read_tag(v: &Value) -> (r: RTDResult<Tag>)
    ensures
        match value_model(*v) {
            JsonModel::Obj(o) => if !(o.contains_key("@type"@) && o["@type"@] is Str) {
                r is Err && r->Err_0@ == ErrorModel::MissingDiscriminator
            } else {
                match tag_named(o["@type"@]->Str_0) {
                    Some(t) => r == Ok::<Tag, RTDError>(t),
                    None => r is Err && r->Err_0@ == ErrorModel::UnknownDiscriminator(
                        o["@type"@]->Str_0,
                    ),
                }
            },
            _ => r is Err && r->Err_0@ == ErrorModel::NotAnObject,
        },
{
    if !v.is_object() {
        return Err(RTDError::NotAnObject);
    }
    match member(v, "@type") {
        Some(x) => match x.as_str() {
            Some(s) => match lookup_tag(s) {
                Some(t) => Ok(t),
                None => Err(RTDError::UnknownDiscriminator(String::from_str(s))),
            },
            None => Err(RTDError::MissingDiscriminator),
        },
        None => Err(RTDError::MissingDiscriminator),
    }
}

/// The failure for a discriminator outside the requested union.
pub(crate) fn unknown(t: Tag) -> (r: RTDError)
    ensures
        r@ == ErrorModel::UnknownDiscriminator(tag_name(t)),
{
    RTDError::UnknownDiscriminator(String::from_str(t.name()))
}

/// The failure for a declared field.
fn field_err(t: Tag, key: &str, p: FieldProblem) -> (r: RTDError)
    ensures
        r@ == field_error(tag_name(t), key@, p),
{
    RTDError::FieldSchema {
        tag: String::from_str(t.name()),
        field: String::from_str(key),
        problem: p,
    }
}

/// The failure for a declared field that holds a value of another kind.
fn wrong_type(t: Tag, key: &str, expected: FieldKind, x: &Value) -> (r: RTDError)
    ensures
        r@ == field_error(
            tag_name(t),
            key@,
            FieldProblem::WrongType { expected, found: kind_of(value_model(*x)) },
        ),
{
    field_err(t, key, FieldProblem::WrongType { expected, found: json_kind(x) })
}

/// The correlation id of an object of shape `t`.
pub(crate) fn read_extra(v: &Value, t: Tag) -> (r: RTDResult<Option<String>>)
    requires
        value_model(*v) is Obj,
    ensures
        match decode_extra(tag_name(t), value_model(*v)->Obj_0) {
            Ok(x) => r is Ok && opt_text(r->Ok_0) == x,
            Err(e) => r is Err && r->Err_0@ == e,
        },
{
    match member(v, "@extra") {
        None => Ok(None),
        Some(x) => {
            if x.is_null() {
                Ok(None)
            } else {
                match x.as_str() {
                    Some(s) => Ok(Some(String::from_str(s))),
                    None => Err(wrong_type(t, "@extra", FieldKind::Text, x)),
                }
            }
        },
    }
}

/// Reads a 32-bit integer field.
pub(crate) fn read_i32(v: &Value, t: Tag, key: &str) -> (r: RTDResult<i32>)
    requires
        value_model(*v) is Obj,
    ensures
        agrees(
            r,
            decode_field(value_model(*v), tag_name(t), key@, FieldKind::Int32),
            |x: i32| FieldModel::I32(x),
        ),
{
    match member(v, key) {
        None => Err(field_err(t, key, FieldProblem::Missing)),
        Some(x) => match x.as_i64() {
            Some(n) => if i32::MIN as i64 <= n && n <= i32::MAX as i64 {
                Ok(n as i32)
            } else {
                Err(wrong_type(t, key, FieldKind::Int32, x))
            },
            None => Err(wrong_type(t, key, FieldKind::Int32, x)),
        },
    }
}

/// Reads a 64-bit integer field.
pub(crate) fn read_i64(v: &Value, t: Tag, key: &str) -> (r: RTDResult<i64>)
    requires
        value_model(*v) is Obj,
    ensures
        agrees(
            r,
            decode_field(value_model(*v), tag_name(t), key@, FieldKind::Int64),
            |x: i64| FieldModel::I64(x),
        ),
{
    match member(v, key) {
        None => Err(field_err(t, key, FieldProblem::Missing)),
        Some(x) => match x.as_i64() {
            Some(n) => Ok(n),
            None => Err(wrong_type(t, key, FieldKind::Int64, x)),
        },
    }
}

/// Reads a boolean field.
pub(crate) fn read_bool(v: &Value, t: Tag, key: &str) -> (r: RTDResult<bool>)
    requires
        value_model(*v) is Obj,
    ensures
        agrees(
            r,
            decode_field(value_model(*v), tag_name(t), key@, FieldKind::Boolean),
            |x: bool| FieldModel::Bool(x),
        ),
{
    match member(v, key) {
        None => Err(field_err(t, key, FieldProblem::Missing)),
        Some(x) => match x.as_bool() {
            Some(b) => Ok(b),
            None => Err(wrong_type(t, key, FieldKind::Boolean, x)),
        },
    }
}

/// Reads a string field.
pub(crate) fn read_text(v: &Value, t: Tag, key: &str) -> (r: RTDResult<String>)
    requires
        value_model(*v) is Obj,
    ensures
        agrees(
            r,
            decode_field(value_model(*v), tag_name(t), key@, FieldKind::Text),
            |x: String| FieldModel::Text(x@),
        ),
{
    match member(v, key) {
        None => Err(field_err(t, key, FieldProblem::Missing)),
        Some(x) => match x.as_str() {
            Some(s) => Ok(String::from_str(s)),
            None => Err(wrong_type(t, key, FieldKind::Text, x)),
        },
    }
}

/// Reads a field that is an array of 32-bit integers.
pub(crate) fn read_ints(v: &Value, t: Tag, key: &str) -> (r: RTDResult<Vec<i32>>)
    requires
        value_model(*v) is Obj,
    ensures
        agrees(
            r,
            decode_field(value_model(*v), tag_name(t), key@, FieldKind::Int32List),
            |x: Vec<i32>| FieldModel::Ints(x@),
        ),
{
    match member(v, key) {
        None => Err(field_err(t, key, FieldProblem::Missing)),
        Some(x) => match x.as_array() {
            None => Err(wrong_type(t, key, FieldKind::Int32List, x)),
            Some(items) => {
                let ghost model = value_model(*x)->Arr_0;
                let mut out: Vec<i32> = Vec::new();
                let mut i: usize = 0;
                while i < items.len()
                    invariant
                        value_model(*v) is Obj,
                        value_model(*v)->Obj_0.contains_key(key@),
                        value_model(*x) == value_model(*v)->Obj_0[key@],
                        model == value_model(*x)->Arr_0,
                        i <= items@.len(),
                        items@.len() == model.len(),
                        forall|j: int|
                            0 <= j < items@.len() ==> #[trigger] value_model(items@[j])
                                == model[j],
                        forall|j: int|
                            0 <= j < i ==> #[trigger] model[j] is Int && in_i32(model[j]->Int_0),
                        out@ =~= Seq::new(i as nat, |j: int| model[j]->Int_0 as i32),
                    decreases items@.len() - i,
                {
                    let item = &items[i];
                    assert(value_model(items@[i as int]) == model[i as int]);
                    match item.as_i64() {
                        Some(n) => {
                            if i32::MIN as i64 <= n && n <= i32::MAX as i64 {
                                out.push(n as i32);
                            } else {
                                assert(!(model[i as int] is Int && in_i32(model[i as int]->Int_0)));
                                return Err(wrong_type(t, key, FieldKind::Int32List, x));
                            }
                        },
                        None => {
                            assert(!(model[i as int] is Int && in_i32(model[i as int]->Int_0)));
                            return Err(wrong_type(t, key, FieldKind::Int32List, x));
                        },
                    }
                    i = i + 1;
                }
                Ok(out)
            },
        },
    }
}

/// Reads a field that is a nested object.
pub(crate) fn read_object(v: &Value, t: Tag, key: &str) -> (r: RTDResult<JsonObject>)
    requires
        value_model(*v) is Obj,
    ensures
        agrees(
            r,
            decode_field(value_model(*v), tag_name(t), key@, FieldKind::Object),
            |x: JsonObject| FieldModel::Object(x@),
        ),
{
    match member(v, key) {
        None => Err(field_err(t, key, FieldProblem::Missing)),
        Some(x) => match JsonObject::from_ref(x) {
            Some(o) => Ok(o),
            None => Err(wrong_type(t, key, FieldKind::Object, x)),
        },
    }
}

/// Reads a field that is a nested object or null; a missing one is null.
pub(crate) fn read_opt_object(v: &Value, t: Tag, key: &str) -> (r: RTDResult<Option<JsonObject>>)
    requires
        value_model(*v) is Obj,
    ensures
        agrees(
            r,
            decode_field(value_model(*v), tag_name(t), key@, FieldKind::OptObject),
            |x: Option<JsonObject>| FieldModel::OptObject(opt_object(x)),
        ),
{
    match member(v, key) {
        None => Ok(None),
        Some(x) => if x.is_null() {
            Ok(None)
        } else {
            match JsonObject::from_ref(x) {
                Some(o) => Ok(Some(o)),
                None => Err(wrong_type(t, key, FieldKind::OptObject, x)),
            }
        },
    }
}

/// Reads a field that is an array of nested objects.
pub(crate) fn read_objects(v: &Value, t: Tag, key: &str) -> (r: RTDResult<Vec<JsonObject>>)
    requires
        value_model(*v) is Obj,
    ensures
        agrees(
            r,
            decode_field(value_model(*v), tag_name(t), key@, FieldKind::ObjectList),
            |x: Vec<JsonObject>| FieldModel::Objects(objects_model(x@)),
        ),
{
    match member(v, key) {
        None => Err(field_err(t, key, FieldProblem::Missing)),
        Some(x) => match x.as_array() {
            None => Err(wrong_type(t, key, FieldKind::ObjectList, x)),
            Some(items) => {
                let ghost model = value_model(*x)->Arr_0;
                let mut out: Vec<JsonObject> = Vec::new();
                let mut i: usize = 0;
                while i < items.len()
                    invariant
                        value_model(*v) is Obj,
                        value_model(*v)->Obj_0.contains_key(key@),
                        value_model(*x) == value_model(*v)->Obj_0[key@],
                        model == value_model(*x)->Arr_0,
                        i <= items@.len(),
                        items@.len() == model.len(),
                        forall|j: int|
                            0 <= j < items@.len() ==> #[trigger] value_model(items@[j])
                                == model[j],
                        forall|j: int| 0 <= j < i ==> #[trigger] model[j] is Obj,
                        out@.len() == i,
                        forall|j: int| 0 <= j < i ==> #[trigger] out@[j]@ == model[j]->Obj_0,
                    decreases items@.len() - i,
                {
                    assert(value_model(items@[i as int]) == model[i as int]);
                    match JsonObject::from_ref(&items[i]) {
                        Some(o) => out.push(o),
                        None => {
                            assert(!(model[i as int] is Obj));
                            return Err(wrong_type(t, key, FieldKind::ObjectList, x));
                        },
                    }
                    i = i + 1;
                }
                assert(objects_model(out@) =~= Seq::new(model.len(), |j: int| model[j]->Obj_0));
                Ok(out)
            },
        },
    }
}

/// Reads a field that is a nested record of the type `T`.
pub(crate) fn read_nested<T: RObject>(v: &Value, t: Tag, key: &str, c: Category) -> (r: RTDResult<
    T,
>)
    requires
        value_model(*v) is Obj,
        T::accepted() == members(c),
    ensures
        agrees(
            r,
            decode_field(value_model(*v), tag_name(t), key@, FieldKind::Category(c)),
            |x: T| FieldModel::Nested(x@),
        ),
{
    match member(v, key) {
        None => Err(field_err(t, key, FieldProblem::Missing)),
        Some(x) => if x.is_object() {
            T::from_value(x)
        } else {
            Err(wrong_type(t, key, FieldKind::Category(c), x))
        },
    }
}

/// An object holding the discriminator of `t` and the correlation id.
pub(crate) fn write_header(t: Tag, extra: &Option<String>) -> (r: Value)
    ensures
        value_model(r) == JsonModel::Obj(header_of(t, opt_text(*extra))),
{
    let mut v = empty_object();
    insert_member(&mut v, String::from_str("@type"), string_value(String::from_str(t.name())));
    match extra {
        Some(e) => insert_member(&mut v, String::from_str("@extra"), string_value(e.clone())),
        None => {},
    }
    v
}

/// Adds a member to an object.
pub(crate) fn put(v: &mut Value, key: &str, item: Value)
    requires
        value_model(*old(v)) is Obj,
    ensures
        value_model(*final(v)) == JsonModel::Obj(
            value_model(*old(v))->Obj_0.insert(key@, value_model(item)),
        ),
{
    insert_member(v, String::from_str(key), item);
}

/// The JSON value of a 32-bit integer field.
pub(crate) fn i32_json(n: i32) -> (r: Value)
    ensures
        value_model(r) == encode_field(FieldModel::I32(n)),
{
    int_value(n as i64)
}

/// The JSON value of a 64-bit integer field.
pub(crate) fn i64_json(n: i64) -> (r: Value)
    ensures
        value_model(r) == encode_field(FieldModel::I64(n)),
{
    int_value(n)
}

/// The JSON value of a boolean field.
pub(crate) fn bool_json(b: bool) -> (r: Value)
    ensures
        value_model(r) == encode_field(FieldModel::Bool(b)),
{
    bool_value(b)
}

/// The JSON value of a string field.
pub(crate) fn text_json(s: &String) -> (r: Value)
    ensures
        value_model(r) == encode_field(FieldModel::Text(s@)),
{
    string_value(s.clone())
}

/// The JSON value of an integer-array field.
pub(crate) fn ints_json(xs: &Vec<i32>) -> (r: Value)
    ensures
        value_model(r) == encode_field(FieldModel::Ints(xs@)),
{
    let mut out: Vec<Value> = Vec::new();
    let mut i: usize = 0;
    while i < xs.len()
        invariant
            i <= xs@.len(),
            out@.len() == i,
            forall|j: int|
                0 <= j < i ==> #[trigger] value_model(out@[j]) == JsonModel::Int(xs@[j] as int),
        decreases xs@.len() - i,
    {
        out.push(int_value(xs[i] as i64));
        i = i + 1;
    }
    assert(values_model(out@) =~= xs@.map_values(|x: i32| JsonModel::Int(x as int)));
    array_value(out)
}

/// The JSON value of a nested-object field.
pub(crate) fn object_json(x: &JsonObject) -> (r: Value)
    ensures
        value_model(r) == encode_field(FieldModel::Object(x@)),
{
    x.as_value().clone()
}

/// The JSON value of an optional nested-object field: null where absent.
pub(crate) fn opt_object_json(x: &Option<JsonObject>) -> (r: Value)
    ensures
        value_model(r) == encode_field(FieldModel::OptObject(opt_object(*x))),
{
    match x {
        Some(o) => o.as_value().clone(),
        None => null_value(),
    }
}

/// A copy of a sequence of objects.
pub(crate) fn copy_objects(xs: &Vec<JsonObject>) -> (r: Vec<JsonObject>)
    ensures
        objects_model(r@) == objects_model(xs@),
{
    let mut out: Vec<JsonObject> = Vec::new();
    let mut i: usize = 0;
    while i < xs.len()
        invariant
            i <= xs@.len(),
            out@.len() == i,
            forall|j: int| 0 <= j < i ==> #[trigger] out@[j]@ == xs@[j]@,
        decreases xs@.len() - i,
    {
        out.push(xs[i].copied());
        i = i + 1;
    }
    assert(objects_model(out@) =~= objects_model(xs@));
    out
}

/// The JSON value of an object-array field.
pub(crate) fn objects_json(xs: &Vec<JsonObject>) -> (r: Value)
    ensures
        value_model(r) == encode_field(FieldModel::Objects(objects_model(xs@))),
{
    let mut out: Vec<Value> = Vec::new();
    let mut i: usize = 0;
    while i < xs.len()
        invariant
            i <= xs@.len(),
            out@.len() == i,
            forall|j: int|
                0 <= j < i ==> #[trigger] value_model(out@[j]) == JsonModel::Obj(xs@[j]@),
        decreases xs@.len() - i,
    {
        out.push(xs[i].as_value().clone());
        i = i + 1;
    }
    assert(values_model(out@) =~= objects_model(xs@).map_values(
        |x: Map<Seq<char>, JsonModel>| JsonModel::Obj(x),
    ));
    array_value(out)
}

/// A copy of an optional object.
pub(crate) fn copy_opt_object(x: &Option<JsonObject>) -> (r: Option<JsonObject>)
    ensures
        opt_object(r) == opt_object(*x),
{
    match x {
        Some(o) => Some(o.copied()),
        None => None,
    }
}

/// A copy of an optional string.
pub(crate) fn copy_opt_text(x: &Option<String>) -> (r: Option<String>)
    ensures
        opt_text(r) == opt_text(*x),
{
    match x {
        Some(s) => Some(s.clone()),
        None => None,
    }
}

/// A copy of an integer array.
pub(crate) fn copy_ints(xs: &Vec<i32>) -> (r: Vec<i32>)
    ensures
        r@ == xs@,
{
    let mut out: Vec<i32> = Vec::new();
    let mut i: usize = 0;
    while i < xs.len()
        invariant
            i <= xs@.len(),
            out@ =~= xs@.take(i as int),
        decreases xs@.len() - i,
    {
        out.push(xs[i]);
        i = i + 1;
    }
    assert(xs@.take(xs@.len() as int) =~= xs@);
    out
}

} // verus!
