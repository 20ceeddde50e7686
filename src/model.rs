//! The codec as mathematics: what a decoded record is, how an object decodes
//! against the schema table, and how a record encodes.
use crate::errors::{ErrorModel, FieldProblem};
use crate::json::{kind_of, parsed_text, JsonModel};
use crate::schema::{
    category_of, default_member, fields_of, members, tag_name, tag_named, FieldKind, Tag,
};
use vstd::prelude::*;

verus! {

/// The value of one declared field.
pub enum FieldModel {
    I32(i32),
    I64(i64),
    Bool(bool),
    Text(Seq<char>),
    Ints(Seq<i32>),
    Object(Map<Seq<char>, JsonModel>),
    Objects(Seq<Map<Seq<char>, JsonModel>>),
    OptObject(Option<Map<Seq<char>, JsonModel>>),
    Nested(RecordModel),
}

/// A decoded record: its shape, its correlation id, and its declared
/// fields in the order of the schema table.
pub struct RecordModel {
    pub tag: Tag,
    pub extra: Option<Seq<char>>,
    pub fields: Seq<FieldModel>,
}

pub open spec fn in_i32(n: int) -> bool {
    i32::MIN <= n <= i32::MAX
}

pub open spec fn in_i64(n: int) -> bool {
    i64::MIN <= n <= i64::MAX
}

pub open spec fn field_error(s: Seq<char>, key: Seq<char>, p: FieldProblem) -> ErrorModel {
    ErrorModel::FieldSchema(s, key, p)
}

/// The correlation id of an object whose discriminator is `s`: absent or
/// null gives none; a string gives itself.
pub open spec fn decode_extra(s: Seq<char>, o: Map<Seq<char>, JsonModel>) -> Result<
    Option<Seq<char>>,
    ErrorModel,
> {
    if !o.contains_key("@extra"@) {
        Ok(None)
    } else {
        match o["@extra"@] {
            JsonModel::Null => Ok(None),
            JsonModel::Str(e) => Ok(Some(e)),
            _ => Err(
                field_error(
                    s,
                    "@extra"@,
                    FieldProblem::WrongType {
                        expected: FieldKind::Text,
                        found: kind_of(o["@extra"@]),
                    },
                ),
            ),
        }
    }
}

/// Decodes a text: the parse failure, or the decode of what was parsed.
pub open spec fn decode_text(s: Seq<char>, allowed: Set<Tag>) -> Result<RecordModel, ErrorModel> {
    match parsed_text(s) {
        Some(m) => decode_in(m, allowed),
        None => Err(ErrorModel::Parse),
    }
}

/// Decodes a JSON object as one of the shapes in `allowed`.
pub open spec fn decode_in(m: JsonModel, allowed: Set<Tag>) -> Result<RecordModel, ErrorModel>
    decreases m, 2nat, 0nat,
{
    match m {
        JsonModel::Obj(o) => {
            if !(o.contains_key("@type"@) && o["@type"@] is Str) {
                Err(ErrorModel::MissingDiscriminator)
            } else {
                let s = o["@type"@]->Str_0;
                match tag_named(s) {
                    Some(t) => if allowed.contains(t) {
                        match decode_extra(s, o) {
                            Ok(extra) => match decode_members(m, s, t, fields_of(t).len()) {
                                Ok(fs) => Ok(RecordModel { tag: t, extra, fields: fs }),
                                Err(e) => Err(e),
                            },
                            Err(e) => Err(e),
                        }
                    } else {
                        Err(ErrorModel::UnknownDiscriminator(s))
                    },
                    None => Err(ErrorModel::UnknownDiscriminator(s)),
                }
            }
        },
        _ => Err(ErrorModel::NotAnObject),
    }
}

/// Decodes the first `n` declared fields of shape `t`, reporting the first
/// field that fails, in the order of the table.
pub open spec fn decode_members(m: JsonModel, s: Seq<char>, t: Tag, n: nat) -> Result<
    Seq<FieldModel>,
    ErrorModel,
>
    decreases m, 1nat, n,
{
    if n == 0 || n > fields_of(t).len() {
        Ok(seq![])
    } else {
        match decode_members(m, s, t, (n - 1) as nat) {
            Ok(prefix) => match decode_field(m, s, fields_of(t)[n - 1].0, fields_of(t)[n - 1].1) {
                Ok(f) => Ok(prefix.push(f)),
                Err(e) => Err(e),
            },
            Err(e) => Err(e),
        }
    }
}

/// Decodes the member `key` of object `m` as a field of type `kind`.
pub open spec fn decode_field(
    m: JsonModel,
    s: Seq<char>,
    key: Seq<char>,
    kind: FieldKind,
) -> Result<FieldModel, ErrorModel>
    decreases m, 0nat, 0nat,
{
    match m {
        JsonModel::Obj(o) => {
            if !o.contains_key(key) {
                match kind {
                    FieldKind::OptObject => Ok(FieldModel::OptObject(None)),
                    _ => Err(field_error(s, key, FieldProblem::Missing)),
                }
            } else {
                let v = o[key];
                let problem = FieldProblem::WrongType { expected: kind, found: kind_of(v) };
                let wrong = Err(field_error(s, key, problem));
                match kind {
                    FieldKind::Int32 => match v {
                        JsonModel::Int(n) => if in_i32(n) {
                            Ok(FieldModel::I32(n as i32))
                        } else {
                            wrong
                        },
                        _ => wrong,
                    },
                    FieldKind::Int64 => match v {
                        JsonModel::Int(n) => if in_i64(n) {
                            Ok(FieldModel::I64(n as i64))
                        } else {
                            wrong
                        },
                        _ => wrong,
                    },
                    FieldKind::Boolean => match v {
                        JsonModel::Bool(b) => Ok(FieldModel::Bool(b)),
                        _ => wrong,
                    },
                    FieldKind::Text => match v {
                        JsonModel::Str(x) => Ok(FieldModel::Text(x)),
                        _ => wrong,
                    },
                    FieldKind::Int32List => match v {
                        JsonModel::Arr(items) => if forall|i: int|
                            0 <= i < items.len() ==> #[trigger] items[i] is Int && in_i32(
                                items[i]->Int_0,
                            ) {
                            Ok(
                                FieldModel::Ints(
                                    Seq::new(items.len(), |i: int| items[i]->Int_0 as i32),
                                ),
                            )
                        } else {
                            wrong
                        },
                        _ => wrong,
                    },
                    FieldKind::Object => match v {
                        JsonModel::Obj(members) => Ok(FieldModel::Object(members)),
                        _ => wrong,
                    },
                    FieldKind::ObjectList => match v {
                        JsonModel::Arr(items) => if forall|i: int|
                            0 <= i < items.len() ==> #[trigger] items[i] is Obj {
                            Ok(
                                FieldModel::Objects(
                                    Seq::new(items.len(), |i: int| items[i]->Obj_0),
                                ),
                            )
                        } else {
                            wrong
                        },
                        _ => wrong,
                    },
                    FieldKind::OptObject => match v {
                        JsonModel::Null => Ok(FieldModel::OptObject(None)),
                        JsonModel::Obj(members) => Ok(FieldModel::OptObject(Some(members))),
                        _ => wrong,
                    },
                    FieldKind::Category(c) => match v {
                        JsonModel::Obj(_) => match decode_in(v, members(c)) {
                            Ok(r) => Ok(FieldModel::Nested(r)),
                            Err(e) => Err(e),
                        },
                        _ => wrong,
                    },
                }
            }
        },
        _ => Err(ErrorModel::NotAnObject),
    }
}

/// The object that a record encodes to, before its declared fields.
pub open spec fn header(r: RecordModel) -> Map<Seq<char>, JsonModel> {
    header_of(r.tag, r.extra)
}

/// The discriminator and, where there is one, the correlation id.
pub open spec fn header_of(t: Tag, extra: Option<Seq<char>>) -> Map<Seq<char>, JsonModel> {
    let base = Map::empty().insert("@type"@, JsonModel::Str(tag_name(t)));
    match extra {
        Some(e) => base.insert("@extra"@, JsonModel::Str(e)),
        None => base,
    }
}

/// Encodes a record: the discriminator, the correlation id where there is
/// one, and every declared field.
pub open spec fn encode_record(r: RecordModel) -> JsonModel
    decreases r, 2nat, 0nat,
{
    JsonModel::Obj(encode_members(r, r.fields.len()))
}

/// The header with the first `n` declared fields added.
pub open spec fn encode_members(r: RecordModel, n: nat) -> Map<Seq<char>, JsonModel>
    decreases r, 1nat, n,
{
    if n == 0 || n > r.fields.len() {
        header(r)
    } else {
        encode_members(r, (n - 1) as nat).insert(
            fields_of(r.tag)[n - 1].0,
            encode_field(r.fields[n - 1]),
        )
    }
}

/// The JSON value of one field.
pub open spec fn encode_field(f: FieldModel) -> JsonModel
    decreases f, 0nat, 0nat,
{
    match f {
        FieldModel::I32(n) => JsonModel::Int(n as int),
        FieldModel::I64(n) => JsonModel::Int(n as int),
        FieldModel::Bool(b) => JsonModel::Bool(b),
        FieldModel::Text(x) => JsonModel::Str(x),
        FieldModel::Ints(xs) => JsonModel::Arr(xs.map_values(|x: i32| JsonModel::Int(x as int))),
        FieldModel::Object(members) => JsonModel::Obj(members),
        FieldModel::Objects(ms) => JsonModel::Arr(
            ms.map_values(|x: Map<Seq<char>, JsonModel>| JsonModel::Obj(x)),
        ),
        FieldModel::OptObject(None) => JsonModel::Null,
        FieldModel::OptObject(Some(members)) => JsonModel::Obj(members),
        FieldModel::Nested(c) => encode_record(c),
    }
}

/// A field value has its declared type.
pub open spec fn field_conforms(f: FieldModel, kind: FieldKind) -> bool
    decreases f, 0nat,
{
    match kind {
        FieldKind::Int32 => f is I32,
        FieldKind::Int64 => f is I64,
        FieldKind::Boolean => f is Bool,
        FieldKind::Text => f is Text,
        FieldKind::Int32List => f is Ints,
        FieldKind::Object => f is Object,
        FieldKind::ObjectList => f is Objects,
        FieldKind::OptObject => f is OptObject,
        FieldKind::Category(c) => match f {
            FieldModel::Nested(r) => category_of(r.tag) == Some(c) && wf_record(r),
            _ => false,
        },
    }
}

/// A record holds one value of the declared type for each declared field,
/// down through its nested records.
pub open spec fn wf_record(r: RecordModel) -> bool
    decreases r, 1nat,
{
    &&& r.fields.len() == fields_of(r.tag).len()
    &&& forall|i: int|
        0 <= i < r.fields.len() ==> field_conforms(#[trigger] r.fields[i], fields_of(r.tag)[i].1)
}

/// The zero value of a field type; a category's is its default member with
/// no correlation id.
pub open spec fn default_field(kind: FieldKind) -> FieldModel {
    match kind {
        FieldKind::Int32 => FieldModel::I32(0),
        FieldKind::Int64 => FieldModel::I64(0),
        FieldKind::Boolean => FieldModel::Bool(false),
        FieldKind::Text => FieldModel::Text(Seq::empty()),
        FieldKind::Int32List => FieldModel::Ints(Seq::empty()),
        FieldKind::Object => FieldModel::Object(Map::empty()),
        FieldKind::ObjectList => FieldModel::Objects(Seq::empty()),
        FieldKind::OptObject => FieldModel::OptObject(None),
        FieldKind::Category(c) => FieldModel::Nested(
            RecordModel { tag: default_member(c), extra: None, fields: Seq::empty() },
        ),
    }
}

/// The record of shape `t` with every field at its zero value.
pub open spec fn default_record(t: Tag) -> RecordModel {
    RecordModel {
        tag: t,
        extra: None,
        fields: Seq::new(fields_of(t).len(), |i: int| default_field(fields_of(t)[i].1)),
    }
}

/// The record with field `i` replaced.
pub open spec fn with_field(r: RecordModel, i: int, f: FieldModel) -> RecordModel {
    RecordModel { fields: r.fields.update(i, f), ..r }
}

} // verus!
