//! The `notification` record.
use crate::codec::{
    copy_opt_text, from_json, i32_json, object_json, opt_text, outcome, put, read_extra, read_i32,
    read_object, read_tag, unknown, write_header, RObject,
};
use crate::errors::RTDResult;
use crate::json::{value_model, JsonObject};
use crate::model::{
    decode_members, decode_text, default_record, encode_field, encode_members, header, header_of,
    with_field, FieldModel, RecordModel,
};
use crate::schema::{fields_of, tag_name, Tag};
use serde_json::Value;
use vstd::prelude::*;
use vstd::string::*;

verus! {

/// Contains information about a notification.
#[derive(Debug, Clone)]
pub struct Notification {
    /// Unique persistent identifier of this notification.
    id: i32,
    /// Notification date.
    date: i32,
    /// Notification type.
    type_: JsonObject,
    /// Correlation id: set on a request, echoed on its result.
    extra: Option<String>,
}

impl View for Notification {
    type V = RecordModel;

    closed spec fn view(&self) -> RecordModel {
        RecordModel {
            tag: Tag::Notification,
            extra: opt_text(self.extra),
            fields: seq![
                FieldModel::I32(self.id),
                FieldModel::I32(self.date),
                FieldModel::Object(self.type_@),
            ],
        }
    }
}

impl RObject for Notification {
    open spec fn accepted() -> Set<Tag> {
        set![Tag::Notification]
    }

    proof fn lemma_view_wf(&self) {
    }

    fn td_name(&self) -> (r: &'static str) {
        Tag::Notification.name()
    }

    fn extra(&self) -> (r: Option<String>) {
        copy_opt_text(&self.extra)
    }

    fn to_value(&self) -> (r: Value) {
        let mut v = write_header(Tag::Notification, &self.extra);
        put(&mut v, "id", i32_json(self.id));
        put(&mut v, "date", i32_json(self.date));
        put(&mut v, "type", object_json(&self.type_));
        proof {
            reveal_with_fuel(encode_members, 4);
            assert(self@.fields[0] == FieldModel::I32(self.id));
            assert(fields_of(Tag::Notification)[0].0 == "id"@);
            assert(self@.fields[1] == FieldModel::I32(self.date));
            assert(fields_of(Tag::Notification)[1].0 == "date"@);
            assert(self@.fields[2] == FieldModel::Object(self.type_@));
            assert(fields_of(Tag::Notification)[2].0 == "type"@);
            assert(self@.fields.len() == 3);
            assert(encode_members(self@, 3) == header(self@)
                .insert("id"@, encode_field(FieldModel::I32(self.id)))
                .insert("date"@, encode_field(FieldModel::I32(self.date)))
                .insert("type"@, encode_field(FieldModel::Object(self.type_@))));
            assert(header(self@) == header_of(Tag::Notification, opt_text(self.extra)));
        }
        v
    }

    fn from_value(v: &Value) -> (r: RTDResult<Self>) {
        let t = match read_tag(v) {
            Ok(t) => t,
            Err(e) => return Err(e),
        };
        if t != Tag::Notification {
            return Err(unknown(t));
        }
        let extra = match read_extra(v, t) {
            Ok(x) => x,
            Err(e) => return Err(e),
        };
        Self::read_fields(v, extra)
    }

    fn copied(&self) -> (r: Self) {
        Notification {
            id: self.id,
            date: self.date,
            type_: self.type_.copied(),
            extra: copy_opt_text(&self.extra),
        }
    }
}

impl Notification {
    /// Reads the declared fields of an object of this shape.
    pub(crate) fn read_fields(v: &Value, extra: Option<String>) -> (r: RTDResult<Self>)
        requires
            value_model(*v) is Obj,
        ensures
            match decode_members(
                value_model(*v),
                tag_name(Tag::Notification),
                Tag::Notification,
                3,
            ) {
                Ok(fs) => r is Ok && r->Ok_0@ == (
                    RecordModel { tag: Tag::Notification, extra: opt_text(extra), fields: fs }
                ),
                Err(e) => r is Err && r->Err_0@ == e,
            },
    {
        proof {
            reveal_with_fuel(decode_members, 4);
        }
        let id = match read_i32(v, Tag::Notification, "id") {
            Ok(x) => x,
            Err(e) => return Err(e),
        };
        let date = match read_i32(v, Tag::Notification, "date") {
            Ok(x) => x,
            Err(e) => return Err(e),
        };
        let type_ = match read_object(v, Tag::Notification, "type") {
            Ok(x) => x,
            Err(e) => return Err(e),
        };
        let r = Notification { id, date, type_, extra };
        proof {
            assert(Seq::<FieldModel>::empty()
                .push(FieldModel::I32(r.id))
                .push(FieldModel::I32(r.date))
                .push(FieldModel::Object(r.type_@)) =~= r@.fields);
        }
        Ok(r)
    }

    /// Decodes a text as this record.
    pub fn from_json(json: &str) -> (r: RTDResult<Self>)
        ensures
            outcome(r) == decode_text(json@, set![Tag::Notification]),
    {
        from_json::<Self>(json)
    }

    /// A builder holding this shape with every field at its zero value.
    pub fn builder() -> (r: RTDNotificationBuilder)
        ensures
            r@ == default_record(Tag::Notification),
    {
        let inner = Notification { id: 0, date: 0, type_: JsonObject::empty(), extra: None };
        proof {
            assert(inner@.fields =~= default_record(Tag::Notification).fields);
        }
        RTDNotificationBuilder { inner }
    }

    /// Unique persistent identifier of this notification.
    pub fn id(&self) -> (r: i32)
        ensures
            self@.fields[0] == FieldModel::I32(r),
    {
        self.id
    }

    /// Notification date.
    pub fn date(&self) -> (r: i32)
        ensures
            self@.fields[1] == FieldModel::I32(r),
    {
        self.date
    }

    /// Notification type.
    pub fn type_(&self) -> (r: &JsonObject)
        ensures
            self@.fields[2] == FieldModel::Object(r@),
    {
        &self.type_
    }
}

/// Fluent constructor of [`Notification`].
pub struct RTDNotificationBuilder {
    inner: Notification,
}

impl View for RTDNotificationBuilder {
    type V = RecordModel;

    closed spec fn view(&self) -> RecordModel {
        self.inner@
    }
}

impl RTDNotificationBuilder {
    /// An immutable copy of what has been set so far.
    pub fn build(&self) -> (r: Notification)
        ensures
            r@ == self@,
    {
        self.inner.copied()
    }

    /// Sets the correlation id.
    pub fn extra(&mut self, extra: &str) -> (r: &mut Self)
        ensures
            (*r)@ == (RecordModel { extra: Some(extra@), ..old(self)@ }),
            *final(self) == *final(r),
    {
        self.inner.extra = Some(String::from_str(extra));
        self
    }

    /// Sets: unique persistent identifier of this notification.
    pub fn id(&mut self, id: i32) -> (r: &mut Self)
        ensures
            (*r)@ == with_field(old(self)@, 0, FieldModel::I32(id)),
            *final(self) == *final(r),
    {
        let ghost before = self@;
        self.inner.id = id;
        proof {
            assert(self@.fields =~= with_field(before, 0, FieldModel::I32(id)).fields);
        }
        self
    }

    /// Sets: notification date.
    pub fn date(&mut self, date: i32) -> (r: &mut Self)
        ensures
            (*r)@ == with_field(old(self)@, 1, FieldModel::I32(date)),
            *final(self) == *final(r),
    {
        let ghost before = self@;
        self.inner.date = date;
        proof {
            assert(self@.fields =~= with_field(before, 1, FieldModel::I32(date)).fields);
        }
        self
    }

    /// Sets: notification type.
    pub fn type_(&mut self, type_: JsonObject) -> (r: &mut Self)
        ensures
            (*r)@ == with_field(old(self)@, 2, FieldModel::Object(type_@)),
            *final(self) == *final(r),
    {
        let ghost before = self@;
        self.inner.type_ = type_;
        proof {
            assert(self@.fields =~= with_field(before, 2, FieldModel::Object(type_@)).fields);
        }
        self
    }
}

} // verus!
