//! The `pushReceiverId` record.
use crate::codec::{
    copy_opt_text, from_json, i64_json, opt_text, outcome, put, read_extra, read_i64, read_tag,
    unknown, write_header, RObject,
};
use crate::errors::RTDResult;
use crate::json::value_model;
use crate::model::{
    decode_members, decode_text, default_record, encode_field, encode_members, header, header_of,
    with_field, FieldModel, RecordModel,
};
use crate::schema::{fields_of, tag_name, Tag};
use serde_json::Value;
use vstd::prelude::*;
use vstd::string::*;

verus! {

/// Contains a globally unique push receiver identifier, which can be used to identify which account
/// has received a push notification.
#[derive(Debug, Clone)]
pub struct PushReceiverId {
    /// The globally unique identifier of push notification subscription.
    id: i64,
    /// Correlation id: set on a request, echoed on its result.
    extra: Option<String>,
}

impl View for PushReceiverId {
    type V = RecordModel;

    closed spec fn view(&self) -> RecordModel {
        RecordModel {
            tag: Tag::PushReceiverId,
            extra: opt_text(self.extra),
            fields: seq![FieldModel::I64(self.id)],
        }
    }
}

impl RObject for PushReceiverId {
    open spec fn accepted() -> Set<Tag> {
        set![Tag::PushReceiverId]
    }

    proof fn lemma_view_wf(&self) {
    }

    fn td_name(&self) -> (r: &'static str) {
        Tag::PushReceiverId.name()
    }

    fn extra(&self) -> (r: Option<String>) {
        copy_opt_text(&self.extra)
    }

    fn to_value(&self) -> (r: Value) {
        let mut v = write_header(Tag::PushReceiverId, &self.extra);
        put(&mut v, "id", i64_json(self.id));
        proof {
            reveal_with_fuel(encode_members, 2);
            assert(self@.fields[0] == FieldModel::I64(self.id));
            assert(fields_of(Tag::PushReceiverId)[0].0 == "id"@);
            assert(self@.fields.len() == 1);
            assert(
                encode_members(self@, 1) == header(self@).insert(
                    "id"@,
                    encode_field(FieldModel::I64(self.id)),
                )
            );
            assert(header(self@) == header_of(Tag::PushReceiverId, opt_text(self.extra)));
        }
        v
    }

    fn from_value(v: &Value) -> (r: RTDResult<Self>) {
        let t = match read_tag(v) {
            Ok(t) => t,
            Err(e) => return Err(e),
        };
        if t != Tag::PushReceiverId {
            return Err(unknown(t));
        }
        let extra = match read_extra(v, t) {
            Ok(x) => x,
            Err(e) => return Err(e),
        };
        Self::read_fields(v, extra)
    }

    fn copied(&self) -> (r: Self) {
        PushReceiverId { id: self.id, extra: copy_opt_text(&self.extra) }
    }
}

impl PushReceiverId {
    /// Reads the declared fields of an object of this shape.
    pub(crate) fn read_fields(v: &Value, extra: Option<String>) -> (r: RTDResult<Self>)
        requires
            value_model(*v) is Obj,
        ensures
            match decode_members(
                value_model(*v),
                tag_name(Tag::PushReceiverId),
                Tag::PushReceiverId,
                1,
            ) {
                Ok(fs) => r is Ok && r->Ok_0@ == (
                    RecordModel { tag: Tag::PushReceiverId, extra: opt_text(extra), fields: fs }
                ),
                Err(e) => r is Err && r->Err_0@ == e,
            },
    {
        proof {
            reveal_with_fuel(decode_members, 2);
        }
        let id = match read_i64(v, Tag::PushReceiverId, "id") {
            Ok(x) => x,
            Err(e) => return Err(e),
        };
        let r = PushReceiverId { id, extra };
        proof {
            assert(Seq::<FieldModel>::empty().push(FieldModel::I64(r.id)) =~= r@.fields);
        }
        Ok(r)
    }

    /// Decodes a text as this record.
    pub fn from_json(json: &str) -> (r: RTDResult<Self>)
        ensures
            outcome(r) == decode_text(json@, set![Tag::PushReceiverId]),
    {
        from_json::<Self>(json)
    }

    /// A builder holding this shape with every field at its zero value.
    pub fn builder() -> (r: RTDPushReceiverIdBuilder)
        ensures
            r@ == default_record(Tag::PushReceiverId),
    {
        let inner = PushReceiverId { id: 0, extra: None };
        proof {
            assert(inner@.fields =~= default_record(Tag::PushReceiverId).fields);
        }
        RTDPushReceiverIdBuilder { inner }
    }

    /// The globally unique identifier of push notification subscription.
    pub fn id(&self) -> (r: i64)
        ensures
            self@.fields[0] == FieldModel::I64(r),
    {
        self.id
    }
}

/// Fluent constructor of [`PushReceiverId`].
pub struct RTDPushReceiverIdBuilder {
    inner: PushReceiverId,
}

impl View for RTDPushReceiverIdBuilder {
    type V = RecordModel;

    closed spec fn view(&self) -> RecordModel {
        self.inner@
    }
}

impl RTDPushReceiverIdBuilder {
    /// An immutable copy of what has been set so far.
    pub fn build(&self) -> (r: PushReceiverId)
        ensures
            r@ == self@,
    {
        self.inner.copied()
    }

    /// Sets the correlation id.
    pub fn extra(&mut self, extra: &str) -> (r: &mut Self)
        ensures
            (*r)@ == (RecordModel { extra: Some(extra@), ..old(self)@ }),
            *final(self) == *final(r),
    {
        self.inner.extra = Some(String::from_str(extra));
        self
    }

    /// Sets: the globally unique identifier of push notification subscription.
    pub fn id(&mut self, id: i64) -> (r: &mut Self)
        ensures
            (*r)@ == with_field(old(self)@, 0, FieldModel::I64(id)),
            *final(self) == *final(r),
    {
        let ghost before = self@;
        self.inner.id = id;
        proof {
            assert(self@.fields =~= with_field(before, 0, FieldModel::I64(id)).fields);
        }
        self
    }
}

} // verus!
