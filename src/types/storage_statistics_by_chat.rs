//! The `storageStatisticsByChat` record.
use crate::codec::{
    copy_objects, copy_opt_text, from_json, i32_json, objects_json, objects_model, opt_text,
    outcome, put, read_extra, read_i32, read_objects, read_tag, unknown, write_header, RObject,
};
use crate::errors::RTDResult;
use crate::json::{value_model, JsonObject};
use crate::model::{
    decode_members, decode_text, default_record, encode_field, encode_members, header, header_of,
    with_field, FieldModel, RecordModel,
};
use crate::schema::{fields_of, tag_name, Tag};
use serde_json::Value;
use vstd::prelude::*;
use vstd::string::*;

verus! {

/// Contains the storage usage statistics for a specific chat.
#[derive(Debug, Clone)]
pub struct StorageStatisticsByChat {
    /// Chat identifier; 0 if none.
    chat_id: i32,
    /// Total size of the files in the chat.
    size: i32,
    /// Total number of files in the chat.
    count: i32,
    /// Statistics split by file types.
    by_file_type: Vec<JsonObject>,
    /// Correlation id: set on a request, echoed on its result.
    extra: Option<String>,
}

impl View for StorageStatisticsByChat {
    type V = RecordModel;

    closed spec fn view(&self) -> RecordModel {
        RecordModel {
            tag: Tag::StorageStatisticsByChat,
            extra: opt_text(self.extra),
            fields: seq![
                FieldModel::I32(self.chat_id),
                FieldModel::I32(self.size),
                FieldModel::I32(self.count),
                FieldModel::Objects(objects_model(self.by_file_type@)),
            ],
        }
    }
}

impl RObject for StorageStatisticsByChat {
    open spec fn accepted() -> Set<Tag> {
        set![Tag::StorageStatisticsByChat]
    }

    proof fn lemma_view_wf(&self) {
    }

    fn td_name(&self) -> (r: &'static str) {
        Tag::StorageStatisticsByChat.name()
    }

    fn extra(&self) -> (r: Option<String>) {
        copy_opt_text(&self.extra)
    }

    fn to_value(&self) -> (r: Value) {
        let mut v = write_header(Tag::StorageStatisticsByChat, &self.extra);
        put(&mut v, "chat_id", i32_json(self.chat_id));
        put(&mut v, "size", i32_json(self.size));
        put(&mut v, "count", i32_json(self.count));
        put(&mut v, "by_file_type", objects_json(&self.by_file_type));
        proof {
            reveal_with_fuel(encode_members, 5);
            assert(self@.fields[0] == FieldModel::I32(self.chat_id));
            assert(fields_of(Tag::StorageStatisticsByChat)[0].0 == "chat_id"@);
            assert(self@.fields[1] == FieldModel::I32(self.size));
            assert(fields_of(Tag::StorageStatisticsByChat)[1].0 == "size"@);
            assert(self@.fields[2] == FieldModel::I32(self.count));
            assert(fields_of(Tag::StorageStatisticsByChat)[2].0 == "count"@);
            assert(self@.fields[3] == FieldModel::Objects(objects_model(self.by_file_type@)));
            assert(fields_of(Tag::StorageStatisticsByChat)[3].0 == "by_file_type"@);
            assert(self@.fields.len() == 4);
            assert(encode_members(self@, 4) == header(self@)
                .insert("chat_id"@, encode_field(FieldModel::I32(self.chat_id)))
                .insert("size"@, encode_field(FieldModel::I32(self.size)))
                .insert("count"@, encode_field(FieldModel::I32(self.count)))
                .insert(
                    "by_file_type"@,
                    encode_field(FieldModel::Objects(objects_model(self.by_file_type@))),
                ));
            assert(header(self@) == header_of(Tag::StorageStatisticsByChat, opt_text(self.extra)));
        }
        v
    }

    fn from_value(v: &Value) -> (r: RTDResult<Self>) {
        let t = match read_tag(v) {
            Ok(t) => t,
            Err(e) => return Err(e),
        };
        if t != Tag::StorageStatisticsByChat {
            return Err(unknown(t));
        }
        let extra = match read_extra(v, t) {
            Ok(x) => x,
            Err(e) => return Err(e),
        };
        Self::read_fields(v, extra)
    }

    fn copied(&self) -> (r: Self) {
        StorageStatisticsByChat {
            chat_id: self.chat_id,
            size: self.size,
            count: self.count,
            by_file_type: copy_objects(&self.by_file_type),
            extra: copy_opt_text(&self.extra),
        }
    }
}

impl StorageStatisticsByChat {
    /// Reads the declared fields of an object of this shape.
    pub(crate) fn read_fields(v: &Value, extra: Option<String>) -> (r: RTDResult<Self>)
        requires
            value_model(*v) is Obj,
        ensures
            match decode_members(
                value_model(*v),
                tag_name(Tag::StorageStatisticsByChat),
                Tag::StorageStatisticsByChat,
                4,
            ) {
                Ok(fs) => r is Ok && r->Ok_0@ == (
                    RecordModel {
                        tag: Tag::StorageStatisticsByChat,
                        extra: opt_text(extra),
                        fields: fs,
                    }
                ),
                Err(e) => r is Err && r->Err_0@ == e,
            },
    {
        proof {
            reveal_with_fuel(decode_members, 5);
        }
        let chat_id = match read_i32(v, Tag::StorageStatisticsByChat, "chat_id") {
            Ok(x) => x,
            Err(e) => return Err(e),
        };
        let size = match read_i32(v, Tag::StorageStatisticsByChat, "size") {
            Ok(x) => x,
            Err(e) => return Err(e),
        };
        let count = match read_i32(v, Tag::StorageStatisticsByChat, "count") {
            Ok(x) => x,
            Err(e) => return Err(e),
        };
        let by_file_type = match read_objects(v, Tag::StorageStatisticsByChat, "by_file_type") {
            Ok(x) => x,
            Err(e) => return Err(e),
        };
        let r = StorageStatisticsByChat { chat_id, size, count, by_file_type, extra };
        proof {
            assert(Seq::<FieldModel>::empty()
                .push(FieldModel::I32(r.chat_id))
                .push(FieldModel::I32(r.size))
                .push(FieldModel::I32(r.count))
                .push(FieldModel::Objects(objects_model(r.by_file_type@))) =~= r@.fields);
        }
        Ok(r)
    }

    /// Decodes a text as this record.
    pub fn from_json(json: &str) -> (r: RTDResult<Self>)
        ensures
            outcome(r) == decode_text(json@, set![Tag::StorageStatisticsByChat]),
    {
        from_json::<Self>(json)
    }

    /// A builder holding this shape with every field at its zero value.
    pub fn builder() -> (r: RTDStorageStatisticsByChatBuilder)
        ensures
            r@ == default_record(Tag::StorageStatisticsByChat),
    {
        let inner = StorageStatisticsByChat {
            chat_id: 0,
            size: 0,
            count: 0,
            by_file_type: Vec::new(),
            extra: None,
        };
        proof {
            assert(objects_model(inner.by_file_type@) =~= Seq::empty());
            assert(inner@.fields =~= default_record(Tag::StorageStatisticsByChat).fields);
        }
        RTDStorageStatisticsByChatBuilder { inner }
    }

    /// Chat identifier; 0 if none.
    pub fn chat_id(&self) -> (r: i32)
        ensures
            self@.fields[0] == FieldModel::I32(r),
    {
        self.chat_id
    }

    /// Total size of the files in the chat.
    pub fn size(&self) -> (r: i32)
        ensures
            self@.fields[1] == FieldModel::I32(r),
    {
        self.size
    }

    /// Total number of files in the chat.
    pub fn count(&self) -> (r: i32)
        ensures
            self@.fields[2] == FieldModel::I32(r),
    {
        self.count
    }

    /// Statistics split by file types.
    pub fn by_file_type(&self) -> (r: &Vec<JsonObject>)
        ensures
            self@.fields[3] == FieldModel::Objects(objects_model(r@)),
    {
        &self.by_file_type
    }
}

/// Fluent constructor of [`StorageStatisticsByChat`].
pub struct RTDStorageStatisticsByChatBuilder {
    inner: StorageStatisticsByChat,
}

impl View for RTDStorageStatisticsByChatBuilder {
    type V = RecordModel;

    closed spec fn view(&self) -> RecordModel {
        self.inner@
    }
}

impl RTDStorageStatisticsByChatBuilder {
    /// An immutable copy of what has been set so far.
    pub fn build(&self) -> (r: StorageStatisticsByChat)
        ensures
            r@ == self@,
    {
        self.inner.copied()
    }

    /// Sets the correlation id.
    pub fn extra(&mut self, extra: &str) -> (r: &mut Self)
        ensures
            (*r)@ == (RecordModel { extra: Some(extra@), ..old(self)@ }),
            *final(self) == *final(r),
    {
        self.inner.extra = Some(String::from_str(extra));
        self
    }

    /// Sets: chat identifier; 0 if none.
    pub fn chat_id(&mut self, chat_id: i32) -> (r: &mut Self)
        ensures
            (*r)@ == with_field(old(self)@, 0, FieldModel::I32(chat_id)),
            *final(self) == *final(r),
    {
        let ghost before = self@;
        self.inner.chat_id = chat_id;
        proof {
            assert(self@.fields =~= with_field(before, 0, FieldModel::I32(chat_id)).fields);
        }
        self
    }

    /// Sets: total size of the files in the chat.
    pub fn size(&mut self, size: i32) -> (r: &mut Self)
        ensures
            (*r)@ == with_field(old(self)@, 1, FieldModel::I32(size)),
            *final(self) == *final(r),
    {
        let ghost before = self@;
        self.inner.size = size;
        proof {
            assert(self@.fields =~= with_field(before, 1, FieldModel::I32(size)).fields);
        }
        self
    }

    /// Sets: total number of files in the chat.
    pub fn count(&mut self, count: i32) -> (r: &mut Self)
        ensures
            (*r)@ == with_field(old(self)@, 2, FieldModel::I32(count)),
            *final(self) == *final(r),
    {
        let ghost before = self@;
        self.inner.count = count;
        proof {
            assert(self@.fields =~= with_field(before, 2, FieldModel::I32(count)).fields);
        }
        self
    }

    /// Sets: statistics split by file types.
    pub fn by_file_type(&mut self, by_file_type: Vec<JsonObject>) -> (r: &mut Self)
        ensures
            (*r)@ == with_field(old(self)@, 3, FieldModel::Objects(objects_model(by_file_type@))),
            *final(self) == *final(r),
    {
        let ghost before = self@;
        self.inner.by_file_type = by_file_type;
        proof {
            assert(
                self@.fields =~= with_field(
                    before,
                    3,
                    FieldModel::Objects(objects_model(by_file_type@)),
                ).fields
            );
        }
        self
    }
}

} // verus!
