//! The `stickerSetInfo` record.
use crate::codec::{
    bool_json, copy_objects, copy_opt_text, from_json, i32_json, i64_json, objects_json,
    objects_model, opt_text, outcome, put, read_bool, read_extra, read_i32, read_i64, read_objects,
    read_tag, read_text, text_json, unknown, write_header, RObject,
};
use crate::errors::RTDResult;
use crate::json::{value_model, JsonObject};
use crate::model::{
    decode_members, decode_text, default_record, encode_field, encode_members, header, header_of,
    with_field, FieldModel, RecordModel,
};
use crate::schema::{fields_of, tag_name, Tag};
use serde_json::Value;
use vstd::prelude::*;
use vstd::string::*;

verus! {

/// Represents short information about a sticker set.
#[derive(Debug, Clone)]
pub struct StickerSetInfo {
    /// Identifier of the sticker set.
    id: i64,
    /// Title of the sticker set.
    title: String,
    /// Name of the sticker set.
    name: String,
    /// True, if the sticker set has been installed by current user.
    is_installed: bool,
    /// True, if the sticker set has been archived. A sticker set can't be installed and archived
    /// simultaneously.
    is_archived: bool,
    /// True, if the sticker set is official.
    is_official: bool,
    /// True, if the stickers in the set are masks.
    is_masks: bool,
    /// True for already viewed trending sticker sets.
    is_viewed: bool,
    /// Total number of stickers in the set.
    size: i32,
    /// Contains up to the first 5 stickers from the set, depending on the context.
    covers: Vec<JsonObject>,
    /// Correlation id: set on a request, echoed on its result.
    extra: Option<String>,
}

impl View for StickerSetInfo {
    type V = RecordModel;

    closed spec fn view(&self) -> RecordModel {
        RecordModel {
            tag: Tag::StickerSetInfo,
            extra: opt_text(self.extra),
            fields: seq![
                FieldModel::I64(self.id),
                FieldModel::Text(self.title@),
                FieldModel::Text(self.name@),
                FieldModel::Bool(self.is_installed),
                FieldModel::Bool(self.is_archived),
                FieldModel::Bool(self.is_official),
                FieldModel::Bool(self.is_masks),
                FieldModel::Bool(self.is_viewed),
                FieldModel::I32(self.size),
                FieldModel::Objects(objects_model(self.covers@)),
            ],
        }
    }
}

impl RObject for StickerSetInfo {
    open spec fn accepted() -> Set<Tag> {
        set![Tag::StickerSetInfo]
    }

    proof fn lemma_view_wf(&self) {
    }

    fn td_name(&self) -> (r: &'static str) {
        Tag::StickerSetInfo.name()
    }

    fn extra(&self) -> (r: Option<String>) {
        copy_opt_text(&self.extra)
    }

    fn to_value(&self) -> (r: Value) {
        let mut v = write_header(Tag::StickerSetInfo, &self.extra);
        put(&mut v, "id", i64_json(self.id));
        put(&mut v, "title", text_json(&self.title));
        put(&mut v, "name", text_json(&self.name));
        put(&mut v, "is_installed", bool_json(self.is_installed));
        put(&mut v, "is_archived", bool_json(self.is_archived));
        put(&mut v, "is_official", bool_json(self.is_official));
        put(&mut v, "is_masks", bool_json(self.is_masks));
        put(&mut v, "is_viewed", bool_json(self.is_viewed));
        put(&mut v, "size", i32_json(self.size));
        put(&mut v, "covers", objects_json(&self.covers));
        proof {
            reveal_with_fuel(encode_members, 11);
            assert(self@.fields[0] == FieldModel::I64(self.id));
            assert(fields_of(Tag::StickerSetInfo)[0].0 == "id"@);
            assert(self@.fields[1] == FieldModel::Text(self.title@));
            assert(fields_of(Tag::StickerSetInfo)[1].0 == "title"@);
            assert(self@.fields[2] == FieldModel::Text(self.name@));
            assert(fields_of(Tag::StickerSetInfo)[2].0 == "name"@);
            assert(self@.fields[3] == FieldModel::Bool(self.is_installed));
            assert(fields_of(Tag::StickerSetInfo)[3].0 == "is_installed"@);
            assert(self@.fields[4] == FieldModel::Bool(self.is_archived));
            assert(fields_of(Tag::StickerSetInfo)[4].0 == "is_archived"@);
            assert(self@.fields[5] == FieldModel::Bool(self.is_official));
            assert(fields_of(Tag::StickerSetInfo)[5].0 == "is_official"@);
            assert(self@.fields[6] == FieldModel::Bool(self.is_masks));
            assert(fields_of(Tag::StickerSetInfo)[6].0 == "is_masks"@);
            assert(self@.fields[7] == FieldModel::Bool(self.is_viewed));
            assert(fields_of(Tag::StickerSetInfo)[7].0 == "is_viewed"@);
            assert(self@.fields[8] == FieldModel::I32(self.size));
            assert(fields_of(Tag::StickerSetInfo)[8].0 == "size"@);
            assert(self@.fields[9] == FieldModel::Objects(objects_model(self.covers@)));
            assert(fields_of(Tag::StickerSetInfo)[9].0 == "covers"@);
            assert(self@.fields.len() == 10);
            assert(encode_members(self@, 10) == header(self@)
                .insert("id"@, encode_field(FieldModel::I64(self.id)))
                .insert("title"@, encode_field(FieldModel::Text(self.title@)))
                .insert("name"@, encode_field(FieldModel::Text(self.name@)))
                .insert("is_installed"@, encode_field(FieldModel::Bool(self.is_installed)))
                .insert("is_archived"@, encode_field(FieldModel::Bool(self.is_archived)))
                .insert("is_official"@, encode_field(FieldModel::Bool(self.is_official)))
                .insert("is_masks"@, encode_field(FieldModel::Bool(self.is_masks)))
                .insert("is_viewed"@, encode_field(FieldModel::Bool(self.is_viewed)))
                .insert("size"@, encode_field(FieldModel::I32(self.size)))
                .insert("covers"@, encode_field(FieldModel::Objects(objects_model(self.covers@)))));
            assert(header(self@) == header_of(Tag::StickerSetInfo, opt_text(self.extra)));
        }
        v
    }

    fn from_value(v: &Value) -> (r: RTDResult<Self>) {
        let t = match read_tag(v) {
            Ok(t) => t,
            Err(e) => return Err(e),
        };
        if t != Tag::StickerSetInfo {
            return Err(unknown(t));
        }
        let extra = match read_extra(v, t) {
            Ok(x) => x,
            Err(e) => return Err(e),
        };
        Self::read_fields(v, extra)
    }

    fn copied(&self) -> (r: Self) {
        StickerSetInfo {
            id: self.id,
            title: self.title.clone(),
            name: self.name.clone(),
            is_installed: self.is_installed,
            is_archived: self.is_archived,
            is_official: self.is_official,
            is_masks: self.is_masks,
            is_viewed: self.is_viewed,
            size: self.size,
            covers: copy_objects(&self.covers),
            extra: copy_opt_text(&self.extra),
        }
    }
}

impl StickerSetInfo {
    /// Reads the declared fields of an object of this shape.
    pub(crate) fn read_fields(v: &Value, extra: Option<String>) -> (r: RTDResult<Self>)
        requires
            value_model(*v) is Obj,
        ensures
            match decode_members(
                value_model(*v),
                tag_name(Tag::StickerSetInfo),
                Tag::StickerSetInfo,
                10,
            ) {
                Ok(fs) => r is Ok && r->Ok_0@ == (
                    RecordModel { tag: Tag::StickerSetInfo, extra: opt_text(extra), fields: fs }
                ),
                Err(e) => r is Err && r->Err_0@ == e,
            },
    {
        proof {
            reveal_with_fuel(decode_members, 11);
        }
        let id = match read_i64(v, Tag::StickerSetInfo, "id") {
            Ok(x) => x,
            Err(e) => return Err(e),
        };
        let title = match read_text(v, Tag::StickerSetInfo, "title") {
            Ok(x) => x,
            Err(e) => return Err(e),
        };
        let name = match read_text(v, Tag::StickerSetInfo, "name") {
            Ok(x) => x,
            Err(e) => return Err(e),
        };
        let is_installed = match read_bool(v, Tag::StickerSetInfo, "is_installed") {
            Ok(x) => x,
            Err(e) => return Err(e),
        };
        let is_archived = match read_bool(v, Tag::StickerSetInfo, "is_archived") {
            Ok(x) => x,
            Err(e) => return Err(e),
        };
        let is_official = match read_bool(v, Tag::StickerSetInfo, "is_official") {
            Ok(x) => x,
            Err(e) => return Err(e),
        };
        let is_masks = match read_bool(v, Tag::StickerSetInfo, "is_masks") {
            Ok(x) => x,
            Err(e) => return Err(e),
        };
        let is_viewed = match read_bool(v, Tag::StickerSetInfo, "is_viewed") {
            Ok(x) => x,
            Err(e) => return Err(e),
        };
        let size = match read_i32(v, Tag::StickerSetInfo, "size") {
            Ok(x) => x,
            Err(e) => return Err(e),
        };
        let covers = match read_objects(v, Tag::StickerSetInfo, "covers") {
            Ok(x) => x,
            Err(e) => return Err(e),
        };
        let r = StickerSetInfo {
            id,
            title,
            name,
            is_installed,
            is_archived,
            is_official,
            is_masks,
            is_viewed,
            size,
            covers,
            extra,
        };
        proof {
            assert(Seq::<FieldModel>::empty()
                .push(FieldModel::I64(r.id))
                .push(FieldModel::Text(r.title@))
                .push(FieldModel::Text(r.name@))
                .push(FieldModel::Bool(r.is_installed))
                .push(FieldModel::Bool(r.is_archived))
                .push(FieldModel::Bool(r.is_official))
                .push(FieldModel::Bool(r.is_masks))
                .push(FieldModel::Bool(r.is_viewed))
                .push(FieldModel::I32(r.size))
                .push(FieldModel::Objects(objects_model(r.covers@))) =~= r@.fields);
        }
        Ok(r)
    }

    /// Decodes a text as this record.
    pub fn from_json(json: &str) -> (r: RTDResult<Self>)
        ensures
            outcome(r) == decode_text(json@, set![Tag::StickerSetInfo]),
    {
        from_json::<Self>(json)
    }

    /// A builder holding this shape with every field at its zero value.
    pub fn builder() -> (r: RTDStickerSetInfoBuilder)
        ensures
            r@ == default_record(Tag::StickerSetInfo),
    {
        let inner = StickerSetInfo {
            id: 0,
            title: String::new(),
            name: String::new(),
            is_installed: false,
            is_archived: false,
            is_official: false,
            is_masks: false,
            is_viewed: false,
            size: 0,
            covers: Vec::new(),
            extra: None,
        };
        proof {
            assert(objects_model(inner.covers@) =~= Seq::empty());
            assert(inner@.fields =~= default_record(Tag::StickerSetInfo).fields);
        }
        RTDStickerSetInfoBuilder { inner }
    }

    /// Identifier of the sticker set.
    pub fn id(&self) -> (r: i64)
        ensures
            self@.fields[0] == FieldModel::I64(r),
    {
        self.id
    }

    /// Title of the sticker set.
    pub fn title(&self) -> (r: &String)
        ensures
            self@.fields[1] == FieldModel::Text(r@),
    {
        &self.title
    }

    /// Name of the sticker set.
    pub fn name(&self) -> (r: &String)
        ensures
            self@.fields[2] == FieldModel::Text(r@),
    {
        &self.name
    }

    /// True, if the sticker set has been installed by current user.
    pub fn is_installed(&self) -> (r: bool)
        ensures
            self@.fields[3] == FieldModel::Bool(r),
    {
        self.is_installed
    }

    /// True, if the sticker set has been archived. A sticker set can't be installed and archived
    /// simultaneously.
    pub fn is_archived(&self) -> (r: bool)
        ensures
            self@.fields[4] == FieldModel::Bool(r),
    {
        self.is_archived
    }

    /// True, if the sticker set is official.
    pub fn is_official(&self) -> (r: bool)
        ensures
            self@.fields[5] == FieldModel::Bool(r),
    {
        self.is_official
    }

    /// True, if the stickers in the set are masks.
    pub fn is_masks(&self) -> (r: bool)
        ensures
            self@.fields[6] == FieldModel::Bool(r),
    {
        self.is_masks
    }

    /// True for already viewed trending sticker sets.
    pub fn is_viewed(&self) -> (r: bool)
        ensures
            self@.fields[7] == FieldModel::Bool(r),
    {
        self.is_viewed
    }

    /// Total number of stickers in the set.
    pub fn size(&self) -> (r: i32)
        ensures
            self@.fields[8] == FieldModel::I32(r),
    {
        self.size
    }

    /// Contains up to the first 5 stickers from the set, depending on the context.
    pub fn covers(&self) -> (r: &Vec<JsonObject>)
        ensures
            self@.fields[9] == FieldModel::Objects(objects_model(r@)),
    {
        &self.covers
    }
}

/// Fluent constructor of [`StickerSetInfo`].
pub struct RTDStickerSetInfoBuilder {
    inner: StickerSetInfo,
}

impl View for RTDStickerSetInfoBuilder {
    type V = RecordModel;

    closed spec fn view(&self) -> RecordModel {
        self.inner@
    }
}

impl RTDStickerSetInfoBuilder {
    /// An immutable copy of what has been set so far.
    pub fn build(&self) -> (r: StickerSetInfo)
        ensures
            r@ == self@,
    {
        self.inner.copied()
    }

    /// Sets the correlation id.
    pub fn extra(&mut self, extra: &str) -> (r: &mut Self)
        ensures
            (*r)@ == (RecordModel { extra: Some(extra@), ..old(self)@ }),
            *final(self) == *final(r),
    {
        self.inner.extra = Some(String::from_str(extra));
        self
    }

    /// Sets: identifier of the sticker set.
    pub fn id(&mut self, id: i64) -> (r: &mut Self)
        ensures
            (*r)@ == with_field(old(self)@, 0, FieldModel::I64(id)),
            *final(self) == *final(r),
    {
        let ghost before = self@;
        self.inner.id = id;
        proof {
            assert(self@.fields =~= with_field(before, 0, FieldModel::I64(id)).fields);
        }
        self
    }

    /// Sets: title of the sticker set.
    pub fn title(&mut self, title: &str) -> (r: &mut Self)
        ensures
            (*r)@ == with_field(old(self)@, 1, FieldModel::Text(title@)),
            *final(self) == *final(r),
    {
        let ghost before = self@;
        self.inner.title = String::from_str(title);
        proof {
            assert(self@.fields =~= with_field(before, 1, FieldModel::Text(title@)).fields);
        }
        self
    }

    /// Sets: name of the sticker set.
    pub fn name(&mut self, name: &str) -> (r: &mut Self)
        ensures
            (*r)@ == with_field(old(self)@, 2, FieldModel::Text(name@)),
            *final(self) == *final(r),
    {
        let ghost before = self@;
        self.inner.name = String::from_str(name);
        proof {
            assert(self@.fields =~= with_field(before, 2, FieldModel::Text(name@)).fields);
        }
        self
    }

    /// Sets: true, if the sticker set has been installed by current user.
    pub fn is_installed(&mut self, is_installed: bool) -> (r: &mut Self)
        ensures
            (*r)@ == with_field(old(self)@, 3, FieldModel::Bool(is_installed)),
            *final(self) == *final(r),
    {
        let ghost before = self@;
        self.inner.is_installed = is_installed;
        proof {
            assert(self@.fields =~= with_field(before, 3, FieldModel::Bool(is_installed)).fields);
        }
        self
    }

    /// Sets: true, if the sticker set has been archived. A sticker set can't be installed and
    /// archived simultaneously.
    pub fn is_archived(&mut self, is_archived: bool) -> (r: &mut Self)
        ensures
            (*r)@ == with_field(old(self)@, 4, FieldModel::Bool(is_archived)),
            *final(self) == *final(r),
    {
        let ghost before = self@;
        self.inner.is_archived = is_archived;
        proof {
            assert(self@.fields =~= with_field(before, 4, FieldModel::Bool(is_archived)).fields);
        }
        self
    }

    /// Sets: true, if the sticker set is official.
    pub fn is_official(&mut self, is_official: bool) -> (r: &mut Self)
        ensures
            (*r)@ == with_field(old(self)@, 5, FieldModel::Bool(is_official)),
            *final(self) == *final(r),
    {
        let ghost before = self@;
        self.inner.is_official = is_official;
        proof {
            assert(self@.fields =~= with_field(before, 5, FieldModel::Bool(is_official)).fields);
        }
        self
    }

    /// Sets: true, if the stickers in the set are masks.
    pub fn is_masks(&mut self, is_masks: bool) -> (r: &mut Self)
        ensures
            (*r)@ == with_field(old(self)@, 6, FieldModel::Bool(is_masks)),
            *final(self) == *final(r),
    {
        let ghost before = self@;
        self.inner.is_masks = is_masks;
        proof {
            assert(self@.fields =~= with_field(before, 6, FieldModel::Bool(is_masks)).fields);
        }
        self
    }

    /// Sets: true for already viewed trending sticker sets.
    pub fn is_viewed(&mut self, is_viewed: bool) -> (r: &mut Self)
        ensures
            (*r)@ == with_field(old(self)@, 7, FieldModel::Bool(is_viewed)),
            *final(self) == *final(r),
    {
        let ghost before = self@;
        self.inner.is_viewed = is_viewed;
        proof {
            assert(self@.fields =~= with_field(before, 7, FieldModel::Bool(is_viewed)).fields);
        }
        self
    }

    /// Sets: total number of stickers in the set.
    pub fn size(&mut self, size: i32) -> (r: &mut Self)
        ensures
            (*r)@ == with_field(old(self)@, 8, FieldModel::I32(size)),
            *final(self) == *final(r),
    {
        let ghost before = self@;
        self.inner.size = size;
        proof {
            assert(self@.fields =~= with_field(before, 8, FieldModel::I32(size)).fields);
        }
        self
    }

    /// Sets: contains up to the first 5 stickers from the set, depending on the context.
    pub fn covers(&mut self, covers: Vec<JsonObject>) -> (r: &mut Self)
        ensures
            (*r)@ == with_field(old(self)@, 9, FieldModel::Objects(objects_model(covers@))),
            *final(self) == *final(r),
    {
        let ghost before = self@;
        self.inner.covers = covers;
        proof {
            assert(
                self@.fields =~= with_field(
                    before,
                    9,
                    FieldModel::Objects(objects_model(covers@)),
                ).fields
            );
        }
        self
    }
}

} // verus!
