//! The `videoNote` record.
use crate::codec::{
    copy_opt_object, copy_opt_text, from_json, i32_json, object_json, opt_object, opt_object_json,
    opt_text, outcome, put, read_extra, read_i32, read_object, read_opt_object, read_tag, unknown,
    write_header, RObject,
};
use crate::errors::RTDResult;
use crate::json::{value_model, JsonObject};
use crate::model::{
    decode_members, decode_text, default_record, encode_field, encode_members, header, header_of,
    with_field, FieldModel, RecordModel,
};
use crate::schema::{fields_of, tag_name, Tag};
use serde_json::Value;
use vstd::prelude::*;
use vstd::string::*;

verus! {

/// Describes a video note. The video must be equal in width and height, cropped to a circle, and
/// stored in MPEG4 format.
#[derive(Debug, Clone)]
pub struct VideoNote {
    /// Duration of the video, in seconds; as defined by the sender.
    duration: i32,
    /// Video width and height; as defined by the sender.
    length: i32,
    /// Video thumbnail; as defined by the sender; may be null.
    thumbnail: Option<JsonObject>,
    /// File containing the video.
    video: JsonObject,
    /// Correlation id: set on a request, echoed on its result.
    extra: Option<String>,
}

impl View for VideoNote {
    type V = RecordModel;

    closed spec fn view(&self) -> RecordModel {
        RecordModel {
            tag: Tag::VideoNote,
            extra: opt_text(self.extra),
            fields: seq![
                FieldModel::I32(self.duration),
                FieldModel::I32(self.length),
                FieldModel::OptObject(opt_object(self.thumbnail)),
                FieldModel::Object(self.video@),
            ],
        }
    }
}

impl RObject for VideoNote {
    open spec fn accepted() -> Set<Tag> {
        set![Tag::VideoNote]
    }

    proof fn lemma_view_wf(&self) {
    }

    fn td_name(&self) -> (r: &'static str) {
        Tag::VideoNote.name()
    }

    fn extra(&self) -> (r: Option<String>) {
        copy_opt_text(&self.extra)
    }

    fn to_value(&self) -> (r: Value) {
        let mut v = write_header(Tag::VideoNote, &self.extra);
        put(&mut v, "duration", i32_json(self.duration));
        put(&mut v, "length", i32_json(self.length));
        put(&mut v, "thumbnail", opt_object_json(&self.thumbnail));
        put(&mut v, "video", object_json(&self.video));
        proof {
            reveal_with_fuel(encode_members, 5);
            assert(self@.fields[0] == FieldModel::I32(self.duration));
            assert(fields_of(Tag::VideoNote)[0].0 == "duration"@);
            assert(self@.fields[1] == FieldModel::I32(self.length));
            assert(fields_of(Tag::VideoNote)[1].0 == "length"@);
            assert(self@.fields[2] == FieldModel::OptObject(opt_object(self.thumbnail)));
            assert(fields_of(Tag::VideoNote)[2].0 == "thumbnail"@);
            assert(self@.fields[3] == FieldModel::Object(self.video@));
            assert(fields_of(Tag::VideoNote)[3].0 == "video"@);
            assert(self@.fields.len() == 4);
            assert(encode_members(self@, 4) == header(self@)
                .insert("duration"@, encode_field(FieldModel::I32(self.duration)))
                .insert("length"@, encode_field(FieldModel::I32(self.length)))
                .insert(
                    "thumbnail"@,
                    encode_field(FieldModel::OptObject(opt_object(self.thumbnail))),
                )
                .insert("video"@, encode_field(FieldModel::Object(self.video@))));
            assert(header(self@) == header_of(Tag::VideoNote, opt_text(self.extra)));
        }
        v
    }

    fn from_value(v: &Value) -> (r: RTDResult<Self>) {
        let t = match read_tag(v) {
            Ok(t) => t,
            Err(e) => return Err(e),
        };
        if t != Tag::VideoNote {
            return Err(unknown(t));
        }
        let extra = match read_extra(v, t) {
            Ok(x) => x,
            Err(e) => return Err(e),
        };
        Self::read_fields(v, extra)
    }

    fn copied(&self) -> (r: Self) {
        VideoNote {
            duration: self.duration,
            length: self.length,
            thumbnail: copy_opt_object(&self.thumbnail),
            video: self.video.copied(),
            extra: copy_opt_text(&self.extra),
        }
    }
}

impl VideoNote {
    /// Reads the declared fields of an object of this shape.
    pub(crate) fn read_fields(v: &Value, extra: Option<String>) -> (r: RTDResult<Self>)
        requires
            value_model(*v) is Obj,
        ensures
            match decode_members(value_model(*v), tag_name(Tag::VideoNote), Tag::VideoNote, 4) {
                Ok(fs) => r is Ok && r->Ok_0@ == (
                    RecordModel { tag: Tag::VideoNote, extra: opt_text(extra), fields: fs }
                ),
                Err(e) => r is Err && r->Err_0@ == e,
            },
    {
        proof {
            reveal_with_fuel(decode_members, 5);
        }
        let duration = match read_i32(v, Tag::VideoNote, "duration") {
            Ok(x) => x,
            Err(e) => return Err(e),
        };
        let length = match read_i32(v, Tag::VideoNote, "length") {
            Ok(x) => x,
            Err(e) => return Err(e),
        };
        let thumbnail = match read_opt_object(v, Tag::VideoNote, "thumbnail") {
            Ok(x) => x,
            Err(e) => return Err(e),
        };
        let video = match read_object(v, Tag::VideoNote, "video") {
            Ok(x) => x,
            Err(e) => return Err(e),
        };
        let r = VideoNote { duration, length, thumbnail, video, extra };
        proof {
            assert(Seq::<FieldModel>::empty()
                .push(FieldModel::I32(r.duration))
                .push(FieldModel::I32(r.length))
                .push(FieldModel::OptObject(opt_object(r.thumbnail)))
                .push(FieldModel::Object(r.video@)) =~= r@.fields);
        }
        Ok(r)
    }

    /// Decodes a text as this record.
    pub fn from_json(json: &str) -> (r: RTDResult<Self>)
        ensures
            outcome(r) == decode_text(json@, set![Tag::VideoNote]),
    {
        from_json::<Self>(json)
    }

    /// A builder holding this shape with every field at its zero value.
    pub fn builder() -> (r: RTDVideoNoteBuilder)
        ensures
            r@ == default_record(Tag::VideoNote),
    {
        let inner = VideoNote {
            duration: 0,
            length: 0,
            thumbnail: None,
            video: JsonObject::empty(),
            extra: None,
        };
        proof {
            assert(inner@.fields =~= default_record(Tag::VideoNote).fields);
        }
        RTDVideoNoteBuilder { inner }
    }

    /// Duration of the video, in seconds; as defined by the sender.
    pub fn duration(&self) -> (r: i32)
        ensures
            self@.fields[0] == FieldModel::I32(r),
    {
        self.duration
    }

    /// Video width and height; as defined by the sender.
    pub fn length(&self) -> (r: i32)
        ensures
            self@.fields[1] == FieldModel::I32(r),
    {
        self.length
    }

    /// Video thumbnail; as defined by the sender; may be null.
    pub fn thumbnail(&self) -> (r: &Option<JsonObject>)
        ensures
            self@.fields[2] == FieldModel::OptObject(opt_object(*r)),
    {
        &self.thumbnail
    }

    /// File containing the video.
    pub fn video(&self) -> (r: &JsonObject)
        ensures
            self@.fields[3] == FieldModel::Object(r@),
    {
        &self.video
    }
}

/// Fluent constructor of [`VideoNote`].
pub struct RTDVideoNoteBuilder {
    inner: VideoNote,
}

impl View for RTDVideoNoteBuilder {
    type V = RecordModel;

    closed spec fn view(&self) -> RecordModel {
        self.inner@
    }
}

impl RTDVideoNoteBuilder {
    /// An immutable copy of what has been set so far.
    pub fn build(&self) -> (r: VideoNote)
        ensures
            r@ == self@,
    {
        self.inner.copied()
    }

    /// Sets the correlation id.
    pub fn extra(&mut self, extra: &str) -> (r: &mut Self)
        ensures
            (*r)@ == (RecordModel { extra: Some(extra@), ..old(self)@ }),
            *final(self) == *final(r),
    {
        self.inner.extra = Some(String::from_str(extra));
        self
    }

    /// Sets: duration of the video, in seconds; as defined by the sender.
    pub fn duration(&mut self, duration: i32) -> (r: &mut Self)
        ensures
            (*r)@ == with_field(old(self)@, 0, FieldModel::I32(duration)),
            *final(self) == *final(r),
    {
        let ghost before = self@;
        self.inner.duration = duration;
        proof {
            assert(self@.fields =~= with_field(before, 0, FieldModel::I32(duration)).fields);
        }
        self
    }

    /// Sets: video width and height; as defined by the sender.
    pub fn length(&mut self, length: i32) -> (r: &mut Self)
        ensures
            (*r)@ == with_field(old(self)@, 1, FieldModel::I32(length)),
            *final(self) == *final(r),
    {
        let ghost before = self@;
        self.inner.length = length;
        proof {
            assert(self@.fields =~= with_field(before, 1, FieldModel::I32(length)).fields);
        }
        self
    }

    /// Sets: video thumbnail; as defined by the sender; may be null.
    pub fn thumbnail(&mut self, thumbnail: JsonObject) -> (r: &mut Self)
        ensures
            (*r)@ == with_field(old(self)@, 2, FieldModel::OptObject(Some(thumbnail@))),
            *final(self) == *final(r),
    {
        let ghost before = self@;
        self.inner.thumbnail = Some(thumbnail);
        proof {
            assert(
                self@.fields =~= with_field(
                    before,
                    2,
                    FieldModel::OptObject(Some(thumbnail@)),
                ).fields
            );
        }
        self
    }

    /// Sets: file containing the video.
    pub fn video(&mut self, video: JsonObject) -> (r: &mut Self)
        ensures
            (*r)@ == with_field(old(self)@, 3, FieldModel::Object(video@)),
            *final(self) == *final(r),
    {
        let ghost before = self@;
        self.inner.video = video;
        proof {
            assert(self@.fields =~= with_field(before, 3, FieldModel::Object(video@)).fields);
        }
        self
    }
}

} // verus!
