//! The `error` record.
use crate::codec::{
    copy_opt_text, from_json, i32_json, opt_text, outcome, put, read_extra, read_i32, read_tag,
    read_text, text_json, unknown, write_header, RObject,
};
use crate::errors::RTDResult;
use crate::json::value_model;
use crate::model::{
    decode_members, decode_text, default_record, encode_field, encode_members, header, header_of,
    with_field, FieldModel, RecordModel,
};
use crate::schema::{fields_of, tag_name, Tag};
use serde_json::Value;
use vstd::prelude::*;
use vstd::string::*;

verus! {

/// An object of this type can be returned on every function call, in case of an error.
#[derive(Debug, Clone)]
pub struct Error {
    /// Error code; subject to future changes. If the error code is 406, the error message must not
    /// be processed in any way and must not be displayed to the user.
    code: i32,
    /// Error message; subject to future changes.
    message: String,
    /// Correlation id: set on a request, echoed on its result.
    extra: Option<String>,
}

impl View for Error {
    type V = RecordModel;

    closed spec fn view(&self) -> RecordModel {
        RecordModel {
            tag: Tag::Error,
            extra: opt_text(self.extra),
            fields: seq![FieldModel::I32(self.code), FieldModel::Text(self.message@)],
        }
    }
}

impl RObject for Error {
    open spec fn accepted() -> Set<Tag> {
        set![Tag::Error]
    }

    proof fn lemma_view_wf(&self) {
    }

    fn td_name(&self) -> (r: &'static str) {
        Tag::Error.name()
    }

    fn extra(&self) -> (r: Option<String>) {
        copy_opt_text(&self.extra)
    }

    fn to_value(&self) -> (r: Value) {
        let mut v = write_header(Tag::Error, &self.extra);
        put(&mut v, "code", i32_json(self.code));
        put(&mut v, "message", text_json(&self.message));
        proof {
            reveal_with_fuel(encode_members, 3);
            assert(self@.fields[0] == FieldModel::I32(self.code));
            assert(fields_of(Tag::Error)[0].0 == "code"@);
            assert(self@.fields[1] == FieldModel::Text(self.message@));
            assert(fields_of(Tag::Error)[1].0 == "message"@);
            assert(self@.fields.len() == 2);
            assert(encode_members(self@, 2) == header(self@)
                .insert("code"@, encode_field(FieldModel::I32(self.code)))
                .insert("message"@, encode_field(FieldModel::Text(self.message@))));
            assert(header(self@) == header_of(Tag::Error, opt_text(self.extra)));
        }
        v
    }

    fn from_value(v: &Value) -> (r: RTDResult<Self>) {
        let t = match read_tag(v) {
            Ok(t) => t,
            Err(e) => return Err(e),
        };
        if t != Tag::Error {
            return Err(unknown(t));
        }
        let extra = match read_extra(v, t) {
            Ok(x) => x,
            Err(e) => return Err(e),
        };
        Self::read_fields(v, extra)
    }

    fn copied(&self) -> (r: Self) {
        Error { code: self.code, message: self.message.clone(), extra: copy_opt_text(&self.extra) }
    }
}

impl Error {
    /// Reads the declared fields of an object of this shape.
    pub(crate) fn read_fields(v: &Value, extra: Option<String>) -> (r: RTDResult<Self>)
        requires
            value_model(*v) is Obj,
        ensures
            match decode_members(value_model(*v), tag_name(Tag::Error), Tag::Error, 2) {
                Ok(fs) => r is Ok && r->Ok_0@ == (
                    RecordModel { tag: Tag::Error, extra: opt_text(extra), fields: fs }
                ),
                Err(e) => r is Err && r->Err_0@ == e,
            },
    {
        proof {
            reveal_with_fuel(decode_members, 3);
        }
        let code = match read_i32(v, Tag::Error, "code") {
            Ok(x) => x,
            Err(e) => return Err(e),
        };
        let message = match read_text(v, Tag::Error, "message") {
            Ok(x) => x,
            Err(e) => return Err(e),
        };
        let r = Error { code, message, extra };
        proof {
            assert(Seq::<FieldModel>::empty()
                .push(FieldModel::I32(r.code))
                .push(FieldModel::Text(r.message@)) =~= r@.fields);
        }
        Ok(r)
    }

    /// Decodes a text as this record.
    pub fn from_json(json: &str) -> (r: RTDResult<Self>)
        ensures
            outcome(r) == decode_text(json@, set![Tag::Error]),
    {
        from_json::<Self>(json)
    }

    /// A builder holding this shape with every field at its zero value.
    pub fn builder() -> (r: RTDErrorBuilder)
        ensures
            r@ == default_record(Tag::Error),
    {
        let inner = Error { code: 0, message: String::new(), extra: None };
        proof {
            assert(inner@.fields =~= default_record(Tag::Error).fields);
        }
        RTDErrorBuilder { inner }
    }

    /// Error code; subject to future changes. If the error code is 406, the error message must not
    /// be processed in any way and must not be displayed to the user.
    pub fn code(&self) -> (r: i32)
        ensures
            self@.fields[0] == FieldModel::I32(r),
    {
        self.code
    }

    /// Error message; subject to future changes.
    pub fn message(&self) -> (r: &String)
        ensures
            self@.fields[1] == FieldModel::Text(r@),
    {
        &self.message
    }
}

/// Fluent constructor of [`Error`].
pub struct RTDErrorBuilder {
    inner: Error,
}

impl View for RTDErrorBuilder {
    type V = RecordModel;

    closed spec fn view(&self) -> RecordModel {
        self.inner@
    }
}

impl RTDErrorBuilder {
    /// An immutable copy of what has been set so far.
    pub fn build(&self) -> (r: Error)
        ensures
            r@ == self@,
    {
        self.inner.copied()
    }

    /// Sets the correlation id.
    pub fn extra(&mut self, extra: &str) -> (r: &mut Self)
        ensures
            (*r)@ == (RecordModel { extra: Some(extra@), ..old(self)@ }),
            *final(self) == *final(r),
    {
        self.inner.extra = Some(String::from_str(extra));
        self
    }

    /// Sets: error code; subject to future changes. If the error code is 406, the error message
    /// must not be processed in any way and must not be displayed to the user.
    pub fn code(&mut self, code: i32) -> (r: &mut Self)
        ensures
            (*r)@ == with_field(old(self)@, 0, FieldModel::I32(code)),
            *final(self) == *final(r),
    {
        let ghost before = self@;
        self.inner.code = code;
        proof {
            assert(self@.fields =~= with_field(before, 0, FieldModel::I32(code)).fields);
        }
        self
    }

    /// Sets: error message; subject to future changes.
    pub fn message(&mut self, message: &str) -> (r: &mut Self)
        ensures
            (*r)@ == with_field(old(self)@, 1, FieldModel::Text(message@)),
            *final(self) == *final(r),
    {
        let ghost before = self@;
        self.inner.message = String::from_str(message);
        proof {
            assert(self@.fields =~= with_field(before, 1, FieldModel::Text(message@)).fields);
        }
        self
    }
}

} // verus!
