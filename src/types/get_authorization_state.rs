//! The `getAuthorizationState` record.
use crate::codec::{
    copy_opt_text, from_json, opt_text, outcome, read_extra, read_tag, unknown, write_header,
    RFunction, RObject,
};
use crate::errors::RTDResult;
use crate::json::value_model;
use crate::model::{
    decode_members, decode_text, default_record, encode_members, header, header_of, FieldModel,
    RecordModel,
};
use crate::schema::{tag_name, Tag};
use serde_json::Value;
use vstd::prelude::*;
use vstd::string::*;

verus! {

/// Returns the current authorization state; this is an offline request.
#[derive(Debug, Clone)]
pub struct GetAuthorizationState {
    /// Correlation id: set on a request, echoed on its result.
    extra: Option<String>,
}

impl View for GetAuthorizationState {
    type V = RecordModel;

    closed spec fn view(&self) -> RecordModel {
        RecordModel { tag: Tag::GetAuthorizationState, extra: opt_text(self.extra), fields: seq![] }
    }
}

impl RObject for GetAuthorizationState {
    open spec fn accepted() -> Set<Tag> {
        set![Tag::GetAuthorizationState]
    }

    proof fn lemma_view_wf(&self) {
    }

    fn td_name(&self) -> (r: &'static str) {
        Tag::GetAuthorizationState.name()
    }

    fn extra(&self) -> (r: Option<String>) {
        copy_opt_text(&self.extra)
    }

    fn to_value(&self) -> (r: Value) {
        let v = write_header(Tag::GetAuthorizationState, &self.extra);
        proof {
            reveal_with_fuel(encode_members, 1);
            assert(self@.fields.len() == 0);
            assert(encode_members(self@, 0) == header(self@));
            assert(header(self@) == header_of(Tag::GetAuthorizationState, opt_text(self.extra)));
        }
        v
    }

    fn from_value(v: &Value) -> (r: RTDResult<Self>) {
        let t = match read_tag(v) {
            Ok(t) => t,
            Err(e) => return Err(e),
        };
        if t != Tag::GetAuthorizationState {
            return Err(unknown(t));
        }
        let extra = match read_extra(v, t) {
            Ok(x) => x,
            Err(e) => return Err(e),
        };
        Self::read_fields(v, extra)
    }

    fn copied(&self) -> (r: Self) {
        GetAuthorizationState { extra: copy_opt_text(&self.extra) }
    }
}

impl GetAuthorizationState {
    /// Reads the declared fields of an object of this shape.
    pub(crate) fn read_fields(v: &Value, extra: Option<String>) -> (r: RTDResult<Self>)
        requires
            value_model(*v) is Obj,
        ensures
            match decode_members(
                value_model(*v),
                tag_name(Tag::GetAuthorizationState),
                Tag::GetAuthorizationState,
                0,
            ) {
                Ok(fs) => r is Ok && r->Ok_0@ == (
                    RecordModel {
                        tag: Tag::GetAuthorizationState,
                        extra: opt_text(extra),
                        fields: fs,
                    }
                ),
                Err(e) => r is Err && r->Err_0@ == e,
            },
    {
        proof {
            reveal_with_fuel(decode_members, 1);
        }
        let r = GetAuthorizationState { extra };
        proof {
            assert(Seq::<FieldModel>::empty() =~= r@.fields);
        }
        Ok(r)
    }

    /// Decodes a text as this record.
    pub fn from_json(json: &str) -> (r: RTDResult<Self>)
        ensures
            outcome(r) == decode_text(json@, set![Tag::GetAuthorizationState]),
    {
        from_json::<Self>(json)
    }

    /// A builder holding this shape with every field at its zero value.
    pub fn builder() -> (r: RTDGetAuthorizationStateBuilder)
        ensures
            r@ == default_record(Tag::GetAuthorizationState),
    {
        let inner = GetAuthorizationState { extra: None };
        proof {
            assert(inner@.fields =~= default_record(Tag::GetAuthorizationState).fields);
        }
        RTDGetAuthorizationStateBuilder { inner }
    }
}

/// Fluent constructor of [`GetAuthorizationState`].
pub struct RTDGetAuthorizationStateBuilder {
    inner: GetAuthorizationState,
}

impl View for RTDGetAuthorizationStateBuilder {
    type V = RecordModel;

    closed spec fn view(&self) -> RecordModel {
        self.inner@
    }
}

impl RTDGetAuthorizationStateBuilder {
    /// An immutable copy of what has been set so far.
    pub fn build(&self) -> (r: GetAuthorizationState)
        ensures
            r@ == self@,
    {
        self.inner.copied()
    }

    /// Sets the correlation id.
    pub fn extra(&mut self, extra: &str) -> (r: &mut Self)
        ensures
            (*r)@ == (RecordModel { extra: Some(extra@), ..old(self)@ }),
            *final(self) == *final(r),
    {
        self.inner.extra = Some(String::from_str(extra));
        self
    }
}

impl RFunction for GetAuthorizationState {}

} // verus!
