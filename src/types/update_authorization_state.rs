//! The `updateAuthorizationState` record.
use crate::codec::{
    copy_opt_text, from_json, opt_text, outcome, put, read_extra, read_nested, read_tag, unknown,
    write_header, RObject,
};
use crate::errors::RTDResult;
use crate::json::value_model;
use crate::model::{
    decode_members, decode_text, default_record, encode_field, encode_members, header, header_of,
    with_field, FieldModel, RecordModel,
};
use crate::schema::{fields_of, tag_name, Category, Tag};
use crate::types::authorization_state::{AuthorizationState, AuthorizationStateWaitTdlibParameters};
use serde_json::Value;
use vstd::prelude::*;
use vstd::string::*;

verus! {

/// The user authorization state has changed.
#[derive(Debug, Clone)]
pub struct UpdateAuthorizationState {
    /// New authorization state.
    authorization_state: AuthorizationState,
    /// Correlation id: set on a request, echoed on its result.
    extra: Option<String>,
}

impl View for UpdateAuthorizationState {
    type V = RecordModel;

    closed spec fn view(&self) -> RecordModel {
        RecordModel {
            tag: Tag::UpdateAuthorizationState,
            extra: opt_text(self.extra),
            fields: seq![FieldModel::Nested(self.authorization_state@)],
        }
    }
}

impl RObject for UpdateAuthorizationState {
    open spec fn accepted() -> Set<Tag> {
        set![Tag::UpdateAuthorizationState]
    }

    proof fn lemma_view_wf(&self) {
        self.authorization_state.lemma_view_wf();
    }

    fn td_name(&self) -> (r: &'static str) {
        Tag::UpdateAuthorizationState.name()
    }

    fn extra(&self) -> (r: Option<String>) {
        copy_opt_text(&self.extra)
    }

    fn to_value(&self) -> (r: Value) {
        let mut v = write_header(Tag::UpdateAuthorizationState, &self.extra);
        put(&mut v, "authorization_state", self.authorization_state.to_value());
        proof {
            reveal_with_fuel(encode_members, 2);
            assert(self@.fields[0] == FieldModel::Nested(self.authorization_state@));
            assert(fields_of(Tag::UpdateAuthorizationState)[0].0 == "authorization_state"@);
            assert(self@.fields.len() == 1);
            assert(
                encode_members(self@, 1) == header(self@).insert(
                    "authorization_state"@,
                    encode_field(FieldModel::Nested(self.authorization_state@)),
                )
            );
            assert(header(self@) == header_of(Tag::UpdateAuthorizationState, opt_text(self.extra)));
        }
        v
    }

    fn from_value(v: &Value) -> (r: RTDResult<Self>) {
        let t = match read_tag(v) {
            Ok(t) => t,
            Err(e) => return Err(e),
        };
        if t != Tag::UpdateAuthorizationState {
            return Err(unknown(t));
        }
        let extra = match read_extra(v, t) {
            Ok(x) => x,
            Err(e) => return Err(e),
        };
        Self::read_fields(v, extra)
    }

    fn copied(&self) -> (r: Self) {
        UpdateAuthorizationState {
            authorization_state: self.authorization_state.copied(),
            extra: copy_opt_text(&self.extra),
        }
    }
}

impl UpdateAuthorizationState {
    /// Reads the declared fields of an object of this shape.
    pub(crate) fn read_fields(v: &Value, extra: Option<String>) -> (r: RTDResult<Self>)
        requires
            value_model(*v) is Obj,
        ensures
            match decode_members(
                value_model(*v),
                tag_name(Tag::UpdateAuthorizationState),
                Tag::UpdateAuthorizationState,
                1,
            ) {
                Ok(fs) => r is Ok && r->Ok_0@ == (
                    RecordModel {
                        tag: Tag::UpdateAuthorizationState,
                        extra: opt_text(extra),
                        fields: fs,
                    }
                ),
                Err(e) => r is Err && r->Err_0@ == e,
            },
    {
        proof {
            reveal_with_fuel(decode_members, 2);
        }
        let authorization_state = match read_nested::<AuthorizationState>(
            v,
            Tag::UpdateAuthorizationState,
            "authorization_state",
            Category::AuthorizationState,
        ) {
            Ok(x) => x,
            Err(e) => return Err(e),
        };
        let r = UpdateAuthorizationState { authorization_state, extra };
        proof {
            assert(
                Seq::<FieldModel>::empty().push(FieldModel::Nested(r.authorization_state@)) =~= r@.fields
            );
        }
        Ok(r)
    }

    /// Decodes a text as this record.
    pub fn from_json(json: &str) -> (r: RTDResult<Self>)
        ensures
            outcome(r) == decode_text(json@, set![Tag::UpdateAuthorizationState]),
    {
        from_json::<Self>(json)
    }

    /// A builder holding this shape with every field at its zero value.
    pub fn builder() -> (r: RTDUpdateAuthorizationStateBuilder)
        ensures
            r@ == default_record(Tag::UpdateAuthorizationState),
    {
        let inner = UpdateAuthorizationState {
            authorization_state: AuthorizationState::WaitTdlibParameters(
                AuthorizationStateWaitTdlibParameters::builder().build(),
            ),
            extra: None,
        };
        proof {
            assert(
                default_record(Tag::AuthorizationStateWaitTdlibParameters).fields =~= Seq::<FieldModel>::empty()
            );
            assert(inner@.fields =~= default_record(Tag::UpdateAuthorizationState).fields);
        }
        RTDUpdateAuthorizationStateBuilder { inner }
    }

    /// New authorization state.
    pub fn authorization_state(&self) -> (r: &AuthorizationState)
        ensures
            self@.fields[0] == FieldModel::Nested(r@),
    {
        &self.authorization_state
    }
}

/// Fluent constructor of [`UpdateAuthorizationState`].
pub struct RTDUpdateAuthorizationStateBuilder {
    inner: UpdateAuthorizationState,
}

impl View for RTDUpdateAuthorizationStateBuilder {
    type V = RecordModel;

    closed spec fn view(&self) -> RecordModel {
        self.inner@
    }
}

impl RTDUpdateAuthorizationStateBuilder {
    /// An immutable copy of what has been set so far.
    pub fn build(&self) -> (r: UpdateAuthorizationState)
        ensures
            r@ == self@,
    {
        self.inner.copied()
    }

    /// Sets the correlation id.
    pub fn extra(&mut self, extra: &str) -> (r: &mut Self)
        ensures
            (*r)@ == (RecordModel { extra: Some(extra@), ..old(self)@ }),
            *final(self) == *final(r),
    {
        self.inner.extra = Some(String::from_str(extra));
        self
    }

    /// Sets: new authorization state.
    pub fn authorization_state(&mut self, authorization_state: AuthorizationState) -> (r: &mut Self)
        ensures
            (*r)@ == with_field(old(self)@, 0, FieldModel::Nested(authorization_state@)),
            *final(self) == *final(r),
    {
        let ghost before = self@;
        self.inner.authorization_state = authorization_state;
        proof {
            assert(
                self@.fields =~= with_field(
                    before,
                    0,
                    FieldModel::Nested(authorization_state@),
                ).fields
            );
        }
        self
    }
}

} // verus!
