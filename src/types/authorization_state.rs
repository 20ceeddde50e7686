//! The authorization-state category: the states of the engine's login
//! flow, each a record of its own.
use crate::codec::{
    bool_json, copy_opt_object, copy_opt_text, from_json, object_json, opt_object, opt_object_json,
    opt_text, outcome, put, read_bool, read_extra, read_object, read_opt_object, read_tag,
    read_text, text_json, unknown, write_header, RObject,
};
use crate::errors::RTDResult;
use crate::json::{value_model, JsonObject};
use crate::model::{
    decode_members, decode_text, default_record, encode_field, encode_members, header, header_of,
    with_field, FieldModel, RecordModel,
};
use crate::schema::{fields_of, tag_name, Category, Tag};
use crate::schema::members;
use serde_json::Value;
use vstd::prelude::*;
use vstd::string::*;

verus! {

/// The engine needs its parameters for initialization.
#[derive(Debug, Clone)]
pub struct AuthorizationStateWaitTdlibParameters {
    /// Correlation id: set on a request, echoed on its result.
    extra: Option<String>,
}

impl View for AuthorizationStateWaitTdlibParameters {
    type V = RecordModel;

    closed spec fn view(&self) -> RecordModel {
        RecordModel {
            tag: Tag::AuthorizationStateWaitTdlibParameters,
            extra: opt_text(self.extra),
            fields: seq![],
        }
    }
}

impl RObject for AuthorizationStateWaitTdlibParameters {
    open spec fn accepted() -> Set<Tag> {
        set![Tag::AuthorizationStateWaitTdlibParameters]
    }

    proof fn lemma_view_wf(&self) {
    }

    fn td_name(&self) -> (r: &'static str) {
        Tag::AuthorizationStateWaitTdlibParameters.name()
    }

    fn extra(&self) -> (r: Option<String>) {
        copy_opt_text(&self.extra)
    }

    fn to_value(&self) -> (r: Value) {
        let v = write_header(Tag::AuthorizationStateWaitTdlibParameters, &self.extra);
        proof {
            reveal_with_fuel(encode_members, 1);
            assert(self@.fields.len() == 0);
            assert(encode_members(self@, 0) == header(self@));
            assert(
                header(self@) == header_of(
                    Tag::AuthorizationStateWaitTdlibParameters,
                    opt_text(self.extra),
                )
            );
        }
        v
    }

    fn from_value(v: &Value) -> (r: RTDResult<Self>) {
        let t = match read_tag(v) {
            Ok(t) => t,
            Err(e) => return Err(e),
        };
        if t != Tag::AuthorizationStateWaitTdlibParameters {
            return Err(unknown(t));
        }
        let extra = match read_extra(v, t) {
            Ok(x) => x,
            Err(e) => return Err(e),
        };
        Self::read_fields(v, extra)
    }

    fn copied(&self) -> (r: Self) {
        AuthorizationStateWaitTdlibParameters { extra: copy_opt_text(&self.extra) }
    }
}

impl AuthorizationStateWaitTdlibParameters {
    /// Reads the declared fields of an object of this shape.
    pub(crate) fn read_fields(v: &Value, extra: Option<String>) -> (r: RTDResult<Self>)
        requires
            value_model(*v) is Obj,
        ensures
            match decode_members(
                value_model(*v),
                tag_name(Tag::AuthorizationStateWaitTdlibParameters),
                Tag::AuthorizationStateWaitTdlibParameters,
                0,
            ) {
                Ok(fs) => r is Ok && r->Ok_0@ == (
                    RecordModel {
                        tag: Tag::AuthorizationStateWaitTdlibParameters,
                        extra: opt_text(extra),
                        fields: fs,
                    }
                ),
                Err(e) => r is Err && r->Err_0@ == e,
            },
    {
        proof {
            reveal_with_fuel(decode_members, 1);
        }
        let r = AuthorizationStateWaitTdlibParameters { extra };
        proof {
            assert(Seq::<FieldModel>::empty() =~= r@.fields);
        }
        Ok(r)
    }

    /// Decodes a text as this record.
    pub fn from_json(json: &str) -> (r: RTDResult<Self>)
        ensures
            outcome(r) == decode_text(json@, set![Tag::AuthorizationStateWaitTdlibParameters]),
    {
        from_json::<Self>(json)
    }

    /// A builder holding this shape with every field at its zero value.
    pub fn builder() -> (r: RTDAuthorizationStateWaitTdlibParametersBuilder)
        ensures
            r@ == default_record(Tag::AuthorizationStateWaitTdlibParameters),
    {
        let inner = AuthorizationStateWaitTdlibParameters { extra: None };
        proof {
            assert(
                inner@.fields =~= default_record(Tag::AuthorizationStateWaitTdlibParameters).fields
            );
        }
        RTDAuthorizationStateWaitTdlibParametersBuilder { inner }
    }
}

/// Fluent constructor of [`AuthorizationStateWaitTdlibParameters`].
pub struct RTDAuthorizationStateWaitTdlibParametersBuilder {
    inner: AuthorizationStateWaitTdlibParameters,
}

impl View for RTDAuthorizationStateWaitTdlibParametersBuilder {
    type V = RecordModel;

    closed spec fn view(&self) -> RecordModel {
        self.inner@
    }
}

impl RTDAuthorizationStateWaitTdlibParametersBuilder {
    /// An immutable copy of what has been set so far.
    pub fn build(&self) -> (r: AuthorizationStateWaitTdlibParameters)
        ensures
            r@ == self@,
    {
        self.inner.copied()
    }

    /// Sets the correlation id.
    pub fn extra(&mut self, extra: &str) -> (r: &mut Self)
        ensures
            (*r)@ == (RecordModel { extra: Some(extra@), ..old(self)@ }),
            *final(self) == *final(r),
    {
        self.inner.extra = Some(String::from_str(extra));
        self
    }
}

/// The engine needs an encryption key to decrypt the local database.
#[derive(Debug, Clone)]
pub struct AuthorizationStateWaitEncryptionKey {
    /// True, if the database is currently encrypted.
    is_encrypted: bool,
    /// Correlation id: set on a request, echoed on its result.
    extra: Option<String>,
}

impl View for AuthorizationStateWaitEncryptionKey {
    type V = RecordModel;

    closed spec fn view(&self) -> RecordModel {
        RecordModel {
            tag: Tag::AuthorizationStateWaitEncryptionKey,
            extra: opt_text(self.extra),
            fields: seq![FieldModel::Bool(self.is_encrypted)],
        }
    }
}

impl RObject for AuthorizationStateWaitEncryptionKey {
    open spec fn accepted() -> Set<Tag> {
        set![Tag::AuthorizationStateWaitEncryptionKey]
    }

    proof fn lemma_view_wf(&self) {
    }

    fn td_name(&self) -> (r: &'static str) {
        Tag::AuthorizationStateWaitEncryptionKey.name()
    }

    fn extra(&self) -> (r: Option<String>) {
        copy_opt_text(&self.extra)
    }

    fn to_value(&self) -> (r: Value) {
        let mut v = write_header(Tag::AuthorizationStateWaitEncryptionKey, &self.extra);
        put(&mut v, "is_encrypted", bool_json(self.is_encrypted));
        proof {
            reveal_with_fuel(encode_members, 2);
            assert(self@.fields[0] == FieldModel::Bool(self.is_encrypted));
            assert(fields_of(Tag::AuthorizationStateWaitEncryptionKey)[0].0 == "is_encrypted"@);
            assert(self@.fields.len() == 1);
            assert(
                encode_members(self@, 1) == header(self@).insert(
                    "is_encrypted"@,
                    encode_field(FieldModel::Bool(self.is_encrypted)),
                )
            );
            assert(
                header(self@) == header_of(
                    Tag::AuthorizationStateWaitEncryptionKey,
                    opt_text(self.extra),
                )
            );
        }
        v
    }

    fn from_value(v: &Value) -> (r: RTDResult<Self>) {
        let t = match read_tag(v) {
            Ok(t) => t,
            Err(e) => return Err(e),
        };
        if t != Tag::AuthorizationStateWaitEncryptionKey {
            return Err(unknown(t));
        }
        let extra = match read_extra(v, t) {
            Ok(x) => x,
            Err(e) => return Err(e),
        };
        Self::read_fields(v, extra)
    }

    fn copied(&self) -> (r: Self) {
        AuthorizationStateWaitEncryptionKey {
            is_encrypted: self.is_encrypted,
            extra: copy_opt_text(&self.extra),
        }
    }
}

impl AuthorizationStateWaitEncryptionKey {
    /// Reads the declared fields of an object of this shape.
    pub(crate) fn read_fields(v: &Value, extra: Option<String>) -> (r: RTDResult<Self>)
        requires
            value_model(*v) is Obj,
        ensures
            match decode_members(
                value_model(*v),
                tag_name(Tag::AuthorizationStateWaitEncryptionKey),
                Tag::AuthorizationStateWaitEncryptionKey,
                1,
            ) {
                Ok(fs) => r is Ok && r->Ok_0@ == (
                    RecordModel {
                        tag: Tag::AuthorizationStateWaitEncryptionKey,
                        extra: opt_text(extra),
                        fields: fs,
                    }
                ),
                Err(e) => r is Err && r->Err_0@ == e,
            },
    {
        proof {
            reveal_with_fuel(decode_members, 2);
        }
        let is_encrypted = match read_bool(
            v,
            Tag::AuthorizationStateWaitEncryptionKey,
            "is_encrypted",
        ) {
            Ok(x) => x,
            Err(e) => return Err(e),
        };
        let r = AuthorizationStateWaitEncryptionKey { is_encrypted, extra };
        proof {
            assert(Seq::<FieldModel>::empty().push(FieldModel::Bool(r.is_encrypted)) =~= r@.fields);
        }
        Ok(r)
    }

    /// Decodes a text as this record.
    pub fn from_json(json: &str) -> (r: RTDResult<Self>)
        ensures
            outcome(r) == decode_text(json@, set![Tag::AuthorizationStateWaitEncryptionKey]),
    {
        from_json::<Self>(json)
    }

    /// A builder holding this shape with every field at its zero value.
    pub fn builder() -> (r: RTDAuthorizationStateWaitEncryptionKeyBuilder)
        ensures
            r@ == default_record(Tag::AuthorizationStateWaitEncryptionKey),
    {
        let inner = AuthorizationStateWaitEncryptionKey { is_encrypted: false, extra: None };
        proof {
            assert(
                inner@.fields =~= default_record(Tag::AuthorizationStateWaitEncryptionKey).fields
            );
        }
        RTDAuthorizationStateWaitEncryptionKeyBuilder { inner }
    }

    /// True, if the database is currently encrypted.
    pub fn is_encrypted(&self) -> (r: bool)
        ensures
            self@.fields[0] == FieldModel::Bool(r),
    {
        self.is_encrypted
    }
}

/// Fluent constructor of [`AuthorizationStateWaitEncryptionKey`].
pub struct RTDAuthorizationStateWaitEncryptionKeyBuilder {
    inner: AuthorizationStateWaitEncryptionKey,
}

impl View for RTDAuthorizationStateWaitEncryptionKeyBuilder {
    type V = RecordModel;

    closed spec fn view(&self) -> RecordModel {
        self.inner@
    }
}

impl RTDAuthorizationStateWaitEncryptionKeyBuilder {
    /// An immutable copy of what has been set so far.
    pub fn build(&self) -> (r: AuthorizationStateWaitEncryptionKey)
        ensures
            r@ == self@,
    {
        self.inner.copied()
    }

    /// Sets the correlation id.
    pub fn extra(&mut self, extra: &str) -> (r: &mut Self)
        ensures
            (*r)@ == (RecordModel { extra: Some(extra@), ..old(self)@ }),
            *final(self) == *final(r),
    {
        self.inner.extra = Some(String::from_str(extra));
        self
    }

    /// Sets: true, if the database is currently encrypted.
    pub fn is_encrypted(&mut self, is_encrypted: bool) -> (r: &mut Self)
        ensures
            (*r)@ == with_field(old(self)@, 0, FieldModel::Bool(is_encrypted)),
            *final(self) == *final(r),
    {
        let ghost before = self@;
        self.inner.is_encrypted = is_encrypted;
        proof {
            assert(self@.fields =~= with_field(before, 0, FieldModel::Bool(is_encrypted)).fields);
        }
        self
    }
}

/// The user's phone number is needed to authorize.
#[derive(Debug, Clone)]
pub struct AuthorizationStateWaitPhoneNumber {
    /// Correlation id: set on a request, echoed on its result.
    extra: Option<String>,
}

impl View for AuthorizationStateWaitPhoneNumber {
    type V = RecordModel;

    closed spec fn view(&self) -> RecordModel {
        RecordModel {
            tag: Tag::AuthorizationStateWaitPhoneNumber,
            extra: opt_text(self.extra),
            fields: seq![],
        }
    }
}

impl RObject for AuthorizationStateWaitPhoneNumber {
    open spec fn accepted() -> Set<Tag> {
        set![Tag::AuthorizationStateWaitPhoneNumber]
    }

    proof fn lemma_view_wf(&self) {
    }

    fn td_name(&self) -> (r: &'static str) {
        Tag::AuthorizationStateWaitPhoneNumber.name()
    }

    fn extra(&self) -> (r: Option<String>) {
        copy_opt_text(&self.extra)
    }

    fn to_value(&self) -> (r: Value) {
        let v = write_header(Tag::AuthorizationStateWaitPhoneNumber, &self.extra);
        proof {
            reveal_with_fuel(encode_members, 1);
            assert(self@.fields.len() == 0);
            assert(encode_members(self@, 0) == header(self@));
            assert(
                header(self@) == header_of(
                    Tag::AuthorizationStateWaitPhoneNumber,
                    opt_text(self.extra),
                )
            );
        }
        v
    }

    fn from_value(v: &Value) -> (r: RTDResult<Self>) {
        let t = match read_tag(v) {
            Ok(t) => t,
            Err(e) => return Err(e),
        };
        if t != Tag::AuthorizationStateWaitPhoneNumber {
            return Err(unknown(t));
        }
        let extra = match read_extra(v, t) {
            Ok(x) => x,
            Err(e) => return Err(e),
        };
        Self::read_fields(v, extra)
    }

    fn copied(&self) -> (r: Self) {
        AuthorizationStateWaitPhoneNumber { extra: copy_opt_text(&self.extra) }
    }
}

impl AuthorizationStateWaitPhoneNumber {
    /// Reads the declared fields of an object of this shape.
    pub(crate) fn read_fields(v: &Value, extra: Option<String>) -> (r: RTDResult<Self>)
        requires
            value_model(*v) is Obj,
        ensures
            match decode_members(
                value_model(*v),
                tag_name(Tag::AuthorizationStateWaitPhoneNumber),
                Tag::AuthorizationStateWaitPhoneNumber,
                0,
            ) {
                Ok(fs) => r is Ok && r->Ok_0@ == (
                    RecordModel {
                        tag: Tag::AuthorizationStateWaitPhoneNumber,
                        extra: opt_text(extra),
                        fields: fs,
                    }
                ),
                Err(e) => r is Err && r->Err_0@ == e,
            },
    {
        proof {
            reveal_with_fuel(decode_members, 1);
        }
        let r = AuthorizationStateWaitPhoneNumber { extra };
        proof {
            assert(Seq::<FieldModel>::empty() =~= r@.fields);
        }
        Ok(r)
    }

    /// Decodes a text as this record.
    pub fn from_json(json: &str) -> (r: RTDResult<Self>)
        ensures
            outcome(r) == decode_text(json@, set![Tag::AuthorizationStateWaitPhoneNumber]),
    {
        from_json::<Self>(json)
    }

    /// A builder holding this shape with every field at its zero value.
    pub fn builder() -> (r: RTDAuthorizationStateWaitPhoneNumberBuilder)
        ensures
            r@ == default_record(Tag::AuthorizationStateWaitPhoneNumber),
    {
        let inner = AuthorizationStateWaitPhoneNumber { extra: None };
        proof {
            assert(inner@.fields =~= default_record(Tag::AuthorizationStateWaitPhoneNumber).fields);
        }
        RTDAuthorizationStateWaitPhoneNumberBuilder { inner }
    }
}

/// Fluent constructor of [`AuthorizationStateWaitPhoneNumber`].
pub struct RTDAuthorizationStateWaitPhoneNumberBuilder {
    inner: AuthorizationStateWaitPhoneNumber,
}

impl View for RTDAuthorizationStateWaitPhoneNumberBuilder {
    type V = RecordModel;

    closed spec fn view(&self) -> RecordModel {
        self.inner@
    }
}

impl RTDAuthorizationStateWaitPhoneNumberBuilder {
    /// An immutable copy of what has been set so far.
    pub fn build(&self) -> (r: AuthorizationStateWaitPhoneNumber)
        ensures
            r@ == self@,
    {
        self.inner.copied()
    }

    /// Sets the correlation id.
    pub fn extra(&mut self, extra: &str) -> (r: &mut Self)
        ensures
            (*r)@ == (RecordModel { extra: Some(extra@), ..old(self)@ }),
            *final(self) == *final(r),
    {
        self.inner.extra = Some(String::from_str(extra));
        self
    }
}

/// An authentication code is needed to confirm the user's phone number.
#[derive(Debug, Clone)]
pub struct AuthorizationStateWaitCode {
    /// True, if the user is already registered.
    is_registered: bool,
    /// Terms of service to be accepted before registration; may be null.
    terms_of_service: Option<JsonObject>,
    /// Information about the authorization code that was sent.
    code_info: JsonObject,
    /// Correlation id: set on a request, echoed on its result.
    extra: Option<String>,
}

impl View for AuthorizationStateWaitCode {
    type V = RecordModel;

    closed spec fn view(&self) -> RecordModel {
        RecordModel {
            tag: Tag::AuthorizationStateWaitCode,
            extra: opt_text(self.extra),
            fields: seq![
                FieldModel::Bool(self.is_registered),
                FieldModel::OptObject(opt_object(self.terms_of_service)),
                FieldModel::Object(self.code_info@),
            ],
        }
    }
}

impl RObject for AuthorizationStateWaitCode {
    open spec fn accepted() -> Set<Tag> {
        set![Tag::AuthorizationStateWaitCode]
    }

    proof fn lemma_view_wf(&self) {
    }

    fn td_name(&self) -> (r: &'static str) {
        Tag::AuthorizationStateWaitCode.name()
    }

    fn extra(&self) -> (r: Option<String>) {
        copy_opt_text(&self.extra)
    }

    fn to_value(&self) -> (r: Value) {
        let mut v = write_header(Tag::AuthorizationStateWaitCode, &self.extra);
        put(&mut v, "is_registered", bool_json(self.is_registered));
        put(&mut v, "terms_of_service", opt_object_json(&self.terms_of_service));
        put(&mut v, "code_info", object_json(&self.code_info));
        proof {
            reveal_with_fuel(encode_members, 4);
            assert(self@.fields[0] == FieldModel::Bool(self.is_registered));
            assert(fields_of(Tag::AuthorizationStateWaitCode)[0].0 == "is_registered"@);
            assert(self@.fields[1] == FieldModel::OptObject(opt_object(self.terms_of_service)));
            assert(fields_of(Tag::AuthorizationStateWaitCode)[1].0 == "terms_of_service"@);
            assert(self@.fields[2] == FieldModel::Object(self.code_info@));
            assert(fields_of(Tag::AuthorizationStateWaitCode)[2].0 == "code_info"@);
            assert(self@.fields.len() == 3);
            assert(encode_members(self@, 3) == header(self@)
                .insert("is_registered"@, encode_field(FieldModel::Bool(self.is_registered)))
                .insert(
                    "terms_of_service"@,
                    encode_field(FieldModel::OptObject(opt_object(self.terms_of_service))),
                )
                .insert("code_info"@, encode_field(FieldModel::Object(self.code_info@))));
            assert(
                header(self@) == header_of(Tag::AuthorizationStateWaitCode, opt_text(self.extra))
            );
        }
        v
    }

    fn from_value(v: &Value) -> (r: RTDResult<Self>) {
        let t = match read_tag(v) {
            Ok(t) => t,
            Err(e) => return Err(e),
        };
        if t != Tag::AuthorizationStateWaitCode {
            return Err(unknown(t));
        }
        let extra = match read_extra(v, t) {
            Ok(x) => x,
            Err(e) => return Err(e),
        };
        Self::read_fields(v, extra)
    }

    fn copied(&self) -> (r: Self) {
        AuthorizationStateWaitCode {
            is_registered: self.is_registered,
            terms_of_service: copy_opt_object(&self.terms_of_service),
            code_info: self.code_info.copied(),
            extra: copy_opt_text(&self.extra),
        }
    }
}

impl AuthorizationStateWaitCode {
    /// Reads the declared fields of an object of this shape.
    pub(crate) fn read_fields(v: &Value, extra: Option<String>) -> (r: RTDResult<Self>)
        requires
            value_model(*v) is Obj,
        ensures
            match decode_members(
                value_model(*v),
                tag_name(Tag::AuthorizationStateWaitCode),
                Tag::AuthorizationStateWaitCode,
                3,
            ) {
                Ok(fs) => r is Ok && r->Ok_0@ == (
                    RecordModel {
                        tag: Tag::AuthorizationStateWaitCode,
                        extra: opt_text(extra),
                        fields: fs,
                    }
                ),
                Err(e) => r is Err && r->Err_0@ == e,
            },
    {
        proof {
            reveal_with_fuel(decode_members, 4);
        }
        let is_registered = match read_bool(v, Tag::AuthorizationStateWaitCode, "is_registered") {
            Ok(x) => x,
            Err(e) => return Err(e),
        };
        let terms_of_service = match read_opt_object(
            v,
            Tag::AuthorizationStateWaitCode,
            "terms_of_service",
        ) {
            Ok(x) => x,
            Err(e) => return Err(e),
        };
        let code_info = match read_object(v, Tag::AuthorizationStateWaitCode, "code_info") {
            Ok(x) => x,
            Err(e) => return Err(e),
        };
        let r = AuthorizationStateWaitCode { is_registered, terms_of_service, code_info, extra };
        proof {
            assert(Seq::<FieldModel>::empty()
                .push(FieldModel::Bool(r.is_registered))
                .push(FieldModel::OptObject(opt_object(r.terms_of_service)))
                .push(FieldModel::Object(r.code_info@)) =~= r@.fields);
        }
        Ok(r)
    }

    /// Decodes a text as this record.
    pub fn from_json(json: &str) -> (r: RTDResult<Self>)
        ensures
            outcome(r) == decode_text(json@, set![Tag::AuthorizationStateWaitCode]),
    {
        from_json::<Self>(json)
    }

    /// A builder holding this shape with every field at its zero value.
    pub fn builder() -> (r: RTDAuthorizationStateWaitCodeBuilder)
        ensures
            r@ == default_record(Tag::AuthorizationStateWaitCode),
    {
        let inner = AuthorizationStateWaitCode {
            is_registered: false,
            terms_of_service: None,
            code_info: JsonObject::empty(),
            extra: None,
        };
        proof {
            assert(inner@.fields =~= default_record(Tag::AuthorizationStateWaitCode).fields);
        }
        RTDAuthorizationStateWaitCodeBuilder { inner }
    }

    /// True, if the user is already registered.
    pub fn is_registered(&self) -> (r: bool)
        ensures
            self@.fields[0] == FieldModel::Bool(r),
    {
        self.is_registered
    }

    /// Terms of service to be accepted before registration; may be null.
    pub fn terms_of_service(&self) -> (r: &Option<JsonObject>)
        ensures
            self@.fields[1] == FieldModel::OptObject(opt_object(*r)),
    {
        &self.terms_of_service
    }

    /// Information about the authorization code that was sent.
    pub fn code_info(&self) -> (r: &JsonObject)
        ensures
            self@.fields[2] == FieldModel::Object(r@),
    {
        &self.code_info
    }
}

/// Fluent constructor of [`AuthorizationStateWaitCode`].
pub struct RTDAuthorizationStateWaitCodeBuilder {
    inner: AuthorizationStateWaitCode,
}

impl View for RTDAuthorizationStateWaitCodeBuilder {
    type V = RecordModel;

    closed spec fn view(&self) -> RecordModel {
        self.inner@
    }
}

impl RTDAuthorizationStateWaitCodeBuilder {
    /// An immutable copy of what has been set so far.
    pub fn build(&self) -> (r: AuthorizationStateWaitCode)
        ensures
            r@ == self@,
    {
        self.inner.copied()
    }

    /// Sets the correlation id.
    pub fn extra(&mut self, extra: &str) -> (r: &mut Self)
        ensures
            (*r)@ == (RecordModel { extra: Some(extra@), ..old(self)@ }),
            *final(self) == *final(r),
    {
        self.inner.extra = Some(String::from_str(extra));
        self
    }

    /// Sets: true, if the user is already registered.
    pub fn is_registered(&mut self, is_registered: bool) -> (r: &mut Self)
        ensures
            (*r)@ == with_field(old(self)@, 0, FieldModel::Bool(is_registered)),
            *final(self) == *final(r),
    {
        let ghost before = self@;
        self.inner.is_registered = is_registered;
        proof {
            assert(self@.fields =~= with_field(before, 0, FieldModel::Bool(is_registered)).fields);
        }
        self
    }

    /// Sets: terms of service to be accepted before registration; may be null.
    pub fn terms_of_service(&mut self, terms_of_service: JsonObject) -> (r: &mut Self)
        ensures
            (*r)@ == with_field(old(self)@, 1, FieldModel::OptObject(Some(terms_of_service@))),
            *final(self) == *final(r),
    {
        let ghost before = self@;
        self.inner.terms_of_service = Some(terms_of_service);
        proof {
            assert(
                self@.fields =~= with_field(
                    before,
                    1,
                    FieldModel::OptObject(Some(terms_of_service@)),
                ).fields
            );
        }
        self
    }

    /// Sets: information about the authorization code that was sent.
    pub fn code_info(&mut self, code_info: JsonObject) -> (r: &mut Self)
        ensures
            (*r)@ == with_field(old(self)@, 2, FieldModel::Object(code_info@)),
            *final(self) == *final(r),
    {
        let ghost before = self@;
        self.inner.code_info = code_info;
        proof {
            assert(self@.fields =~= with_field(before, 2, FieldModel::Object(code_info@)).fields);
        }
        self
    }
}

/// The user has been authorized, but needs to enter a password to start using the application.
#[derive(Debug, Clone)]
pub struct AuthorizationStateWaitPassword {
    /// Hint for the password; may be empty.
    password_hint: String,
    /// True, if a recovery email address has been set up.
    has_recovery_email_address: bool,
    /// Pattern of the email address to which the recovery email was sent; empty until a recovery
    /// email has been sent.
    recovery_email_address_pattern: String,
    /// Correlation id: set on a request, echoed on its result.
    extra: Option<String>,
}

impl View for AuthorizationStateWaitPassword {
    type V = RecordModel;

    closed spec fn view(&self) -> RecordModel {
        RecordModel {
            tag: Tag::AuthorizationStateWaitPassword,
            extra: opt_text(self.extra),
            fields: seq![
                FieldModel::Text(self.password_hint@),
                FieldModel::Bool(self.has_recovery_email_address),
                FieldModel::Text(self.recovery_email_address_pattern@),
            ],
        }
    }
}

impl RObject for AuthorizationStateWaitPassword {
    open spec fn accepted() -> Set<Tag> {
        set![Tag::AuthorizationStateWaitPassword]
    }

    proof fn lemma_view_wf(&self) {
    }

    fn td_name(&self) -> (r: &'static str) {
        Tag::AuthorizationStateWaitPassword.name()
    }

    fn extra(&self) -> (r: Option<String>) {
        copy_opt_text(&self.extra)
    }

    fn to_value(&self) -> (r: Value) {
        let mut v = write_header(Tag::AuthorizationStateWaitPassword, &self.extra);
        put(&mut v, "password_hint", text_json(&self.password_hint));
        put(&mut v, "has_recovery_email_address", bool_json(self.has_recovery_email_address));
        put(
            &mut v,
            "recovery_email_address_pattern",
            text_json(&self.recovery_email_address_pattern),
        );
        proof {
            reveal_with_fuel(encode_members, 4);
            assert(self@.fields[0] == FieldModel::Text(self.password_hint@));
            assert(fields_of(Tag::AuthorizationStateWaitPassword)[0].0 == "password_hint"@);
            assert(self@.fields[1] == FieldModel::Bool(self.has_recovery_email_address));
            assert(
                fields_of(Tag::AuthorizationStateWaitPassword)[1].0 == "has_recovery_email_address"@
            );
            assert(self@.fields[2] == FieldModel::Text(self.recovery_email_address_pattern@));
            assert(
                fields_of(Tag::AuthorizationStateWaitPassword)[2].0 == "recovery_email_address_pattern"@
            );
            assert(self@.fields.len() == 3);
            assert(encode_members(self@, 3) == header(self@)
                .insert("password_hint"@, encode_field(FieldModel::Text(self.password_hint@)))
                .insert(
                    "has_recovery_email_address"@,
                    encode_field(FieldModel::Bool(self.has_recovery_email_address)),
                )
                .insert(
                    "recovery_email_address_pattern"@,
                    encode_field(FieldModel::Text(self.recovery_email_address_pattern@)),
                ));
            assert(
                header(self@) == header_of(
                    Tag::AuthorizationStateWaitPassword,
                    opt_text(self.extra),
                )
            );
        }
        v
    }

    fn from_value(v: &Value) -> (r: RTDResult<Self>) {
        let t = match read_tag(v) {
            Ok(t) => t,
            Err(e) => return Err(e),
        };
        if t != Tag::AuthorizationStateWaitPassword {
            return Err(unknown(t));
        }
        let extra = match read_extra(v, t) {
            Ok(x) => x,
            Err(e) => return Err(e),
        };
        Self::read_fields(v, extra)
    }

    fn copied(&self) -> (r: Self) {
        AuthorizationStateWaitPassword {
            password_hint: self.password_hint.clone(),
            has_recovery_email_address: self.has_recovery_email_address,
            recovery_email_address_pattern: self.recovery_email_address_pattern.clone(),
            extra: copy_opt_text(&self.extra),
        }
    }
}

impl AuthorizationStateWaitPassword {
    /// Reads the declared fields of an object of this shape.
    pub(crate) fn read_fields(v: &Value, extra: Option<String>) -> (r: RTDResult<Self>)
        requires
            value_model(*v) is Obj,
        ensures
            match decode_members(
                value_model(*v),
                tag_name(Tag::AuthorizationStateWaitPassword),
                Tag::AuthorizationStateWaitPassword,
                3,
            ) {
                Ok(fs) => r is Ok && r->Ok_0@ == (
                    RecordModel {
                        tag: Tag::AuthorizationStateWaitPassword,
                        extra: opt_text(extra),
                        fields: fs,
                    }
                ),
                Err(e) => r is Err && r->Err_0@ == e,
            },
    {
        proof {
            reveal_with_fuel(decode_members, 4);
        }
        let password_hint = match read_text(
            v,
            Tag::AuthorizationStateWaitPassword,
            "password_hint",
        ) {
            Ok(x) => x,
            Err(e) => return Err(e),
        };
        let has_recovery_email_address = match read_bool(
            v,
            Tag::AuthorizationStateWaitPassword,
            "has_recovery_email_address",
        ) {
            Ok(x) => x,
            Err(e) => return Err(e),
        };
        let recovery_email_address_pattern = match read_text(
            v,
            Tag::AuthorizationStateWaitPassword,
            "recovery_email_address_pattern",
        ) {
            Ok(x) => x,
            Err(e) => return Err(e),
        };
        let r = AuthorizationStateWaitPassword {
            password_hint,
            has_recovery_email_address,
            recovery_email_address_pattern,
            extra,
        };
        proof {
            assert(Seq::<FieldModel>::empty()
                .push(FieldModel::Text(r.password_hint@))
                .push(FieldModel::Bool(r.has_recovery_email_address))
                .push(FieldModel::Text(r.recovery_email_address_pattern@)) =~= r@.fields);
        }
        Ok(r)
    }

    /// Decodes a text as this record.
    pub fn from_json(json: &str) -> (r: RTDResult<Self>)
        ensures
            outcome(r) == decode_text(json@, set![Tag::AuthorizationStateWaitPassword]),
    {
        from_json::<Self>(json)
    }

    /// A builder holding this shape with every field at its zero value.
    pub fn builder() -> (r: RTDAuthorizationStateWaitPasswordBuilder)
        ensures
            r@ == default_record(Tag::AuthorizationStateWaitPassword),
    {
        let inner = AuthorizationStateWaitPassword {
            password_hint: String::new(),
            has_recovery_email_address: false,
            recovery_email_address_pattern: String::new(),
            extra: None,
        };
        proof {
            assert(inner@.fields =~= default_record(Tag::AuthorizationStateWaitPassword).fields);
        }
        RTDAuthorizationStateWaitPasswordBuilder { inner }
    }

    /// Hint for the password; may be empty.
    pub fn password_hint(&self) -> (r: &String)
        ensures
            self@.fields[0] == FieldModel::Text(r@),
    {
        &self.password_hint
    }

    /// True, if a recovery email address has been set up.
    pub fn has_recovery_email_address(&self) -> (r: bool)
        ensures
            self@.fields[1] == FieldModel::Bool(r),
    {
        self.has_recovery_email_address
    }

    /// Pattern of the email address to which the recovery email was sent; empty until a recovery
    /// email has been sent.
    pub fn recovery_email_address_pattern(&self) -> (r: &String)
        ensures
            self@.fields[2] == FieldModel::Text(r@),
    {
        &self.recovery_email_address_pattern
    }
}

/// Fluent constructor of [`AuthorizationStateWaitPassword`].
pub struct RTDAuthorizationStateWaitPasswordBuilder {
    inner: AuthorizationStateWaitPassword,
}

impl View for RTDAuthorizationStateWaitPasswordBuilder {
    type V = RecordModel;

    closed spec fn view(&self) -> RecordModel {
        self.inner@
    }
}

impl RTDAuthorizationStateWaitPasswordBuilder {
    /// An immutable copy of what has been set so far.
    pub fn build(&self) -> (r: AuthorizationStateWaitPassword)
        ensures
            r@ == self@,
    {
        self.inner.copied()
    }

    /// Sets the correlation id.
    pub fn extra(&mut self, extra: &str) -> (r: &mut Self)
        ensures
            (*r)@ == (RecordModel { extra: Some(extra@), ..old(self)@ }),
            *final(self) == *final(r),
    {
        self.inner.extra = Some(String::from_str(extra));
        self
    }

    /// Sets: hint for the password; may be empty.
    pub fn password_hint(&mut self, password_hint: &str) -> (r: &mut Self)
        ensures
            (*r)@ == with_field(old(self)@, 0, FieldModel::Text(password_hint@)),
            *final(self) == *final(r),
    {
        let ghost before = self@;
        self.inner.password_hint = String::from_str(password_hint);
        proof {
            assert(self@.fields =~= with_field(before, 0, FieldModel::Text(password_hint@)).fields);
        }
        self
    }

    /// Sets: true, if a recovery email address has been set up.
    pub fn has_recovery_email_address(&mut self, has_recovery_email_address: bool) -> (r: &mut Self)
        ensures
            (*r)@ == with_field(old(self)@, 1, FieldModel::Bool(has_recovery_email_address)),
            *final(self) == *final(r),
    {
        let ghost before = self@;
        self.inner.has_recovery_email_address = has_recovery_email_address;
        proof {
            assert(
                self@.fields =~= with_field(
                    before,
                    1,
                    FieldModel::Bool(has_recovery_email_address),
                ).fields
            );
        }
        self
    }

    /// Sets: pattern of the email address to which the recovery email was sent; empty until a
    /// recovery email has been sent.
    pub fn recovery_email_address_pattern(&mut self, recovery_email_address_pattern: &str) -> (
        r: &mut Self
    )
        ensures
            (*r)@ == with_field(old(self)@, 2, FieldModel::Text(recovery_email_address_pattern@)),
            *final(self) == *final(r),
    {
        let ghost before = self@;
        self.inner.recovery_email_address_pattern = String::from_str(
            recovery_email_address_pattern,
        );
        proof {
            assert(
                self@.fields =~= with_field(
                    before,
                    2,
                    FieldModel::Text(recovery_email_address_pattern@),
                ).fields
            );
        }
        self
    }
}

/// The user has been successfully authorized.
#[derive(Debug, Clone)]
pub struct AuthorizationStateReady {
    /// Correlation id: set on a request, echoed on its result.
    extra: Option<String>,
}

impl View for AuthorizationStateReady {
    type V = RecordModel;

    closed spec fn view(&self) -> RecordModel {
        RecordModel {
            tag: Tag::AuthorizationStateReady,
            extra: opt_text(self.extra),
            fields: seq![],
        }
    }
}

impl RObject for AuthorizationStateReady {
    open spec fn accepted() -> Set<Tag> {
        set![Tag::AuthorizationStateReady]
    }

    proof fn lemma_view_wf(&self) {
    }

    fn td_name(&self) -> (r: &'static str) {
        Tag::AuthorizationStateReady.name()
    }

    fn extra(&self) -> (r: Option<String>) {
        copy_opt_text(&self.extra)
    }

    fn to_value(&self) -> (r: Value) {
        let v = write_header(Tag::AuthorizationStateReady, &self.extra);
        proof {
            reveal_with_fuel(encode_members, 1);
            assert(self@.fields.len() == 0);
            assert(encode_members(self@, 0) == header(self@));
            assert(header(self@) == header_of(Tag::AuthorizationStateReady, opt_text(self.extra)));
        }
        v
    }

    fn from_value(v: &Value) -> (r: RTDResult<Self>) {
        let t = match read_tag(v) {
            Ok(t) => t,
            Err(e) => return Err(e),
        };
        if t != Tag::AuthorizationStateReady {
            return Err(unknown(t));
        }
        let extra = match read_extra(v, t) {
            Ok(x) => x,
            Err(e) => return Err(e),
        };
        Self::read_fields(v, extra)
    }

    fn copied(&self) -> (r: Self) {
        AuthorizationStateReady { extra: copy_opt_text(&self.extra) }
    }
}

impl AuthorizationStateReady {
    /// Reads the declared fields of an object of this shape.
    pub(crate) fn read_fields(v: &Value, extra: Option<String>) -> (r: RTDResult<Self>)
        requires
            value_model(*v) is Obj,
        ensures
            match decode_members(
                value_model(*v),
                tag_name(Tag::AuthorizationStateReady),
                Tag::AuthorizationStateReady,
                0,
            ) {
                Ok(fs) => r is Ok && r->Ok_0@ == (
                    RecordModel {
                        tag: Tag::AuthorizationStateReady,
                        extra: opt_text(extra),
                        fields: fs,
                    }
                ),
                Err(e) => r is Err && r->Err_0@ == e,
            },
    {
        proof {
            reveal_with_fuel(decode_members, 1);
        }
        let r = AuthorizationStateReady { extra };
        proof {
            assert(Seq::<FieldModel>::empty() =~= r@.fields);
        }
        Ok(r)
    }

    /// Decodes a text as this record.
    pub fn from_json(json: &str) -> (r: RTDResult<Self>)
        ensures
            outcome(r) == decode_text(json@, set![Tag::AuthorizationStateReady]),
    {
        from_json::<Self>(json)
    }

    /// A builder holding this shape with every field at its zero value.
    pub fn builder() -> (r: RTDAuthorizationStateReadyBuilder)
        ensures
            r@ == default_record(Tag::AuthorizationStateReady),
    {
        let inner = AuthorizationStateReady { extra: None };
        proof {
            assert(inner@.fields =~= default_record(Tag::AuthorizationStateReady).fields);
        }
        RTDAuthorizationStateReadyBuilder { inner }
    }
}

/// Fluent constructor of [`AuthorizationStateReady`].
pub struct RTDAuthorizationStateReadyBuilder {
    inner: AuthorizationStateReady,
}

impl View for RTDAuthorizationStateReadyBuilder {
    type V = RecordModel;

    closed spec fn view(&self) -> RecordModel {
        self.inner@
    }
}

impl RTDAuthorizationStateReadyBuilder {
    /// An immutable copy of what has been set so far.
    pub fn build(&self) -> (r: AuthorizationStateReady)
        ensures
            r@ == self@,
    {
        self.inner.copied()
    }

    /// Sets the correlation id.
    pub fn extra(&mut self, extra: &str) -> (r: &mut Self)
        ensures
            (*r)@ == (RecordModel { extra: Some(extra@), ..old(self)@ }),
            *final(self) == *final(r),
    {
        self.inner.extra = Some(String::from_str(extra));
        self
    }
}

/// The user is currently logging out.
#[derive(Debug, Clone)]
pub struct AuthorizationStateLoggingOut {
    /// Correlation id: set on a request, echoed on its result.
    extra: Option<String>,
}

impl View for AuthorizationStateLoggingOut {
    type V = RecordModel;

    closed spec fn view(&self) -> RecordModel {
        RecordModel {
            tag: Tag::AuthorizationStateLoggingOut,
            extra: opt_text(self.extra),
            fields: seq![],
        }
    }
}

impl RObject for AuthorizationStateLoggingOut {
    open spec fn accepted() -> Set<Tag> {
        set![Tag::AuthorizationStateLoggingOut]
    }

    proof fn lemma_view_wf(&self) {
    }

    fn td_name(&self) -> (r: &'static str) {
        Tag::AuthorizationStateLoggingOut.name()
    }

    fn extra(&self) -> (r: Option<String>) {
        copy_opt_text(&self.extra)
    }

    fn to_value(&self) -> (r: Value) {
        let v = write_header(Tag::AuthorizationStateLoggingOut, &self.extra);
        proof {
            reveal_with_fuel(encode_members, 1);
            assert(self@.fields.len() == 0);
            assert(encode_members(self@, 0) == header(self@));
            assert(
                header(self@) == header_of(Tag::AuthorizationStateLoggingOut, opt_text(self.extra))
            );
        }
        v
    }

    fn from_value(v: &Value) -> (r: RTDResult<Self>) {
        let t = match read_tag(v) {
            Ok(t) => t,
            Err(e) => return Err(e),
        };
        if t != Tag::AuthorizationStateLoggingOut {
            return Err(unknown(t));
        }
        let extra = match read_extra(v, t) {
            Ok(x) => x,
            Err(e) => return Err(e),
        };
        Self::read_fields(v, extra)
    }

    fn copied(&self) -> (r: Self) {
        AuthorizationStateLoggingOut { extra: copy_opt_text(&self.extra) }
    }
}

impl AuthorizationStateLoggingOut {
    /// Reads the declared fields of an object of this shape.
    pub(crate) fn read_fields(v: &Value, extra: Option<String>) -> (r: RTDResult<Self>)
        requires
            value_model(*v) is Obj,
        ensures
            match decode_members(
                value_model(*v),
                tag_name(Tag::AuthorizationStateLoggingOut),
                Tag::AuthorizationStateLoggingOut,
                0,
            ) {
                Ok(fs) => r is Ok && r->Ok_0@ == (
                    RecordModel {
                        tag: Tag::AuthorizationStateLoggingOut,
                        extra: opt_text(extra),
                        fields: fs,
                    }
                ),
                Err(e) => r is Err && r->Err_0@ == e,
            },
    {
        proof {
            reveal_with_fuel(decode_members, 1);
        }
        let r = AuthorizationStateLoggingOut { extra };
        proof {
            assert(Seq::<FieldModel>::empty() =~= r@.fields);
        }
        Ok(r)
    }

    /// Decodes a text as this record.
    pub fn from_json(json: &str) -> (r: RTDResult<Self>)
        ensures
            outcome(r) == decode_text(json@, set![Tag::AuthorizationStateLoggingOut]),
    {
        from_json::<Self>(json)
    }

    /// A builder holding this shape with every field at its zero value.
    pub fn builder() -> (r: RTDAuthorizationStateLoggingOutBuilder)
        ensures
            r@ == default_record(Tag::AuthorizationStateLoggingOut),
    {
        let inner = AuthorizationStateLoggingOut { extra: None };
        proof {
            assert(inner@.fields =~= default_record(Tag::AuthorizationStateLoggingOut).fields);
        }
        RTDAuthorizationStateLoggingOutBuilder { inner }
    }
}

/// Fluent constructor of [`AuthorizationStateLoggingOut`].
pub struct RTDAuthorizationStateLoggingOutBuilder {
    inner: AuthorizationStateLoggingOut,
}

impl View for RTDAuthorizationStateLoggingOutBuilder {
    type V = RecordModel;

    closed spec fn view(&self) -> RecordModel {
        self.inner@
    }
}

impl RTDAuthorizationStateLoggingOutBuilder {
    /// An immutable copy of what has been set so far.
    pub fn build(&self) -> (r: AuthorizationStateLoggingOut)
        ensures
            r@ == self@,
    {
        self.inner.copied()
    }

    /// Sets the correlation id.
    pub fn extra(&mut self, extra: &str) -> (r: &mut Self)
        ensures
            (*r)@ == (RecordModel { extra: Some(extra@), ..old(self)@ }),
            *final(self) == *final(r),
    {
        self.inner.extra = Some(String::from_str(extra));
        self
    }
}

/// The engine is closing; all resources will be freed soon.
#[derive(Debug, Clone)]
pub struct AuthorizationStateClosing {
    /// Correlation id: set on a request, echoed on its result.
    extra: Option<String>,
}

impl View for AuthorizationStateClosing {
    type V = RecordModel;

    closed spec fn view(&self) -> RecordModel {
        RecordModel {
            tag: Tag::AuthorizationStateClosing,
            extra: opt_text(self.extra),
            fields: seq![],
        }
    }
}

impl RObject for AuthorizationStateClosing {
    open spec fn accepted() -> Set<Tag> {
        set![Tag::AuthorizationStateClosing]
    }

    proof fn lemma_view_wf(&self) {
    }

    fn td_name(&self) -> (r: &'static str) {
        Tag::AuthorizationStateClosing.name()
    }

    fn extra(&self) -> (r: Option<String>) {
        copy_opt_text(&self.extra)
    }

    fn to_value(&self) -> (r: Value) {
        let v = write_header(Tag::AuthorizationStateClosing, &self.extra);
        proof {
            reveal_with_fuel(encode_members, 1);
            assert(self@.fields.len() == 0);
            assert(encode_members(self@, 0) == header(self@));
            assert(
                header(self@) == header_of(Tag::AuthorizationStateClosing, opt_text(self.extra))
            );
        }
        v
    }

    fn from_value(v: &Value) -> (r: RTDResult<Self>) {
        let t = match read_tag(v) {
            Ok(t) => t,
            Err(e) => return Err(e),
        };
        if t != Tag::AuthorizationStateClosing {
            return Err(unknown(t));
        }
        let extra = match read_extra(v, t) {
            Ok(x) => x,
            Err(e) => return Err(e),
        };
        Self::read_fields(v, extra)
    }

    fn copied(&self) -> (r: Self) {
        AuthorizationStateClosing { extra: copy_opt_text(&self.extra) }
    }
}

impl AuthorizationStateClosing {
    /// Reads the declared fields of an object of this shape.
    pub(crate) fn read_fields(v: &Value, extra: Option<String>) -> (r: RTDResult<Self>)
        requires
            value_model(*v) is Obj,
        ensures
            match decode_members(
                value_model(*v),
                tag_name(Tag::AuthorizationStateClosing),
                Tag::AuthorizationStateClosing,
                0,
            ) {
                Ok(fs) => r is Ok && r->Ok_0@ == (
                    RecordModel {
                        tag: Tag::AuthorizationStateClosing,
                        extra: opt_text(extra),
                        fields: fs,
                    }
                ),
                Err(e) => r is Err && r->Err_0@ == e,
            },
    {
        proof {
            reveal_with_fuel(decode_members, 1);
        }
        let r = AuthorizationStateClosing { extra };
        proof {
            assert(Seq::<FieldModel>::empty() =~= r@.fields);
        }
        Ok(r)
    }

    /// Decodes a text as this record.
    pub fn from_json(json: &str) -> (r: RTDResult<Self>)
        ensures
            outcome(r) == decode_text(json@, set![Tag::AuthorizationStateClosing]),
    {
        from_json::<Self>(json)
    }

    /// A builder holding this shape with every field at its zero value.
    pub fn builder() -> (r: RTDAuthorizationStateClosingBuilder)
        ensures
            r@ == default_record(Tag::AuthorizationStateClosing),
    {
        let inner = AuthorizationStateClosing { extra: None };
        proof {
            assert(inner@.fields =~= default_record(Tag::AuthorizationStateClosing).fields);
        }
        RTDAuthorizationStateClosingBuilder { inner }
    }
}

/// Fluent constructor of [`AuthorizationStateClosing`].
pub struct RTDAuthorizationStateClosingBuilder {
    inner: AuthorizationStateClosing,
}

impl View for RTDAuthorizationStateClosingBuilder {
    type V = RecordModel;

    closed spec fn view(&self) -> RecordModel {
        self.inner@
    }
}

impl RTDAuthorizationStateClosingBuilder {
    /// An immutable copy of what has been set so far.
    pub fn build(&self) -> (r: AuthorizationStateClosing)
        ensures
            r@ == self@,
    {
        self.inner.copied()
    }

    /// Sets the correlation id.
    pub fn extra(&mut self, extra: &str) -> (r: &mut Self)
        ensures
            (*r)@ == (RecordModel { extra: Some(extra@), ..old(self)@ }),
            *final(self) == *final(r),
    {
        self.inner.extra = Some(String::from_str(extra));
        self
    }
}

/// The engine has been closed; a new instance is needed for further work.
#[derive(Debug, Clone)]
pub struct AuthorizationStateClosed {
    /// Correlation id: set on a request, echoed on its result.
    extra: Option<String>,
}

impl View for AuthorizationStateClosed {
    type V = RecordModel;

    closed spec fn view(&self) -> RecordModel {
        RecordModel {
            tag: Tag::AuthorizationStateClosed,
            extra: opt_text(self.extra),
            fields: seq![],
        }
    }
}

impl RObject for AuthorizationStateClosed {
    open spec fn accepted() -> Set<Tag> {
        set![Tag::AuthorizationStateClosed]
    }

    proof fn lemma_view_wf(&self) {
    }

    fn td_name(&self) -> (r: &'static str) {
        Tag::AuthorizationStateClosed.name()
    }

    fn extra(&self) -> (r: Option<String>) {
        copy_opt_text(&self.extra)
    }

    fn to_value(&self) -> (r: Value) {
        let v = write_header(Tag::AuthorizationStateClosed, &self.extra);
        proof {
            reveal_with_fuel(encode_members, 1);
            assert(self@.fields.len() == 0);
            assert(encode_members(self@, 0) == header(self@));
            assert(header(self@) == header_of(Tag::AuthorizationStateClosed, opt_text(self.extra)));
        }
        v
    }

    fn from_value(v: &Value) -> (r: RTDResult<Self>) {
        let t = match read_tag(v) {
            Ok(t) => t,
            Err(e) => return Err(e),
        };
        if t != Tag::AuthorizationStateClosed {
            return Err(unknown(t));
        }
        let extra = match read_extra(v, t) {
            Ok(x) => x,
            Err(e) => return Err(e),
        };
        Self::read_fields(v, extra)
    }

    fn copied(&self) -> (r: Self) {
        AuthorizationStateClosed { extra: copy_opt_text(&self.extra) }
    }
}

impl AuthorizationStateClosed {
    /// Reads the declared fields of an object of this shape.
    pub(crate) fn read_fields(v: &Value, extra: Option<String>) -> (r: RTDResult<Self>)
        requires
            value_model(*v) is Obj,
        ensures
            match decode_members(
                value_model(*v),
                tag_name(Tag::AuthorizationStateClosed),
                Tag::AuthorizationStateClosed,
                0,
            ) {
                Ok(fs) => r is Ok && r->Ok_0@ == (
                    RecordModel {
                        tag: Tag::AuthorizationStateClosed,
                        extra: opt_text(extra),
                        fields: fs,
                    }
                ),
                Err(e) => r is Err && r->Err_0@ == e,
            },
    {
        proof {
            reveal_with_fuel(decode_members, 1);
        }
        let r = AuthorizationStateClosed { extra };
        proof {
            assert(Seq::<FieldModel>::empty() =~= r@.fields);
        }
        Ok(r)
    }

    /// Decodes a text as this record.
    pub fn from_json(json: &str) -> (r: RTDResult<Self>)
        ensures
            outcome(r) == decode_text(json@, set![Tag::AuthorizationStateClosed]),
    {
        from_json::<Self>(json)
    }

    /// A builder holding this shape with every field at its zero value.
    pub fn builder() -> (r: RTDAuthorizationStateClosedBuilder)
        ensures
            r@ == default_record(Tag::AuthorizationStateClosed),
    {
        let inner = AuthorizationStateClosed { extra: None };
        proof {
            assert(inner@.fields =~= default_record(Tag::AuthorizationStateClosed).fields);
        }
        RTDAuthorizationStateClosedBuilder { inner }
    }
}

/// Fluent constructor of [`AuthorizationStateClosed`].
pub struct RTDAuthorizationStateClosedBuilder {
    inner: AuthorizationStateClosed,
}

impl View for RTDAuthorizationStateClosedBuilder {
    type V = RecordModel;

    closed spec fn view(&self) -> RecordModel {
        self.inner@
    }
}

impl RTDAuthorizationStateClosedBuilder {
    /// An immutable copy of what has been set so far.
    pub fn build(&self) -> (r: AuthorizationStateClosed)
        ensures
            r@ == self@,
    {
        self.inner.copied()
    }

    /// Sets the correlation id.
    pub fn extra(&mut self, extra: &str) -> (r: &mut Self)
        ensures
            (*r)@ == (RecordModel { extra: Some(extra@), ..old(self)@ }),
            *final(self) == *final(r),
    {
        self.inner.extra = Some(String::from_str(extra));
        self
    }
}

/// Some member of the authorization-state category.
#[derive(Debug, Clone)]
pub enum AuthorizationState {
    WaitTdlibParameters(AuthorizationStateWaitTdlibParameters),
    WaitEncryptionKey(AuthorizationStateWaitEncryptionKey),
    WaitPhoneNumber(AuthorizationStateWaitPhoneNumber),
    WaitCode(AuthorizationStateWaitCode),
    WaitPassword(AuthorizationStateWaitPassword),
    Ready(AuthorizationStateReady),
    LoggingOut(AuthorizationStateLoggingOut),
    Closing(AuthorizationStateClosing),
    Closed(AuthorizationStateClosed),
}

impl View for AuthorizationState {
    type V = RecordModel;

    open spec fn view(&self) -> RecordModel {
        match self {
            AuthorizationState::WaitTdlibParameters(x) => x@,
            AuthorizationState::WaitEncryptionKey(x) => x@,
            AuthorizationState::WaitPhoneNumber(x) => x@,
            AuthorizationState::WaitCode(x) => x@,
            AuthorizationState::WaitPassword(x) => x@,
            AuthorizationState::Ready(x) => x@,
            AuthorizationState::LoggingOut(x) => x@,
            AuthorizationState::Closing(x) => x@,
            AuthorizationState::Closed(x) => x@,
        }
    }
}

impl RObject for AuthorizationState {
    open spec fn accepted() -> Set<Tag> {
        members(Category::AuthorizationState)
    }

    proof fn lemma_view_wf(&self) {
        match self {
            AuthorizationState::WaitTdlibParameters(x) => x.lemma_view_wf(),
            AuthorizationState::WaitEncryptionKey(x) => x.lemma_view_wf(),
            AuthorizationState::WaitPhoneNumber(x) => x.lemma_view_wf(),
            AuthorizationState::WaitCode(x) => x.lemma_view_wf(),
            AuthorizationState::WaitPassword(x) => x.lemma_view_wf(),
            AuthorizationState::Ready(x) => x.lemma_view_wf(),
            AuthorizationState::LoggingOut(x) => x.lemma_view_wf(),
            AuthorizationState::Closing(x) => x.lemma_view_wf(),
            AuthorizationState::Closed(x) => x.lemma_view_wf(),
        }
    }

    fn td_name(&self) -> (r: &'static str) {
        match self {
            AuthorizationState::WaitTdlibParameters(x) => x.td_name(),
            AuthorizationState::WaitEncryptionKey(x) => x.td_name(),
            AuthorizationState::WaitPhoneNumber(x) => x.td_name(),
            AuthorizationState::WaitCode(x) => x.td_name(),
            AuthorizationState::WaitPassword(x) => x.td_name(),
            AuthorizationState::Ready(x) => x.td_name(),
            AuthorizationState::LoggingOut(x) => x.td_name(),
            AuthorizationState::Closing(x) => x.td_name(),
            AuthorizationState::Closed(x) => x.td_name(),
        }
    }

    fn extra(&self) -> (r: Option<String>) {
        match self {
            AuthorizationState::WaitTdlibParameters(x) => x.extra(),
            AuthorizationState::WaitEncryptionKey(x) => x.extra(),
            AuthorizationState::WaitPhoneNumber(x) => x.extra(),
            AuthorizationState::WaitCode(x) => x.extra(),
            AuthorizationState::WaitPassword(x) => x.extra(),
            AuthorizationState::Ready(x) => x.extra(),
            AuthorizationState::LoggingOut(x) => x.extra(),
            AuthorizationState::Closing(x) => x.extra(),
            AuthorizationState::Closed(x) => x.extra(),
        }
    }

    fn to_value(&self) -> (r: Value) {
        match self {
            AuthorizationState::WaitTdlibParameters(x) => x.to_value(),
            AuthorizationState::WaitEncryptionKey(x) => x.to_value(),
            AuthorizationState::WaitPhoneNumber(x) => x.to_value(),
            AuthorizationState::WaitCode(x) => x.to_value(),
            AuthorizationState::WaitPassword(x) => x.to_value(),
            AuthorizationState::Ready(x) => x.to_value(),
            AuthorizationState::LoggingOut(x) => x.to_value(),
            AuthorizationState::Closing(x) => x.to_value(),
            AuthorizationState::Closed(x) => x.to_value(),
        }
    }

    fn copied(&self) -> (r: Self) {
        match self {
            AuthorizationState::WaitTdlibParameters(x) => AuthorizationState::WaitTdlibParameters(
                x.copied(),
            ),
            AuthorizationState::WaitEncryptionKey(x) => AuthorizationState::WaitEncryptionKey(
                x.copied(),
            ),
            AuthorizationState::WaitPhoneNumber(x) => AuthorizationState::WaitPhoneNumber(
                x.copied(),
            ),
            AuthorizationState::WaitCode(x) => AuthorizationState::WaitCode(x.copied()),
            AuthorizationState::WaitPassword(x) => AuthorizationState::WaitPassword(x.copied()),
            AuthorizationState::Ready(x) => AuthorizationState::Ready(x.copied()),
            AuthorizationState::LoggingOut(x) => AuthorizationState::LoggingOut(x.copied()),
            AuthorizationState::Closing(x) => AuthorizationState::Closing(x.copied()),
            AuthorizationState::Closed(x) => AuthorizationState::Closed(x.copied()),
        }
    }

    fn from_value(v: &Value) -> (r: RTDResult<Self>) {
        let t = match read_tag(v) {
            Ok(t) => t,
            Err(e) => return Err(e),
        };
        if !(t.category() == Some(Category::AuthorizationState)) {
            return Err(unknown(t));
        }
        let extra = match read_extra(v, t) {
            Ok(x) => x,
            Err(e) => return Err(e),
        };
        match t {
            Tag::AuthorizationStateWaitTdlibParameters => {
                match AuthorizationStateWaitTdlibParameters::read_fields(v, extra) {
                    Ok(x) => Ok(AuthorizationState::WaitTdlibParameters(x)),
                    Err(e) => Err(e),
                }
            },
            Tag::AuthorizationStateWaitEncryptionKey => {
                match AuthorizationStateWaitEncryptionKey::read_fields(v, extra) {
                    Ok(x) => Ok(AuthorizationState::WaitEncryptionKey(x)),
                    Err(e) => Err(e),
                }
            },
            Tag::AuthorizationStateWaitPhoneNumber => {
                match AuthorizationStateWaitPhoneNumber::read_fields(v, extra) {
                    Ok(x) => Ok(AuthorizationState::WaitPhoneNumber(x)),
                    Err(e) => Err(e),
                }
            },
            Tag::AuthorizationStateWaitCode => {
                match AuthorizationStateWaitCode::read_fields(v, extra) {
                    Ok(x) => Ok(AuthorizationState::WaitCode(x)),
                    Err(e) => Err(e),
                }
            },
            Tag::AuthorizationStateWaitPassword => {
                match AuthorizationStateWaitPassword::read_fields(v, extra) {
                    Ok(x) => Ok(AuthorizationState::WaitPassword(x)),
                    Err(e) => Err(e),
                }
            },
            Tag::AuthorizationStateReady => {
                match AuthorizationStateReady::read_fields(v, extra) {
                    Ok(x) => Ok(AuthorizationState::Ready(x)),
                    Err(e) => Err(e),
                }
            },
            Tag::AuthorizationStateLoggingOut => {
                match AuthorizationStateLoggingOut::read_fields(v, extra) {
                    Ok(x) => Ok(AuthorizationState::LoggingOut(x)),
                    Err(e) => Err(e),
                }
            },
            Tag::AuthorizationStateClosing => {
                match AuthorizationStateClosing::read_fields(v, extra) {
                    Ok(x) => Ok(AuthorizationState::Closing(x)),
                    Err(e) => Err(e),
                }
            },
            Tag::AuthorizationStateClosed => {
                match AuthorizationStateClosed::read_fields(v, extra) {
                    Ok(x) => Ok(AuthorizationState::Closed(x)),
                    Err(e) => Err(e),
                }
            },
            _ => Err(unknown(t)),
        }
    }
}

impl AuthorizationState {
    /// Decodes a text as any member of the category.
    pub fn from_json(json: &str) -> (r: RTDResult<Self>)
        ensures
            outcome(r) == decode_text(json@, Self::accepted()),
    {
        from_json::<Self>(json)
    }
}

} // verus!
