//! The `testVectorInt` record.
use crate::codec::{
    copy_ints, copy_opt_text, from_json, ints_json, opt_text, outcome, put, read_extra, read_ints,
    read_tag, unknown, write_header, RObject,
};
use crate::errors::RTDResult;
use crate::json::value_model;
use crate::model::{
    decode_members, decode_text, default_record, encode_field, encode_members, header, header_of,
    with_field, FieldModel, RecordModel,
};
use crate::schema::{fields_of, tag_name, Tag};
use serde_json::Value;
use vstd::prelude::*;
use vstd::string::*;

verus! {

/// A simple object containing a vector of numbers; for testing only.
#[derive(Debug, Clone)]
pub struct TestVectorInt {
    /// Vector of numbers.
    value: Vec<i32>,
    /// Correlation id: set on a request, echoed on its result.
    extra: Option<String>,
}

impl View for TestVectorInt {
    type V = RecordModel;

    closed spec fn view(&self) -> RecordModel {
        RecordModel {
            tag: Tag::TestVectorInt,
            extra: opt_text(self.extra),
            fields: seq![FieldModel::Ints(self.value@)],
        }
    }
}

impl RObject for TestVectorInt {
    open spec fn accepted() -> Set<Tag> {
        set![Tag::TestVectorInt]
    }

    proof fn lemma_view_wf(&self) {
    }

    fn td_name(&self) -> (r: &'static str) {
        Tag::TestVectorInt.name()
    }

    fn extra(&self) -> (r: Option<String>) {
        copy_opt_text(&self.extra)
    }

    fn to_value(&self) -> (r: Value) {
        let mut v = write_header(Tag::TestVectorInt, &self.extra);
        put(&mut v, "value", ints_json(&self.value));
        proof {
            reveal_with_fuel(encode_members, 2);
            assert(self@.fields[0] == FieldModel::Ints(self.value@));
            assert(fields_of(Tag::TestVectorInt)[0].0 == "value"@);
            assert(self@.fields.len() == 1);
            assert(
                encode_members(self@, 1) == header(self@).insert(
                    "value"@,
                    encode_field(FieldModel::Ints(self.value@)),
                )
            );
            assert(header(self@) == header_of(Tag::TestVectorInt, opt_text(self.extra)));
        }
        v
    }

    fn from_value(v: &Value) -> (r: RTDResult<Self>) {
        let t = match read_tag(v) {
            Ok(t) => t,
            Err(e) => return Err(e),
        };
        if t != Tag::TestVectorInt {
            return Err(unknown(t));
        }
        let extra = match read_extra(v, t) {
            Ok(x) => x,
            Err(e) => return Err(e),
        };
        Self::read_fields(v, extra)
    }

    fn copied(&self) -> (r: Self) {
        TestVectorInt { value: copy_ints(&self.value), extra: copy_opt_text(&self.extra) }
    }
}

impl TestVectorInt {
    /// Reads the declared fields of an object of this shape.
    pub(crate) fn read_fields(v: &Value, extra: Option<String>) -> (r: RTDResult<Self>)
        requires
            value_model(*v) is Obj,
        ensures
            match decode_members(
                value_model(*v),
                tag_name(Tag::TestVectorInt),
                Tag::TestVectorInt,
                1,
            ) {
                Ok(fs) => r is Ok && r->Ok_0@ == (
                    RecordModel { tag: Tag::TestVectorInt, extra: opt_text(extra), fields: fs }
                ),
                Err(e) => r is Err && r->Err_0@ == e,
            },
    {
        proof {
            reveal_with_fuel(decode_members, 2);
        }
        let value = match read_ints(v, Tag::TestVectorInt, "value") {
            Ok(x) => x,
            Err(e) => return Err(e),
        };
        let r = TestVectorInt { value, extra };
        proof {
            assert(Seq::<FieldModel>::empty().push(FieldModel::Ints(r.value@)) =~= r@.fields);
        }
        Ok(r)
    }

    /// Decodes a text as this record.
    pub fn from_json(json: &str) -> (r: RTDResult<Self>)
        ensures
            outcome(r) == decode_text(json@, set![Tag::TestVectorInt]),
    {
        from_json::<Self>(json)
    }

    /// A builder holding this shape with every field at its zero value.
    pub fn builder() -> (r: RTDTestVectorIntBuilder)
        ensures
            r@ == default_record(Tag::TestVectorInt),
    {
        let inner = TestVectorInt { value: Vec::new(), extra: None };
        proof {
            assert(inner@.fields =~= default_record(Tag::TestVectorInt).fields);
        }
        RTDTestVectorIntBuilder { inner }
    }

    /// Vector of numbers.
    pub fn value(&self) -> (r: &Vec<i32>)
        ensures
            self@.fields[0] == FieldModel::Ints(r@),
    {
        &self.value
    }
}

/// Fluent constructor of [`TestVectorInt`].
pub struct RTDTestVectorIntBuilder {
    inner: TestVectorInt,
}

impl View for RTDTestVectorIntBuilder {
    type V = RecordModel;

    closed spec fn view(&self) -> RecordModel {
        self.inner@
    }
}

impl RTDTestVectorIntBuilder {
    /// An immutable copy of what has been set so far.
    pub fn build(&self) -> (r: TestVectorInt)
        ensures
            r@ == self@,
    {
        self.inner.copied()
    }

    /// Sets the correlation id.
    pub fn extra(&mut self, extra: &str) -> (r: &mut Self)
        ensures
            (*r)@ == (RecordModel { extra: Some(extra@), ..old(self)@ }),
            *final(self) == *final(r),
    {
        self.inner.extra = Some(String::from_str(extra));
        self
    }

    /// Sets: vector of numbers.
    pub fn value(&mut self, value: Vec<i32>) -> (r: &mut Self)
        ensures
            (*r)@ == with_field(old(self)@, 0, FieldModel::Ints(value@)),
            *final(self) == *final(r),
    {
        let ghost before = self@;
        self.inner.value = value;
        proof {
            assert(self@.fields =~= with_field(before, 0, FieldModel::Ints(value@)).fields);
        }
        self
    }
}

} // verus!
