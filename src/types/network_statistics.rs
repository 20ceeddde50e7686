//! The `networkStatistics` record.
use crate::codec::{
    copy_objects, copy_opt_text, from_json, i32_json, objects_json, objects_model, opt_text,
    outcome, put, read_extra, read_i32, read_objects, read_tag, unknown, write_header, RObject,
};
use crate::errors::RTDResult;
use crate::json::{value_model, JsonObject};
use crate::model::{
    decode_members, decode_text, default_record, encode_field, encode_members, header, header_of,
    with_field, FieldModel, RecordModel,
};
use crate::schema::{fields_of, tag_name, Tag};
use serde_json::Value;
use vstd::prelude::*;
use vstd::string::*;

verus! {

/// A full list of available network statistic entries.
#[derive(Debug, Clone)]
pub struct NetworkStatistics {
    /// Point in time (Unix timestamp) when the app began collecting statistics.
    since_date: i32,
    /// Network statistics entries.
    entries: Vec<JsonObject>,
    /// Correlation id: set on a request, echoed on its result.
    extra: Option<String>,
}

impl View for NetworkStatistics {
    type V = RecordModel;

    closed spec fn view(&self) -> RecordModel {
        RecordModel {
            tag: Tag::NetworkStatistics,
            extra: opt_text(self.extra),
            fields: seq![
                FieldModel::I32(self.since_date),
                FieldModel::Objects(objects_model(self.entries@)),
            ],
        }
    }
}

impl RObject for NetworkStatistics {
    open spec fn accepted() -> Set<Tag> {
        set![Tag::NetworkStatistics]
    }

    proof fn lemma_view_wf(&self) {
    }

    fn td_name(&self) -> (r: &'static str) {
        Tag::NetworkStatistics.name()
    }

    fn extra(&self) -> (r: Option<String>) {
        copy_opt_text(&self.extra)
    }

    fn to_value(&self) -> (r: Value) {
        let mut v = write_header(Tag::NetworkStatistics, &self.extra);
        put(&mut v, "since_date", i32_json(self.since_date));
        put(&mut v, "entries", objects_json(&self.entries));
        proof {
            reveal_with_fuel(encode_members, 3);
            assert(self@.fields[0] == FieldModel::I32(self.since_date));
            assert(fields_of(Tag::NetworkStatistics)[0].0 == "since_date"@);
            assert(self@.fields[1] == FieldModel::Objects(objects_model(self.entries@)));
            assert(fields_of(Tag::NetworkStatistics)[1].0 == "entries"@);
            assert(self@.fields.len() == 2);
            assert(encode_members(self@, 2) == header(self@)
                .insert("since_date"@, encode_field(FieldModel::I32(self.since_date)))
                .insert(
                    "entries"@,
                    encode_field(FieldModel::Objects(objects_model(self.entries@))),
                ));
            assert(header(self@) == header_of(Tag::NetworkStatistics, opt_text(self.extra)));
        }
        v
    }

    fn from_value(v: &Value) -> (r: RTDResult<Self>) {
        let t = match read_tag(v) {
            Ok(t) => t,
            Err(e) => return Err(e),
        };
        if t != Tag::NetworkStatistics {
            return Err(unknown(t));
        }
        let extra = match read_extra(v, t) {
            Ok(x) => x,
            Err(e) => return Err(e),
        };
        Self::read_fields(v, extra)
    }

    fn copied(&self) -> (r: Self) {
        NetworkStatistics {
            since_date: self.since_date,
            entries: copy_objects(&self.entries),
            extra: copy_opt_text(&self.extra),
        }
    }
}

impl NetworkStatistics {
    /// Reads the declared fields of an object of this shape.
    pub(crate) fn read_fields(v: &Value, extra: Option<String>) -> (r: RTDResult<Self>)
        requires
            value_model(*v) is Obj,
        ensures
            match decode_members(
                value_model(*v),
                tag_name(Tag::NetworkStatistics),
                Tag::NetworkStatistics,
                2,
            ) {
                Ok(fs) => r is Ok && r->Ok_0@ == (
                    RecordModel { tag: Tag::NetworkStatistics, extra: opt_text(extra), fields: fs }
                ),
                Err(e) => r is Err && r->Err_0@ == e,
            },
    {
        proof {
            reveal_with_fuel(decode_members, 3);
        }
        let since_date = match read_i32(v, Tag::NetworkStatistics, "since_date") {
            Ok(x) => x,
            Err(e) => return Err(e),
        };
        let entries = match read_objects(v, Tag::NetworkStatistics, "entries") {
            Ok(x) => x,
            Err(e) => return Err(e),
        };
        let r = NetworkStatistics { since_date, entries, extra };
        proof {
            assert(Seq::<FieldModel>::empty()
                .push(FieldModel::I32(r.since_date))
                .push(FieldModel::Objects(objects_model(r.entries@))) =~= r@.fields);
        }
        Ok(r)
    }

    /// Decodes a text as this record.
    pub fn from_json(json: &str) -> (r: RTDResult<Self>)
        ensures
            outcome(r) == decode_text(json@, set![Tag::NetworkStatistics]),
    {
        from_json::<Self>(json)
    }

    /// A builder holding this shape with every field at its zero value.
    pub fn builder() -> (r: RTDNetworkStatisticsBuilder)
        ensures
            r@ == default_record(Tag::NetworkStatistics),
    {
        let inner = NetworkStatistics { since_date: 0, entries: Vec::new(), extra: None };
        proof {
            assert(objects_model(inner.entries@) =~= Seq::empty());
            assert(inner@.fields =~= default_record(Tag::NetworkStatistics).fields);
        }
        RTDNetworkStatisticsBuilder { inner }
    }

    /// Point in time (Unix timestamp) when the app began collecting statistics.
    pub fn since_date(&self) -> (r: i32)
        ensures
            self@.fields[0] == FieldModel::I32(r),
    {
        self.since_date
    }

    /// Network statistics entries.
    pub fn entries(&self) -> (r: &Vec<JsonObject>)
        ensures
            self@.fields[1] == FieldModel::Objects(objects_model(r@)),
    {
        &self.entries
    }
}

/// Fluent constructor of [`NetworkStatistics`].
pub struct RTDNetworkStatisticsBuilder {
    inner: NetworkStatistics,
}

impl View for RTDNetworkStatisticsBuilder {
    type V = RecordModel;

    closed spec fn view(&self) -> RecordModel {
        self.inner@
    }
}

impl RTDNetworkStatisticsBuilder {
    /// An immutable copy of what has been set so far.
    pub fn build(&self) -> (r: NetworkStatistics)
        ensures
            r@ == self@,
    {
        self.inner.copied()
    }

    /// Sets the correlation id.
    pub fn extra(&mut self, extra: &str) -> (r: &mut Self)
        ensures
            (*r)@ == (RecordModel { extra: Some(extra@), ..old(self)@ }),
            *final(self) == *final(r),
    {
        self.inner.extra = Some(String::from_str(extra));
        self
    }

    /// Sets: point in time (Unix timestamp) when the app began collecting statistics.
    pub fn since_date(&mut self, since_date: i32) -> (r: &mut Self)
        ensures
            (*r)@ == with_field(old(self)@, 0, FieldModel::I32(since_date)),
            *final(self) == *final(r),
    {
        let ghost before = self@;
        self.inner.since_date = since_date;
        proof {
            assert(self@.fields =~= with_field(before, 0, FieldModel::I32(since_date)).fields);
        }
        self
    }

    /// Sets: network statistics entries.
    pub fn entries(&mut self, entries: Vec<JsonObject>) -> (r: &mut Self)
        ensures
            (*r)@ == with_field(old(self)@, 1, FieldModel::Objects(objects_model(entries@))),
            *final(self) == *final(r),
    {
        let ghost before = self@;
        self.inner.entries = entries;
        proof {
            assert(
                self@.fields =~= with_field(
                    before,
                    1,
                    FieldModel::Objects(objects_model(entries@)),
                ).fields
            );
        }
        self
    }
}

} // verus!
