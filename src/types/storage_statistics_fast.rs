//! The `storageStatisticsFast` record.
use crate::codec::{
    copy_opt_text, from_json, i32_json, opt_text, outcome, put, read_extra, read_i32, read_tag,
    unknown, write_header, RObject,
};
use crate::errors::RTDResult;
use crate::json::value_model;
use crate::model::{
    decode_members, decode_text, default_record, encode_field, encode_members, header, header_of,
    with_field, FieldModel, RecordModel,
};
use crate::schema::{fields_of, tag_name, Tag};
use serde_json::Value;
use vstd::prelude::*;
use vstd::string::*;

verus! {

/// Contains approximate storage usage statistics, excluding files of unknown file type.
#[derive(Debug, Clone)]
pub struct StorageStatisticsFast {
    /// Approximate total size of files.
    files_size: i32,
    /// Approximate number of files.
    file_count: i32,
    /// Size of the database.
    database_size: i32,
    /// Size of the language pack database.
    language_pack_database_size: i32,
    /// Size of the internal log.
    log_size: i32,
    /// Correlation id: set on a request, echoed on its result.
    extra: Option<String>,
}

impl View for StorageStatisticsFast {
    type V = RecordModel;

    closed spec fn view(&self) -> RecordModel {
        RecordModel {
            tag: Tag::StorageStatisticsFast,
            extra: opt_text(self.extra),
            fields: seq![
                FieldModel::I32(self.files_size),
                FieldModel::I32(self.file_count),
                FieldModel::I32(self.database_size),
                FieldModel::I32(self.language_pack_database_size),
                FieldModel::I32(self.log_size),
            ],
        }
    }
}

impl RObject for StorageStatisticsFast {
    open spec fn accepted() -> Set<Tag> {
        set![Tag::StorageStatisticsFast]
    }

    proof fn lemma_view_wf(&self) {
    }

    fn td_name(&self) -> (r: &'static str) {
        Tag::StorageStatisticsFast.name()
    }

    fn extra(&self) -> (r: Option<String>) {
        copy_opt_text(&self.extra)
    }

    fn to_value(&self) -> (r: Value) {
        let mut v = write_header(Tag::StorageStatisticsFast, &self.extra);
        put(&mut v, "files_size", i32_json(self.files_size));
        put(&mut v, "file_count", i32_json(self.file_count));
        put(&mut v, "database_size", i32_json(self.database_size));
        put(&mut v, "language_pack_database_size", i32_json(self.language_pack_database_size));
        put(&mut v, "log_size", i32_json(self.log_size));
        proof {
            reveal_with_fuel(encode_members, 6);
            assert(self@.fields[0] == FieldModel::I32(self.files_size));
            assert(fields_of(Tag::StorageStatisticsFast)[0].0 == "files_size"@);
            assert(self@.fields[1] == FieldModel::I32(self.file_count));
            assert(fields_of(Tag::StorageStatisticsFast)[1].0 == "file_count"@);
            assert(self@.fields[2] == FieldModel::I32(self.database_size));
            assert(fields_of(Tag::StorageStatisticsFast)[2].0 == "database_size"@);
            assert(self@.fields[3] == FieldModel::I32(self.language_pack_database_size));
            assert(fields_of(Tag::StorageStatisticsFast)[3].0 == "language_pack_database_size"@);
            assert(self@.fields[4] == FieldModel::I32(self.log_size));
            assert(fields_of(Tag::StorageStatisticsFast)[4].0 == "log_size"@);
            assert(self@.fields.len() == 5);
            assert(encode_members(self@, 5) == header(self@)
                .insert("files_size"@, encode_field(FieldModel::I32(self.files_size)))
                .insert("file_count"@, encode_field(FieldModel::I32(self.file_count)))
                .insert("database_size"@, encode_field(FieldModel::I32(self.database_size)))
                .insert(
                    "language_pack_database_size"@,
                    encode_field(FieldModel::I32(self.language_pack_database_size)),
                )
                .insert("log_size"@, encode_field(FieldModel::I32(self.log_size))));
            assert(header(self@) == header_of(Tag::StorageStatisticsFast, opt_text(self.extra)));
        }
        v
    }

    fn from_value(v: &Value) -> (r: RTDResult<Self>) {
        let t = match read_tag(v) {
            Ok(t) => t,
            Err(e) => return Err(e),
        };
        if t != Tag::StorageStatisticsFast {
            return Err(unknown(t));
        }
        let extra = match read_extra(v, t) {
            Ok(x) => x,
            Err(e) => return Err(e),
        };
        Self::read_fields(v, extra)
    }

    fn copied(&self) -> (r: Self) {
        StorageStatisticsFast {
            files_size: self.files_size,
            file_count: self.file_count,
            database_size: self.database_size,
            language_pack_database_size: self.language_pack_database_size,
            log_size: self.log_size,
            extra: copy_opt_text(&self.extra),
        }
    }
}

impl StorageStatisticsFast {
    /// Reads the declared fields of an object of this shape.
    pub(crate) fn read_fields(v: &Value, extra: Option<String>) -> (r: RTDResult<Self>)
        requires
            value_model(*v) is Obj,
        ensures
            match decode_members(
                value_model(*v),
                tag_name(Tag::StorageStatisticsFast),
                Tag::StorageStatisticsFast,
                5,
            ) {
                Ok(fs) => r is Ok && r->Ok_0@ == (
                    RecordModel {
                        tag: Tag::StorageStatisticsFast,
                        extra: opt_text(extra),
                        fields: fs,
                    }
                ),
                Err(e) => r is Err && r->Err_0@ == e,
            },
    {
        proof {
            reveal_with_fuel(decode_members, 6);
        }
        let files_size = match read_i32(v, Tag::StorageStatisticsFast, "files_size") {
            Ok(x) => x,
            Err(e) => return Err(e),
        };
        let file_count = match read_i32(v, Tag::StorageStatisticsFast, "file_count") {
            Ok(x) => x,
            Err(e) => return Err(e),
        };
        let database_size = match read_i32(v, Tag::StorageStatisticsFast, "database_size") {
            Ok(x) => x,
            Err(e) => return Err(e),
        };
        let language_pack_database_size = match read_i32(
            v,
            Tag::StorageStatisticsFast,
            "language_pack_database_size",
        ) {
            Ok(x) => x,
            Err(e) => return Err(e),
        };
        let log_size = match read_i32(v, Tag::StorageStatisticsFast, "log_size") {
            Ok(x) => x,
            Err(e) => return Err(e),
        };
        let r = StorageStatisticsFast {
            files_size,
            file_count,
            database_size,
            language_pack_database_size,
            log_size,
            extra,
        };
        proof {
            assert(Seq::<FieldModel>::empty()
                .push(FieldModel::I32(r.files_size))
                .push(FieldModel::I32(r.file_count))
                .push(FieldModel::I32(r.database_size))
                .push(FieldModel::I32(r.language_pack_database_size))
                .push(FieldModel::I32(r.log_size)) =~= r@.fields);
        }
        Ok(r)
    }

    /// Decodes a text as this record.
    pub fn from_json(json: &str) -> (r: RTDResult<Self>)
        ensures
            outcome(r) == decode_text(json@, set![Tag::StorageStatisticsFast]),
    {
        from_json::<Self>(json)
    }

    /// A builder holding this shape with every field at its zero value.
    pub fn builder() -> (r: RTDStorageStatisticsFastBuilder)
        ensures
            r@ == default_record(Tag::StorageStatisticsFast),
    {
        let inner = StorageStatisticsFast {
            files_size: 0,
            file_count: 0,
            database_size: 0,
            language_pack_database_size: 0,
            log_size: 0,
            extra: None,
        };
        proof {
            assert(inner@.fields =~= default_record(Tag::StorageStatisticsFast).fields);
        }
        RTDStorageStatisticsFastBuilder { inner }
    }

    /// Approximate total size of files.
    pub fn files_size(&self) -> (r: i32)
        ensures
            self@.fields[0] == FieldModel::I32(r),
    {
        self.files_size
    }

    /// Approximate number of files.
    pub fn file_count(&self) -> (r: i32)
        ensures
            self@.fields[1] == FieldModel::I32(r),
    {
        self.file_count
    }

    /// Size of the database.
    pub fn database_size(&self) -> (r: i32)
        ensures
            self@.fields[2] == FieldModel::I32(r),
    {
        self.database_size
    }

    /// Size of the language pack database.
    pub fn language_pack_database_size(&self) -> (r: i32)
        ensures
            self@.fields[3] == FieldModel::I32(r),
    {
        self.language_pack_database_size
    }

    /// Size of the internal log.
    pub fn log_size(&self) -> (r: i32)
        ensures
            self@.fields[4] == FieldModel::I32(r),
    {
        self.log_size
    }
}

/// Fluent constructor of [`StorageStatisticsFast`].
pub struct RTDStorageStatisticsFastBuilder {
    inner: StorageStatisticsFast,
}

impl View for RTDStorageStatisticsFastBuilder {
    type V = RecordModel;

    closed spec fn view(&self) -> RecordModel {
        self.inner@
    }
}

impl RTDStorageStatisticsFastBuilder {
    /// An immutable copy of what has been set so far.
    pub fn build(&self) -> (r: StorageStatisticsFast)
        ensures
            r@ == self@,
    {
        self.inner.copied()
    }

    /// Sets the correlation id.
    pub fn extra(&mut self, extra: &str) -> (r: &mut Self)
        ensures
            (*r)@ == (RecordModel { extra: Some(extra@), ..old(self)@ }),
            *final(self) == *final(r),
    {
        self.inner.extra = Some(String::from_str(extra));
        self
    }

    /// Sets: approximate total size of files.
    pub fn files_size(&mut self, files_size: i32) -> (r: &mut Self)
        ensures
            (*r)@ == with_field(old(self)@, 0, FieldModel::I32(files_size)),
            *final(self) == *final(r),
    {
        let ghost before = self@;
        self.inner.files_size = files_size;
        proof {
            assert(self@.fields =~= with_field(before, 0, FieldModel::I32(files_size)).fields);
        }
        self
    }

    /// Sets: approximate number of files.
    pub fn file_count(&mut self, file_count: i32) -> (r: &mut Self)
        ensures
            (*r)@ == with_field(old(self)@, 1, FieldModel::I32(file_count)),
            *final(self) == *final(r),
    {
        let ghost before = self@;
        self.inner.file_count = file_count;
        proof {
            assert(self@.fields =~= with_field(before, 1, FieldModel::I32(file_count)).fields);
        }
        self
    }

    /// Sets: size of the database.
    pub fn database_size(&mut self, database_size: i32) -> (r: &mut Self)
        ensures
            (*r)@ == with_field(old(self)@, 2, FieldModel::I32(database_size)),
            *final(self) == *final(r),
    {
        let ghost before = self@;
        self.inner.database_size = database_size;
        proof {
            assert(self@.fields =~= with_field(before, 2, FieldModel::I32(database_size)).fields);
        }
        self
    }

    /// Sets: size of the language pack database.
    pub fn language_pack_database_size(&mut self, language_pack_database_size: i32) -> (
        r: &mut Self
    )
        ensures
            (*r)@ == with_field(old(self)@, 3, FieldModel::I32(language_pack_database_size)),
            *final(self) == *final(r),
    {
        let ghost before = self@;
        self.inner.language_pack_database_size = language_pack_database_size;
        proof {
            assert(
                self@.fields =~= with_field(
                    before,
                    3,
                    FieldModel::I32(language_pack_database_size),
                ).fields
            );
        }
        self
    }

    /// Sets: size of the internal log.
    pub fn log_size(&mut self, log_size: i32) -> (r: &mut Self)
        ensures
            (*r)@ == with_field(old(self)@, 4, FieldModel::I32(log_size)),
            *final(self) == *final(r),
    {
        let ghost before = self@;
        self.inner.log_size = log_size;
        proof {
            assert(self@.fields =~= with_field(before, 4, FieldModel::I32(log_size)).fields);
        }
        self
    }
}

} // verus!
