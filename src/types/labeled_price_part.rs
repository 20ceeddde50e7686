//! The `labeledPricePart` record.
use crate::codec::{
    copy_opt_text, from_json, i32_json, opt_text, outcome, put, read_extra, read_i32, read_tag,
    read_text, text_json, unknown, write_header, RObject,
};
use crate::errors::RTDResult;
use crate::json::value_model;
use crate::model::{
    decode_members, decode_text, default_record, encode_field, encode_members, header, header_of,
    with_field, FieldModel, RecordModel,
};
use crate::schema::{fields_of, tag_name, Tag};
use serde_json::Value;
use vstd::prelude::*;
use vstd::string::*;

verus! {

/// Portion of the price of a product (e.g., "delivery cost", "tax amount").
#[derive(Debug, Clone)]
pub struct LabeledPricePart {
    /// Label for this portion of the product price.
    label: String,
    /// Currency amount in minimal quantity of the currency.
    amount: i32,
    /// Correlation id: set on a request, echoed on its result.
    extra: Option<String>,
}

impl View for LabeledPricePart {
    type V = RecordModel;

    closed spec fn view(&self) -> RecordModel {
        RecordModel {
            tag: Tag::LabeledPricePart,
            extra: opt_text(self.extra),
            fields: seq![FieldModel::Text(self.label@), FieldModel::I32(self.amount)],
        }
    }
}

impl RObject for LabeledPricePart {
    open spec fn accepted() -> Set<Tag> {
        set![Tag::LabeledPricePart]
    }

    proof fn lemma_view_wf(&self) {
    }

    fn td_name(&self) -> (r: &'static str) {
        Tag::LabeledPricePart.name()
    }

    fn extra(&self) -> (r: Option<String>) {
        copy_opt_text(&self.extra)
    }

    fn to_value(&self) -> (r: Value) {
        let mut v = write_header(Tag::LabeledPricePart, &self.extra);
        put(&mut v, "label", text_json(&self.label));
        put(&mut v, "amount", i32_json(self.amount));
        proof {
            reveal_with_fuel(encode_members, 3);
            assert(self@.fields[0] == FieldModel::Text(self.label@));
            assert(fields_of(Tag::LabeledPricePart)[0].0 == "label"@);
            assert(self@.fields[1] == FieldModel::I32(self.amount));
            assert(fields_of(Tag::LabeledPricePart)[1].0 == "amount"@);
            assert(self@.fields.len() == 2);
            assert(encode_members(self@, 2) == header(self@)
                .insert("label"@, encode_field(FieldModel::Text(self.label@)))
                .insert("amount"@, encode_field(FieldModel::I32(self.amount))));
            assert(header(self@) == header_of(Tag::LabeledPricePart, opt_text(self.extra)));
        }
        v
    }

    fn from_value(v: &Value) -> (r: RTDResult<Self>) {
        let t = match read_tag(v) {
            Ok(t) => t,
            Err(e) => return Err(e),
        };
        if t != Tag::LabeledPricePart {
            return Err(unknown(t));
        }
        let extra = match read_extra(v, t) {
            Ok(x) => x,
            Err(e) => return Err(e),
        };
        Self::read_fields(v, extra)
    }

    fn copied(&self) -> (r: Self) {
        LabeledPricePart {
            label: self.label.clone(),
            amount: self.amount,
            extra: copy_opt_text(&self.extra),
        }
    }
}

impl LabeledPricePart {
    /// Reads the declared fields of an object of this shape.
    pub(crate) fn read_fields(v: &Value, extra: Option<String>) -> (r: RTDResult<Self>)
        requires
            value_model(*v) is Obj,
        ensures
            match decode_members(
                value_model(*v),
                tag_name(Tag::LabeledPricePart),
                Tag::LabeledPricePart,
                2,
            ) {
                Ok(fs) => r is Ok && r->Ok_0@ == (
                    RecordModel { tag: Tag::LabeledPricePart, extra: opt_text(extra), fields: fs }
                ),
                Err(e) => r is Err && r->Err_0@ == e,
            },
    {
        proof {
            reveal_with_fuel(decode_members, 3);
        }
        let label = match read_text(v, Tag::LabeledPricePart, "label") {
            Ok(x) => x,
            Err(e) => return Err(e),
        };
        let amount = match read_i32(v, Tag::LabeledPricePart, "amount") {
            Ok(x) => x,
            Err(e) => return Err(e),
        };
        let r = LabeledPricePart { label, amount, extra };
        proof {
            assert(Seq::<FieldModel>::empty()
                .push(FieldModel::Text(r.label@))
                .push(FieldModel::I32(r.amount)) =~= r@.fields);
        }
        Ok(r)
    }

    /// Decodes a text as this record.
    pub fn from_json(json: &str) -> (r: RTDResult<Self>)
        ensures
            outcome(r) == decode_text(json@, set![Tag::LabeledPricePart]),
    {
        from_json::<Self>(json)
    }

    /// A builder holding this shape with every field at its zero value.
    pub fn builder() -> (r: RTDLabeledPricePartBuilder)
        ensures
            r@ == default_record(Tag::LabeledPricePart),
    {
        let inner = LabeledPricePart { label: String::new(), amount: 0, extra: None };
        proof {
            assert(inner@.fields =~= default_record(Tag::LabeledPricePart).fields);
        }
        RTDLabeledPricePartBuilder { inner }
    }

    /// Label for this portion of the product price.
    pub fn label(&self) -> (r: &String)
        ensures
            self@.fields[0] == FieldModel::Text(r@),
    {
        &self.label
    }

    /// Currency amount in minimal quantity of the currency.
    pub fn amount(&self) -> (r: i32)
        ensures
            self@.fields[1] == FieldModel::I32(r),
    {
        self.amount
    }
}

/// Fluent constructor of [`LabeledPricePart`].
pub struct RTDLabeledPricePartBuilder {
    inner: LabeledPricePart,
}

impl View for RTDLabeledPricePartBuilder {
    type V = RecordModel;

    closed spec fn view(&self) -> RecordModel {
        self.inner@
    }
}

impl RTDLabeledPricePartBuilder {
    /// An immutable copy of what has been set so far.
    pub fn build(&self) -> (r: LabeledPricePart)
        ensures
            r@ == self@,
    {
        self.inner.copied()
    }

    /// Sets the correlation id.
    pub fn extra(&mut self, extra: &str) -> (r: &mut Self)
        ensures
            (*r)@ == (RecordModel { extra: Some(extra@), ..old(self)@ }),
            *final(self) == *final(r),
    {
        self.inner.extra = Some(String::from_str(extra));
        self
    }

    /// Sets: label for this portion of the product price.
    pub fn label(&mut self, label: &str) -> (r: &mut Self)
        ensures
            (*r)@ == with_field(old(self)@, 0, FieldModel::Text(label@)),
            *final(self) == *final(r),
    {
        let ghost before = self@;
        self.inner.label = String::from_str(label);
        proof {
            assert(self@.fields =~= with_field(before, 0, FieldModel::Text(label@)).fields);
        }
        self
    }

    /// Sets: currency amount in minimal quantity of the currency.
    pub fn amount(&mut self, amount: i32) -> (r: &mut Self)
        ensures
            (*r)@ == with_field(old(self)@, 1, FieldModel::I32(amount)),
            *final(self) == *final(r),
    {
        let ghost before = self@;
        self.inner.amount = amount;
        proof {
            assert(self@.fields =~= with_field(before, 1, FieldModel::I32(amount)).fields);
        }
        self
    }
}

} // verus!
