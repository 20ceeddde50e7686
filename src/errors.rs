//! Why a decode or an encode failed.
use crate::json::JsonKind;
use crate::schema::FieldKind;
use vstd::prelude::*;
use vstd::string::*;

verus! {

/// What is wrong with one declared field of a record.
#[derive(Clone, Copy, Debug, PartialEq, Eq, Structural)]
pub enum FieldProblem {
    /// The field is required and the object does not hold it.
    Missing,
    /// The object holds the field with a value of another type: what the
    /// schema declares, and the kind of value found.
    WrongType { expected: FieldKind, found: JsonKind },
}

/// A decode or encode failure, as a mathematical value.
pub enum ErrorModel {
    Parse,
    NotAnObject,
    MissingDiscriminator,
    UnknownDiscriminator(Seq<char>),
    FieldSchema(Seq<char>, Seq<char>, FieldProblem),
    Encode,
}

/// A decode or encode failure. Every failure ends the call: no partial
/// record is ever returned.
#[derive(Clone, Debug, PartialEq, Eq)]
pub enum RTDError {
    /// The text is not one JSON document.
    Parse,
    /// The text is JSON, but not an object.
    NotAnObject,
    /// The object has no string discriminator.
    MissingDiscriminator,
    /// The discriminator names no schema of the requested union.
    UnknownDiscriminator(String),
    /// A declared field of the schema named by `tag` is missing or mistyped.
    FieldSchema { tag: String, field: String, problem: FieldProblem },
    /// The serializer refused the value.
    Encode,
}

pub type RTDResult<T> = Result<T, RTDError>;

impl View for RTDError {
    type V = ErrorModel;

    open spec fn view(&self) -> ErrorModel {
        match self {
            RTDError::Parse => ErrorModel::Parse,
            RTDError::NotAnObject => ErrorModel::NotAnObject,
            RTDError::MissingDiscriminator => ErrorModel::MissingDiscriminator,
            RTDError::UnknownDiscriminator(s) => ErrorModel::UnknownDiscriminator(s@),
            RTDError::FieldSchema { tag, field, problem } => ErrorModel::FieldSchema(
                tag@,
                field@,
                *problem,
            ),
            RTDError::Encode => ErrorModel::Encode,
        }
    }
}

impl RTDError {
    /// A one-line description of the failure, naming the offending
    /// discriminator and field.
    pub fn message(&self) -> (r: String)
        ensures
            self is Parse ==> r@ == "malformed JSON text"@,
            self is NotAnObject ==> r@ == "JSON value is not an object"@,
            self is MissingDiscriminator ==> r@ == "object has no string @type"@,
            self is Encode ==> r@ == "the value could not be serialized"@,
            self is UnknownDiscriminator ==> r@ == "unknown @type: "@
                + self->UnknownDiscriminator_0@,
            self is FieldSchema ==> r@ == self->FieldSchema_tag@ + "."@ + self->FieldSchema_field@
                + (if self->FieldSchema_problem == FieldProblem::Missing {
                ": missing"@
            } else {
                ": wrong type"@
            }),
    {
        match self {
            RTDError::Parse => String::from_str("malformed JSON text"),
            RTDError::NotAnObject => String::from_str("JSON value is not an object"),
            RTDError::MissingDiscriminator => String::from_str("object has no string @type"),
            RTDError::UnknownDiscriminator(tag) => {
                let mut s = String::from_str("unknown @type: ");
                s.append(tag.as_str());
                s
            },
            RTDError::FieldSchema { tag, field, problem } => {
                let mut s = String::from_str(tag.as_str());
                s.append(".");
                s.append(field.as_str());
                match problem {
                    FieldProblem::Missing => s.append(": missing"),
                    FieldProblem::WrongType { .. } => s.append(": wrong type"),
                }
                s
            },
            RTDError::Encode => String::from_str("the value could not be serialized"),
        }
    }
}

} // verus!
