//! A typed codec for the tagged JSON records of a messaging engine.
//!
//! Every message is a JSON object whose `@type` member names one shape of a
//! closed schema table. Decoding checks the shape's declared fields and
//! yields a typed record; encoding writes the record back; an optional
//! `@extra` correlation id passes through both unchanged.
pub mod codec;
pub mod errors;
pub mod json;
pub mod laws;
pub mod model;
pub mod schema;
pub mod types;

pub use crate::codec::{detect_td_type, detect_td_type_and_extra, from_json, RFunction, RObject};
pub use crate::errors::{FieldProblem, RTDError, RTDResult};
pub use crate::types::TdType;
