use rtdlib::json::JsonKind;
use rtdlib::schema::FieldKind;
use rtdlib::types::{
    detect_td_type, detect_td_type_and_extra, AuthorizationState, Error, FieldProblem,
    GetAuthorizationState, RObject,
    RTDError, StickerSetInfo, TdType, TestVectorInt, VideoNote,
};

fn field(tag: &str, field: &str, problem: FieldProblem) -> RTDError {
    RTDError::FieldSchema { tag: tag.to_string(), field: field.to_string(), problem }
}

fn wrong(expected: FieldKind, found: JsonKind) -> FieldProblem {
    FieldProblem::WrongType { expected, found }
}

#[test]
fn malformed_text_is_parse_error() {
    assert_eq!(TdType::from_json("{\"@type\":").unwrap_err(), RTDError::Parse);
    assert_eq!(Error::from_json("").unwrap_err(), RTDError::Parse);
}

#[test]
fn non_object_is_structure_error() {
    assert_eq!(TdType::from_json("[1,2]").unwrap_err(), RTDError::NotAnObject);
    assert_eq!(TdType::from_json("\"ok\"").unwrap_err(), RTDError::NotAnObject);
}

#[test]
fn missing_or_non_string_discriminator() {
    assert_eq!(TdType::from_json(r#"{"code":1}"#).unwrap_err(), RTDError::MissingDiscriminator);
    assert_eq!(TdType::from_json(r#"{"@type":3}"#).unwrap_err(), RTDError::MissingDiscriminator);
}

#[test]
fn shape_outside_union_is_unknown() {
    let r = TdType::from_json(r#"{"@type":"labeledPricePart","label":"a","amount":1}"#);
    assert_eq!(r.unwrap_err(), RTDError::UnknownDiscriminator("labeledPricePart".to_string()));
    let r = AuthorizationState::from_json(r#"{"@type":"error","code":1,"message":"m"}"#);
    assert_eq!(r.unwrap_err(), RTDError::UnknownDiscriminator("error".to_string()));
}

#[test]
fn wrong_field_types() {
    assert_eq!(
        Error::from_json(r#"{"@type":"error","code":"400","message":"x"}"#).unwrap_err(),
        field("error", "code", wrong(FieldKind::Int32, JsonKind::Text))
    );
    assert_eq!(
        Error::from_json(r#"{"@type":"error","code":4000000000,"message":"x"}"#).unwrap_err(),
        field("error", "code", wrong(FieldKind::Int32, JsonKind::Integer))
    );
    assert_eq!(
        Error::from_json(r#"{"@type":"error","code":1.5,"message":"x"}"#).unwrap_err(),
        field("error", "code", wrong(FieldKind::Int32, JsonKind::Real))
    );
    assert_eq!(
        TestVectorInt::from_json(r#"{"@type":"testVectorInt","value":[1,"2"]}"#).unwrap_err(),
        field("testVectorInt", "value", wrong(FieldKind::Int32List, JsonKind::Array))
    );
    assert_eq!(
        VideoNote::from_json(r#"{"@type":"videoNote","duration":1,"length":1,"thumbnail":5,"video":{}}"#).unwrap_err(),
        field("videoNote", "thumbnail", wrong(FieldKind::OptObject, JsonKind::Integer))
    );
    assert_eq!(
        VideoNote::from_json(r#"{"@type":"videoNote","duration":1,"length":1,"video":[]}"#).unwrap_err(),
        field("videoNote", "video", wrong(FieldKind::Object, JsonKind::Array))
    );
    assert_eq!(
        Error::from_json(r#"{"@type":"error","@extra":7,"code":1,"message":"x"}"#).unwrap_err(),
        field("error", "@extra", wrong(FieldKind::Text, JsonKind::Integer))
    );
}

#[test]
fn first_failing_field_in_declared_order() {
    let r = StickerSetInfo::from_json(r#"{"@type":"stickerSetInfo","id":1,"size":"x"}"#);
    assert_eq!(r.unwrap_err(), field("stickerSetInfo", "title", FieldProblem::Missing));
}

#[test]
fn unknown_members_are_ignored() {
    let e = Error::from_json(r#"{"@type":"error","code":1,"message":"x","later":true}"#).unwrap();
    assert_eq!(e.code(), 1);
}

#[test]
fn peek_discriminator_and_correlation_id() {
    assert_eq!(detect_td_type(r#"{"@type":"bogus","x":1}"#), Some("bogus".to_string()));
    assert_eq!(detect_td_type(r#"{"@extra":"1"}"#), None);
    assert_eq!(detect_td_type("not json"), None);
    assert_eq!(
        detect_td_type_and_extra(r#"{"@type":"ok","@extra":"7"}"#),
        (Some("ok".to_string()), Some("7".to_string()))
    );
    assert_eq!(detect_td_type_and_extra(r#"{"@type":"ok","@extra":7}"#), (Some("ok".to_string()), None));
    assert_eq!(detect_td_type_and_extra("[]"), (None, None));
}

#[test]
fn error_messages_name_the_problem() {
    assert_eq!(field("error", "code", FieldProblem::Missing).message(), "error.code: missing");
    assert_eq!(RTDError::UnknownDiscriminator("bogus".to_string()).message(), "unknown @type: bogus");
    assert_eq!(
        field("error", "code", wrong(FieldKind::Int32, JsonKind::Null)).message(),
        "error.code: wrong type"
    );
    assert_eq!(RTDError::Parse.message(), "malformed JSON text");
    assert_eq!(RTDError::NotAnObject.message(), "JSON value is not an object");
    assert_eq!(RTDError::MissingDiscriminator.message(), "object has no string @type");
    assert_eq!(RTDError::Encode.message(), "the value could not be serialized");
}

#[test]
fn requests_never_decode_as_arrivals() {
    let mut b = GetAuthorizationState::builder();
    b.extra("q1");
    let text = b.build().to_json().unwrap();
    assert_eq!(
        TdType::from_json(&text).unwrap_err(),
        RTDError::UnknownDiscriminator("getAuthorizationState".to_string())
    );
    assert_eq!(GetAuthorizationState::from_json(&text).unwrap().extra(), Some("q1".to_string()));
}

#[test]
fn push_receiver_id_is_not_in_the_union() {
    let text = r#"{"@type":"pushReceiverId","id":5}"#;
    assert_eq!(
        TdType::from_json(text).unwrap_err(),
        RTDError::UnknownDiscriminator("pushReceiverId".to_string())
    );
}

#[test]
fn nested_category_field_of_wrong_kind() {
    let r = rtdlib::types::UpdateAuthorizationState::from_json(
        r#"{"@type":"updateAuthorizationState","authorization_state":"ready"}"#,
    );
    assert_eq!(
        r.unwrap_err(),
        field(
            "updateAuthorizationState",
            "authorization_state",
            wrong(FieldKind::Category(rtdlib::schema::Category::AuthorizationState), JsonKind::Text)
        )
    );
}
