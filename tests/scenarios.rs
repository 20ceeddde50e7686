use rtdlib::types::{
    from_json, AuthorizationState, Error, FieldProblem, OkResult, RObject, RTDError, TdType,
    TestVectorInt, UpdateAuthorizationState,
};
use serde_json::Value;

fn parse(text: &str) -> Value {
    serde_json::from_str::<Value>(text).unwrap()
}

#[test]
fn ok_has_no_fields() {
    let ok = OkResult::from_json(r#"{"@type":"ok"}"#).unwrap();
    assert_eq!(ok.td_name(), "ok");
    assert_eq!(ok.extra(), None);
    match TdType::from_json(r#"{"@type":"ok"}"#).unwrap() {
        TdType::OkResult(_) => {}
        other => panic!("unexpected {:?}", other),
    }
}

#[test]
fn error_fields() {
    let e = Error::from_json(r#"{"@type":"error","code":400,"message":"x"}"#).unwrap();
    assert_eq!(e.code(), 400);
    assert_eq!(e.message(), "x");
    match from_json::<TdType>(r#"{"@type":"error","code":400,"message":"x"}"#).unwrap() {
        TdType::Error(e) => {
            assert_eq!(e.code(), 400);
            assert_eq!(e.message(), "x");
        }
        other => panic!("unexpected {:?}", other),
    }
}

#[test]
fn bogus_discriminator_is_unknown() {
    let r = TdType::from_json(r#"{"@type":"bogus"}"#);
    assert_eq!(r.unwrap_err(), RTDError::UnknownDiscriminator("bogus".to_string()));
    let r = Error::from_json(r#"{"@type":"bogus"}"#);
    assert_eq!(r.unwrap_err(), RTDError::UnknownDiscriminator("bogus".to_string()));
}

#[test]
fn test_vector_int_round_trip() {
    let text = r#"{"@type":"testVectorInt","value":[1,2,3]}"#;
    let v = TestVectorInt::from_json(text).unwrap();
    assert_eq!(v.value(), &vec![1, 2, 3]);
    let again = v.to_json().unwrap();
    assert_eq!(parse(&again), parse(text));
    let back = TestVectorInt::from_json(&again).unwrap();
    assert_eq!(back.value(), &vec![1, 2, 3]);
}

#[test]
fn missing_required_field() {
    let r = Error::from_json(r#"{"@type":"error"}"#);
    assert_eq!(
        r.unwrap_err(),
        RTDError::FieldSchema {
            tag: "error".to_string(),
            field: "code".to_string(),
            problem: FieldProblem::Missing,
        }
    );
}

#[test]
fn nested_category_member() {
    let u = UpdateAuthorizationState::from_json(
        r#"{"@type":"updateAuthorizationState","authorization_state":{"@type":"authorizationStateWaitEncryptionKey","is_encrypted":true}}"#,
    )
    .unwrap();
    match u.authorization_state() {
        AuthorizationState::WaitEncryptionKey(k) => assert!(k.is_encrypted()),
        other => panic!("unexpected {:?}", other),
    }
}

#[test]
fn nested_member_outside_category_is_unknown() {
    let r = UpdateAuthorizationState::from_json(
        r#"{"@type":"updateAuthorizationState","authorization_state":{"@type":"ok"}}"#,
    );
    assert_eq!(r.unwrap_err(), RTDError::UnknownDiscriminator("ok".to_string()));
}
