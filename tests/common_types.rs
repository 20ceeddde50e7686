use rtdlib::types::{from_json, TdType, UpdateAuthorizationState};

#[test]
fn test_deserialize_enum() {
    match from_json::<UpdateAuthorizationState>(
        r#"{"@type":"updateAuthorizationState","authorization_state":{"@type":"authorizationStateWaitTdlibParameters"}}"#,
    ) {
        Ok(_t) => {}
        Err(e) => panic!("{}", e.message()),
    };

    match from_json::<TdType>(
        r#"{"@type":"updateAuthorizationState","authorization_state":{"@type":"authorizationStateWaitTdlibParameters"}}"#,
    ) {
        Ok(t) => match t {
            TdType::UpdateAuthorizationState(_v) => {}
            _ => panic!("from_json failed: {:?}", t),
        },
        Err(e) => panic!("{}", e.message()),
    };
}
