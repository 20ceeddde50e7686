use rtdlib::types::{
    AuthorizationState, AuthorizationStateWaitPassword, Error, LabeledPricePart,
    NetworkStatistics, Notification, PushReceiverId, RObject, StickerSetInfo,
    StorageStatisticsByChat, StorageStatisticsFast, TdType, TestVectorInt,
    UpdateAuthorizationState, VideoNote,
};
use rtdlib::json::JsonObject;
use serde_json::Value;

fn obj(text: &str) -> Value {
    serde_json::from_str::<Value>(text).unwrap()
}

fn object(text: &str) -> JsonObject {
    JsonObject::new(obj(text)).unwrap()
}

#[test]
fn round_trip_sticker_set_info() {
    let mut b = StickerSetInfo::builder();
    b.id(9_000_000_000)
        .title("Cats")
        .name("cats")
        .is_installed(true)
        .is_viewed(true)
        .size(5)
        .covers(vec![object(r#"{"@type":"sticker","width":512}"#)])
        .extra("req-1");
    let s = b.build();
    let back = StickerSetInfo::from_json(&s.to_json().unwrap()).unwrap();
    assert_eq!(back.id(), 9_000_000_000);
    assert_eq!(back.title(), "Cats");
    assert_eq!(back.name(), "cats");
    assert!(back.is_installed());
    assert!(!back.is_archived());
    assert!(!back.is_official());
    assert!(!back.is_masks());
    assert!(back.is_viewed());
    assert_eq!(back.size(), 5);
    assert_eq!(back.covers().len(), 1);
    assert_eq!(back.covers()[0].as_value(), &obj(r#"{"@type":"sticker","width":512}"#));
    assert_eq!(back.extra(), Some("req-1".to_string()));
}

#[test]
fn round_trip_video_note() {
    let mut b = VideoNote::builder();
    b.duration(12).length(240).video(object(r#"{"@type":"file","id":3}"#));
    let v = b.build();
    let text = v.to_json().unwrap();
    assert_eq!(obj(&text)["thumbnail"], Value::Null);
    let back = VideoNote::from_json(&text).unwrap();
    assert_eq!(back.duration(), 12);
    assert_eq!(back.length(), 240);
    assert!(back.thumbnail().is_none());
    assert_eq!(back.video().as_value(), &obj(r#"{"@type":"file","id":3}"#));

    b.thumbnail(object(r#"{"@type":"photoSize","width":90}"#));
    let back = VideoNote::from_json(&b.build().to_json().unwrap()).unwrap();
    assert_eq!(
        back.thumbnail().as_ref().unwrap().as_value(),
        &obj(r#"{"@type":"photoSize","width":90}"#)
    );
}

#[test]
fn round_trip_other_records() {
    let mut b = LabeledPricePart::builder();
    b.label("tax").amount(-15);
    let back = LabeledPricePart::from_json(&b.build().to_json().unwrap()).unwrap();
    assert_eq!(back.label(), "tax");
    assert_eq!(back.amount(), -15);

    let mut b = NetworkStatistics::builder();
    b.since_date(1_600_000_000).entries(vec![object(r#"{"@type":"networkStatisticsEntryFile"}"#)]);
    let back = NetworkStatistics::from_json(&b.build().to_json().unwrap()).unwrap();
    assert_eq!(back.since_date(), 1_600_000_000);
    assert_eq!(back.entries().len(), 1);

    let mut b = Notification::builder();
    b.id(7).date(8).type_(object(r#"{"@type":"notificationTypeNewCall","call_id":1}"#));
    let back = Notification::from_json(&b.build().to_json().unwrap()).unwrap();
    assert_eq!((back.id(), back.date()), (7, 8));
    assert_eq!(back.type_().as_value(), &obj(r#"{"@type":"notificationTypeNewCall","call_id":1}"#));

    let mut b = PushReceiverId::builder();
    b.id(-42);
    assert_eq!(PushReceiverId::from_json(&b.build().to_json().unwrap()).unwrap().id(), -42);

    let mut b = StorageStatisticsByChat::builder();
    b.chat_id(1).size(2).count(3).by_file_type(vec![]);
    let back = StorageStatisticsByChat::from_json(&b.build().to_json().unwrap()).unwrap();
    assert_eq!((back.chat_id(), back.size(), back.count()), (1, 2, 3));
    assert!(back.by_file_type().is_empty());

    let mut b = StorageStatisticsFast::builder();
    b.files_size(1).file_count(2).database_size(3).language_pack_database_size(4).log_size(5);
    let back = StorageStatisticsFast::from_json(&b.build().to_json().unwrap()).unwrap();
    assert_eq!(
        (
            back.files_size(),
            back.file_count(),
            back.database_size(),
            back.language_pack_database_size(),
            back.log_size()
        ),
        (1, 2, 3, 4, 5)
    );
}

#[test]
fn round_trip_through_union() {
    let mut p = AuthorizationStateWaitPassword::builder();
    p.password_hint("hint").has_recovery_email_address(true);
    let mut u = UpdateAuthorizationState::builder();
    u.authorization_state(AuthorizationState::WaitPassword(p.build()));
    let t = TdType::UpdateAuthorizationState(u.build());
    assert!(t.is_event());
    assert!(!t.is_result());
    let back = TdType::from_json(&t.to_json().unwrap()).unwrap();
    match back {
        TdType::UpdateAuthorizationState(u) => match u.authorization_state() {
            AuthorizationState::WaitPassword(p) => {
                assert_eq!(p.password_hint(), "hint");
                assert!(p.has_recovery_email_address());
                assert_eq!(p.recovery_email_address_pattern(), "");
            }
            other => panic!("unexpected {:?}", other),
        },
        other => panic!("unexpected {:?}", other),
    }
}

#[test]
fn totality_minimal_instances() {
    let texts = [
        r#"{"@type":"ok"}"#,
        r#"{"@type":"error","code":0,"message":""}"#,
        r#"{"@type":"testVectorInt","value":[]}"#,
        r#"{"@type":"networkStatistics","since_date":0,"entries":[]}"#,
        r#"{"@type":"storageStatisticsFast","files_size":0,"file_count":0,"database_size":0,"language_pack_database_size":0,"log_size":0}"#,
        r#"{"@type":"updateAuthorizationState","authorization_state":{"@type":"authorizationStateClosed"}}"#,
        r#"{"@type":"authorizationStateWaitTdlibParameters"}"#,
        r#"{"@type":"authorizationStateWaitEncryptionKey","is_encrypted":false}"#,
        r#"{"@type":"authorizationStateWaitPhoneNumber"}"#,
        r#"{"@type":"authorizationStateWaitCode","is_registered":false,"terms_of_service":null,"code_info":{}}"#,
        r#"{"@type":"authorizationStateWaitPassword","password_hint":"","has_recovery_email_address":false,"recovery_email_address_pattern":""}"#,
        r#"{"@type":"authorizationStateReady"}"#,
        r#"{"@type":"authorizationStateLoggingOut"}"#,
        r#"{"@type":"authorizationStateClosing"}"#,
        r#"{"@type":"authorizationStateClosed"}"#,
    ];
    for text in texts.iter() {
        let t = TdType::from_json(text).unwrap();
        assert_eq!(serde_json::from_str::<Value>(&t.to_json().unwrap()).unwrap(), obj(text));
    }
    assert!(PushReceiverId::from_json(r#"{"@type":"pushReceiverId","id":0}"#).is_ok());
    assert!(LabeledPricePart::from_json(r#"{"@type":"labeledPricePart","label":"","amount":0}"#).is_ok());
    assert!(Notification::from_json(r#"{"@type":"notification","id":0,"date":0,"type":{}}"#).is_ok());
    assert!(StickerSetInfo::from_json(r#"{"@type":"stickerSetInfo","id":0,"title":"","name":"","is_installed":false,"is_archived":false,"is_official":false,"is_masks":false,"is_viewed":false,"size":0,"covers":[]}"#).is_ok());
    assert!(StorageStatisticsByChat::from_json(r#"{"@type":"storageStatisticsByChat","chat_id":0,"size":0,"count":0,"by_file_type":[]}"#).is_ok());
    assert!(VideoNote::from_json(r#"{"@type":"videoNote","duration":0,"length":0,"video":{}}"#).is_ok());
}

#[test]
fn correlation_id_passes_through() {
    let e = Error::from_json(r#"{"@type":"error","@extra":"X","code":1,"message":"m"}"#).unwrap();
    assert_eq!(e.extra(), Some("X".to_string()));
    let back = Error::from_json(&e.to_json().unwrap()).unwrap();
    assert_eq!(back.extra(), Some("X".to_string()));

    let none = Error::from_json(r#"{"@type":"error","code":1,"message":"m"}"#).unwrap();
    assert_eq!(none.extra(), None);
    assert!(!none.to_json().unwrap().contains("@extra"));
    let null = Error::from_json(r#"{"@type":"error","@extra":null,"code":1,"message":"m"}"#).unwrap();
    assert_eq!(null.extra(), None);
}

#[test]
fn builder_defaults_in_any_order() {
    let d = Error::builder().build();
    assert_eq!(d.td_name(), "error");
    assert_eq!(d.code(), 0);
    assert_eq!(d.message(), "");
    assert_eq!(d.extra(), None);
    let d = VideoNote::builder().build();
    assert_eq!(d.video().as_value(), &obj("{}"));
    assert!(d.thumbnail().is_none());
    match UpdateAuthorizationState::builder().build().authorization_state() {
        AuthorizationState::WaitTdlibParameters(_) => {}
        other => panic!("unexpected {:?}", other),
    }
    assert!(TestVectorInt::builder().build().value().is_empty());

    let mut a = Error::builder();
    a.code(5).message("m");
    let mut b = Error::builder();
    b.message("m").code(5);
    assert_eq!(a.build().to_json().unwrap(), b.build().to_json().unwrap());
}

#[test]
fn json_object_holds_objects_only() {
    assert!(JsonObject::new(obj("[1]")).is_none());
    assert!(JsonObject::new(Value::Null).is_none());
    assert_eq!(JsonObject::empty().as_value(), &obj("{}"));
    let o = object(r#"{"a":1}"#);
    assert_eq!(o.clone().as_value(), &obj(r#"{"a":1}"#));
}

#[test]
fn builder_last_call_wins() {
    let mut b = StorageStatisticsFast::builder();
    b.log_size(3).files_size(7).log_size(9);
    let s = b.build();
    assert_eq!(
        (s.files_size(), s.file_count(), s.database_size(), s.language_pack_database_size(), s.log_size()),
        (7, 0, 0, 0, 9)
    );
    let v: Value = serde_json::from_str(&s.to_json().unwrap()).unwrap();
    assert_eq!(v["@type"], Value::String("storageStatisticsFast".to_string()));
}
