//! The schema table: every record shape that can be decoded, by its
//! discriminator, with its declared fields and its category.
use crate::json::str_eq;
use vstd::prelude::*;

verus! {

/// One concrete record shape of the table.
#[derive(Clone, Copy, Debug, PartialEq, Eq, Structural)]
pub enum Tag {
    OkResult,
    Error,
    TestVectorInt,
    LabeledPricePart,
    NetworkStatistics,
    Notification,
    PushReceiverId,
    StickerSetInfo,
    StorageStatisticsByChat,
    StorageStatisticsFast,
    VideoNote,
    UpdateAuthorizationState,
    GetAuthorizationState,
    AuthorizationStateWaitTdlibParameters,
    AuthorizationStateWaitEncryptionKey,
    AuthorizationStateWaitPhoneNumber,
    AuthorizationStateWaitCode,
    AuthorizationStateWaitPassword,
    AuthorizationStateReady,
    AuthorizationStateLoggingOut,
    AuthorizationStateClosing,
    AuthorizationStateClosed,
}

/// A closed family of sibling record shapes that share a structural role.
#[derive(Clone, Copy, Debug, PartialEq, Eq, Structural)]
pub enum Category {
    AuthorizationState,
    Update,
}

/// The declared type of a field.
#[derive(Clone, Copy, Debug, PartialEq, Eq, Structural)]
pub enum FieldKind {
    Int32,
    Int64,
    Boolean,
    Text,
    Int32List,
    /// A nested object of a shape that this table does not describe.
    Object,
    /// An array of such objects.
    ObjectList,
    /// Such an object, or null.
    OptObject,
    /// A nested record of the category.
    Category(Category),
}

/// The discriminator of each shape.
pub open spec fn tag_name(t: Tag) -> Seq<char> {
    match t {
        Tag::OkResult => "ok"@,
        Tag::Error => "error"@,
        Tag::TestVectorInt => "testVectorInt"@,
        Tag::LabeledPricePart => "labeledPricePart"@,
        Tag::NetworkStatistics => "networkStatistics"@,
        Tag::Notification => "notification"@,
        Tag::PushReceiverId => "pushReceiverId"@,
        Tag::StickerSetInfo => "stickerSetInfo"@,
        Tag::StorageStatisticsByChat => "storageStatisticsByChat"@,
        Tag::StorageStatisticsFast => "storageStatisticsFast"@,
        Tag::VideoNote => "videoNote"@,
        Tag::UpdateAuthorizationState => "updateAuthorizationState"@,
        Tag::GetAuthorizationState => "getAuthorizationState"@,
        Tag::AuthorizationStateWaitTdlibParameters => "authorizationStateWaitTdlibParameters"@,
        Tag::AuthorizationStateWaitEncryptionKey => "authorizationStateWaitEncryptionKey"@,
        Tag::AuthorizationStateWaitPhoneNumber => "authorizationStateWaitPhoneNumber"@,
        Tag::AuthorizationStateWaitCode => "authorizationStateWaitCode"@,
        Tag::AuthorizationStateWaitPassword => "authorizationStateWaitPassword"@,
        Tag::AuthorizationStateReady => "authorizationStateReady"@,
        Tag::AuthorizationStateLoggingOut => "authorizationStateLoggingOut"@,
        Tag::AuthorizationStateClosing => "authorizationStateClosing"@,
        Tag::AuthorizationStateClosed => "authorizationStateClosed"@,
    }
}

/// The declared fields of each shape, in order: wire key and type.
pub open spec fn fields_of(t: Tag) -> Seq<(Seq<char>, FieldKind)> {
    match t {
        Tag::OkResult => seq![],
        Tag::Error => seq![("code"@, FieldKind::Int32), ("message"@, FieldKind::Text)],
        Tag::TestVectorInt => seq![("value"@, FieldKind::Int32List)],
        Tag::LabeledPricePart => seq![("label"@, FieldKind::Text), ("amount"@, FieldKind::Int32)],
        Tag::NetworkStatistics => seq![
            ("since_date"@, FieldKind::Int32),
            ("entries"@, FieldKind::ObjectList),
        ],
        Tag::Notification => seq![
            ("id"@, FieldKind::Int32),
            ("date"@, FieldKind::Int32),
            ("type"@, FieldKind::Object),
        ],
        Tag::PushReceiverId => seq![("id"@, FieldKind::Int64)],
        Tag::StickerSetInfo => seq![
            ("id"@, FieldKind::Int64),
            ("title"@, FieldKind::Text),
            ("name"@, FieldKind::Text),
            ("is_installed"@, FieldKind::Boolean),
            ("is_archived"@, FieldKind::Boolean),
            ("is_official"@, FieldKind::Boolean),
            ("is_masks"@, FieldKind::Boolean),
            ("is_viewed"@, FieldKind::Boolean),
            ("size"@, FieldKind::Int32),
            ("covers"@, FieldKind::ObjectList),
        ],
        Tag::StorageStatisticsByChat => seq![
            ("chat_id"@, FieldKind::Int32),
            ("size"@, FieldKind::Int32),
            ("count"@, FieldKind::Int32),
            ("by_file_type"@, FieldKind::ObjectList),
        ],
        Tag::StorageStatisticsFast => seq![
            ("files_size"@, FieldKind::Int32),
            ("file_count"@, FieldKind::Int32),
            ("database_size"@, FieldKind::Int32),
            ("language_pack_database_size"@, FieldKind::Int32),
            ("log_size"@, FieldKind::Int32),
        ],
        Tag::VideoNote => seq![
            ("duration"@, FieldKind::Int32),
            ("length"@, FieldKind::Int32),
            ("thumbnail"@, FieldKind::OptObject),
            ("video"@, FieldKind::Object),
        ],
        Tag::UpdateAuthorizationState => seq![
            ("authorization_state"@, FieldKind::Category(Category::AuthorizationState)),
        ],
        Tag::GetAuthorizationState => seq![],
        Tag::AuthorizationStateWaitTdlibParameters => seq![],
        Tag::AuthorizationStateWaitEncryptionKey => seq![("is_encrypted"@, FieldKind::Boolean)],
        Tag::AuthorizationStateWaitPhoneNumber => seq![],
        Tag::AuthorizationStateWaitCode => seq![
            ("is_registered"@, FieldKind::Boolean),
            ("terms_of_service"@, FieldKind::OptObject),
            ("code_info"@, FieldKind::Object),
        ],
        Tag::AuthorizationStateWaitPassword => seq![
            ("password_hint"@, FieldKind::Text),
            ("has_recovery_email_address"@, FieldKind::Boolean),
            ("recovery_email_address_pattern"@, FieldKind::Text),
        ],
        Tag::AuthorizationStateReady => seq![],
        Tag::AuthorizationStateLoggingOut => seq![],
        Tag::AuthorizationStateClosing => seq![],
        Tag::AuthorizationStateClosed => seq![],
    }
}

/// The category that a shape belongs to; `None` for a shape that is the
/// only member of its role.
pub open spec fn category_of(t: Tag) -> Option<Category> {
    match t {
        Tag::OkResult => None,
        Tag::Error => None,
        Tag::TestVectorInt => None,
        Tag::LabeledPricePart => None,
        Tag::NetworkStatistics => None,
        Tag::Notification => None,
        Tag::PushReceiverId => None,
        Tag::StickerSetInfo => None,
        Tag::StorageStatisticsByChat => None,
        Tag::StorageStatisticsFast => None,
        Tag::VideoNote => None,
        Tag::UpdateAuthorizationState => Some(Category::Update),
        Tag::GetAuthorizationState => None,
        Tag::AuthorizationStateWaitTdlibParameters => Some(Category::AuthorizationState),
        Tag::AuthorizationStateWaitEncryptionKey => Some(Category::AuthorizationState),
        Tag::AuthorizationStateWaitPhoneNumber => Some(Category::AuthorizationState),
        Tag::AuthorizationStateWaitCode => Some(Category::AuthorizationState),
        Tag::AuthorizationStateWaitPassword => Some(Category::AuthorizationState),
        Tag::AuthorizationStateReady => Some(Category::AuthorizationState),
        Tag::AuthorizationStateLoggingOut => Some(Category::AuthorizationState),
        Tag::AuthorizationStateClosing => Some(Category::AuthorizationState),
        Tag::AuthorizationStateClosed => Some(Category::AuthorizationState),
    }
}

/// The members of a category.
pub open spec fn members(c: Category) -> Set<Tag> {
    Set::new(|t: Tag| category_of(t) == Some(c))
}

/// The member that a category holds before anything is set.
pub open spec fn default_member(c: Category) -> Tag {
    match c {
        Category::AuthorizationState => Tag::AuthorizationStateWaitTdlibParameters,
        Category::Update => Tag::UpdateAuthorizationState,
    }
}

/// Shapes that the engine pushes on its own.
pub open spec fn is_event(t: Tag) -> bool {
    category_of(t) == Some(Category::Update)
}

/// Shapes that the engine sends back as the direct result of a call.
pub open spec fn is_result(t: Tag) -> bool {
    t == Tag::OkResult
        || t == Tag::Error
        || t == Tag::TestVectorInt
        || t == Tag::NetworkStatistics
        || t == Tag::StorageStatisticsFast
        || category_of(t) == Some(Category::AuthorizationState)
}

/// Shapes that the application sends to the engine; they never arrive.
pub open spec fn is_request(t: Tag) -> bool {
    t == Tag::GetAuthorizationState
}

/// Shapes that can arrive on the wire: the members of the dispatch union.
pub open spec fn in_union(t: Tag) -> bool {
    is_event(t) || is_result(t)
}

/// The shape whose discriminator is `s`, if any.
pub open spec fn tag_named(s: Seq<char>) -> Option<Tag> {
    if exists|t: Tag| tag_name(t) == s {
        Some(choose|t: Tag| tag_name(t) == s)
    } else {
        None
    }
}

/// The declared keys of a shape differ from each other and from the
/// discriminator and correlation-id keys.
pub open spec fn keys_distinct(t: Tag) -> bool {
    &&& forall|i: int, j: int|
        0 <= i < j < fields_of(t).len() ==> (#[trigger] fields_of(t)[i]).0 != (
        #[trigger] fields_of(t)[j]).0
    &&& forall|i: int|
        0 <= i < fields_of(t).len() ==> (#[trigger] fields_of(t)[i]).0 != "@type"@ && fields_of(
            t,
        )[i].0 != "@extra"@
}

/// Discriminator strings are unique across the table.
pub proof fn lemma_names_distinct()
    ensures
        forall|a: Tag, b: Tag| #[trigger] tag_name(a) == #[trigger] tag_name(b) ==> a == b,
{
    reveal_strlit("ok");
    assert("ok"@.len() == 2);
    reveal_strlit("error");
    assert("error"@.len() == 5);
    reveal_strlit("testVectorInt");
    assert("testVectorInt"@.len() == 13);
    reveal_strlit("labeledPricePart");
    assert("labeledPricePart"@.len() == 16);
    reveal_strlit("networkStatistics");
    assert("networkStatistics"@.len() == 17);
    reveal_strlit("notification");
    assert("notification"@.len() == 12);
    reveal_strlit("pushReceiverId");
    assert("pushReceiverId"@.len() == 14);
    assert("pushReceiverId"@[0] == 'p');
    reveal_strlit("stickerSetInfo");
    assert("stickerSetInfo"@.len() == 14);
    assert("stickerSetInfo"@[0] == 's');
    reveal_strlit("storageStatisticsByChat");
    assert("storageStatisticsByChat"@.len() == 23);
    assert("storageStatisticsByChat"@[0] == 's');
    reveal_strlit("storageStatisticsFast");
    assert("storageStatisticsFast"@.len() == 21);
    assert("storageStatisticsFast"@[0] == 's');
    reveal_strlit("videoNote");
    assert("videoNote"@.len() == 9);
    reveal_strlit("updateAuthorizationState");
    assert("updateAuthorizationState"@.len() == 24);
    assert("updateAuthorizationState"@[0] == 'u');
    reveal_strlit("getAuthorizationState");
    assert("getAuthorizationState"@.len() == 21);
    assert("getAuthorizationState"@[0] == 'g');
    reveal_strlit("authorizationStateWaitTdlibParameters");
    assert("authorizationStateWaitTdlibParameters"@.len() == 37);
    reveal_strlit("authorizationStateWaitEncryptionKey");
    assert("authorizationStateWaitEncryptionKey"@.len() == 35);
    reveal_strlit("authorizationStateWaitPhoneNumber");
    assert("authorizationStateWaitPhoneNumber"@.len() == 33);
    reveal_strlit("authorizationStateWaitCode");
    assert("authorizationStateWaitCode"@.len() == 26);
    reveal_strlit("authorizationStateWaitPassword");
    assert("authorizationStateWaitPassword"@.len() == 30);
    reveal_strlit("authorizationStateReady");
    assert("authorizationStateReady"@.len() == 23);
    assert("authorizationStateReady"@[0] == 'a');
    reveal_strlit("authorizationStateLoggingOut");
    assert("authorizationStateLoggingOut"@.len() == 28);
    reveal_strlit("authorizationStateClosing");
    assert("authorizationStateClosing"@.len() == 25);
    reveal_strlit("authorizationStateClosed");
    assert("authorizationStateClosed"@.len() == 24);
    assert("authorizationStateClosed"@[0] == 'a');
}

/// Every shape's keys are distinct.
pub proof fn lemma_keys_distinct(t: Tag)
    ensures
        keys_distinct(t),
{
    match t {
        Tag::OkResult => {},
        Tag::Error => {
            reveal_strlit("@type");
            assert("@type"@.len() == 5);
            reveal_strlit("@extra");
            assert("@extra"@.len() == 6);
            reveal_strlit("code");
            assert("code"@.len() == 4);
            reveal_strlit("message");
            assert("message"@.len() == 7);
        },
        Tag::TestVectorInt => {
            reveal_strlit("@type");
            assert("@type"@.len() == 5);
            assert("@type"@[0] == '@');
            reveal_strlit("@extra");
            assert("@extra"@.len() == 6);
            reveal_strlit("value");
            assert("value"@.len() == 5);
            assert("value"@[0] == 'v');
        },
        Tag::LabeledPricePart => {
            reveal_strlit("@type");
            assert("@type"@.len() == 5);
            assert("@type"@[0] == '@');
            reveal_strlit("@extra");
            assert("@extra"@.len() == 6);
            assert("@extra"@[0] == '@');
            reveal_strlit("label");
            assert("label"@.len() == 5);
            assert("label"@[0] == 'l');
            reveal_strlit("amount");
            assert("amount"@.len() == 6);
            assert("amount"@[0] == 'a');
        },
        Tag::NetworkStatistics => {
            reveal_strlit("@type");
            assert("@type"@.len() == 5);
            reveal_strlit("@extra");
            assert("@extra"@.len() == 6);
            reveal_strlit("since_date");
            assert("since_date"@.len() == 10);
            reveal_strlit("entries");
            assert("entries"@.len() == 7);
        },
        Tag::Notification => {
            reveal_strlit("@type");
            assert("@type"@.len() == 5);
            reveal_strlit("@extra");
            assert("@extra"@.len() == 6);
            reveal_strlit("id");
            assert("id"@.len() == 2);
            reveal_strlit("date");
            assert("date"@.len() == 4);
            assert("date"@[0] == 'd');
            reveal_strlit("type");
            assert("type"@.len() == 4);
            assert("type"@[0] == 't');
        },
        Tag::PushReceiverId => {
            reveal_strlit("@type");
            assert("@type"@.len() == 5);
            reveal_strlit("@extra");
            assert("@extra"@.len() == 6);
            reveal_strlit("id");
            assert("id"@.len() == 2);
        },
        Tag::StickerSetInfo => {
            reveal_strlit("@type");
            assert("@type"@.len() == 5);
            assert("@type"@[0] == '@');
            reveal_strlit("@extra");
            assert("@extra"@.len() == 6);
            assert("@extra"@[0] == '@');
            reveal_strlit("id");
            assert("id"@.len() == 2);
            reveal_strlit("title");
            assert("title"@.len() == 5);
            assert("title"@[0] == 't');
            reveal_strlit("name");
            assert("name"@.len() == 4);
            assert("name"@[0] == 'n');
            reveal_strlit("is_installed");
            assert("is_installed"@.len() == 12);
            reveal_strlit("is_archived");
            assert("is_archived"@.len() == 11);
            assert("is_archived"@[3] == 'a');
            reveal_strlit("is_official");
            assert("is_official"@.len() == 11);
            assert("is_official"@[3] == 'o');
            reveal_strlit("is_masks");
            assert("is_masks"@.len() == 8);
            reveal_strlit("is_viewed");
            assert("is_viewed"@.len() == 9);
            reveal_strlit("size");
            assert("size"@.len() == 4);
            assert("size"@[0] == 's');
            reveal_strlit("covers");
            assert("covers"@.len() == 6);
            assert("covers"@[0] == 'c');
        },
        Tag::StorageStatisticsByChat => {
            reveal_strlit("@type");
            assert("@type"@.len() == 5);
            assert("@type"@[0] == '@');
            reveal_strlit("@extra");
            assert("@extra"@.len() == 6);
            reveal_strlit("chat_id");
            assert("chat_id"@.len() == 7);
            reveal_strlit("size");
            assert("size"@.len() == 4);
            reveal_strlit("count");
            assert("count"@.len() == 5);
            assert("count"@[0] == 'c');
            reveal_strlit("by_file_type");
            assert("by_file_type"@.len() == 12);
        },
        Tag::StorageStatisticsFast => {
            reveal_strlit("@type");
            assert("@type"@.len() == 5);
            reveal_strlit("@extra");
            assert("@extra"@.len() == 6);
            reveal_strlit("files_size");
            assert("files_size"@.len() == 10);
            assert("files_size"@[4] == 's');
            reveal_strlit("file_count");
            assert("file_count"@.len() == 10);
            assert("file_count"@[4] == '_');
            reveal_strlit("database_size");
            assert("database_size"@.len() == 13);
            reveal_strlit("language_pack_database_size");
            assert("language_pack_database_size"@.len() == 27);
            reveal_strlit("log_size");
            assert("log_size"@.len() == 8);
        },
        Tag::VideoNote => {
            reveal_strlit("@type");
            assert("@type"@.len() == 5);
            assert("@type"@[0] == '@');
            reveal_strlit("@extra");
            assert("@extra"@.len() == 6);
            assert("@extra"@[0] == '@');
            reveal_strlit("duration");
            assert("duration"@.len() == 8);
            reveal_strlit("length");
            assert("length"@.len() == 6);
            assert("length"@[0] == 'l');
            reveal_strlit("thumbnail");
            assert("thumbnail"@.len() == 9);
            reveal_strlit("video");
            assert("video"@.len() == 5);
            assert("video"@[0] == 'v');
        },
        Tag::UpdateAuthorizationState => {
            reveal_strlit("@type");
            assert("@type"@.len() == 5);
            reveal_strlit("@extra");
            assert("@extra"@.len() == 6);
            reveal_strlit("authorization_state");
            assert("authorization_state"@.len() == 19);
        },
        Tag::GetAuthorizationState => {},
        Tag::AuthorizationStateWaitTdlibParameters => {},
        Tag::AuthorizationStateWaitEncryptionKey => {
            reveal_strlit("@type");
            assert("@type"@.len() == 5);
            reveal_strlit("@extra");
            assert("@extra"@.len() == 6);
            reveal_strlit("is_encrypted");
            assert("is_encrypted"@.len() == 12);
        },
        Tag::AuthorizationStateWaitPhoneNumber => {},
        Tag::AuthorizationStateWaitCode => {
            reveal_strlit("@type");
            assert("@type"@.len() == 5);
            reveal_strlit("@extra");
            assert("@extra"@.len() == 6);
            reveal_strlit("is_registered");
            assert("is_registered"@.len() == 13);
            reveal_strlit("terms_of_service");
            assert("terms_of_service"@.len() == 16);
            reveal_strlit("code_info");
            assert("code_info"@.len() == 9);
        },
        Tag::AuthorizationStateWaitPassword => {
            reveal_strlit("@type");
            assert("@type"@.len() == 5);
            reveal_strlit("@extra");
            assert("@extra"@.len() == 6);
            reveal_strlit("password_hint");
            assert("password_hint"@.len() == 13);
            reveal_strlit("has_recovery_email_address");
            assert("has_recovery_email_address"@.len() == 26);
            reveal_strlit("recovery_email_address_pattern");
            assert("recovery_email_address_pattern"@.len() == 30);
        },
        Tag::AuthorizationStateReady => {},
        Tag::AuthorizationStateLoggingOut => {},
        Tag::AuthorizationStateClosing => {},
        Tag::AuthorizationStateClosed => {},
    }
}

impl Tag {
    /// The discriminator string of this shape.
    pub fn name(&self) -> (r: &'static str)
        ensures
            r@ == tag_name(*self),
    {
        match self {
            Tag::OkResult => "ok",
            Tag::Error => "error",
            Tag::TestVectorInt => "testVectorInt",
            Tag::LabeledPricePart => "labeledPricePart",
            Tag::NetworkStatistics => "networkStatistics",
            Tag::Notification => "notification",
            Tag::PushReceiverId => "pushReceiverId",
            Tag::StickerSetInfo => "stickerSetInfo",
            Tag::StorageStatisticsByChat => "storageStatisticsByChat",
            Tag::StorageStatisticsFast => "storageStatisticsFast",
            Tag::VideoNote => "videoNote",
            Tag::UpdateAuthorizationState => "updateAuthorizationState",
            Tag::GetAuthorizationState => "getAuthorizationState",
            Tag::AuthorizationStateWaitTdlibParameters => "authorizationStateWaitTdlibParameters",
            Tag::AuthorizationStateWaitEncryptionKey => "authorizationStateWaitEncryptionKey",
            Tag::AuthorizationStateWaitPhoneNumber => "authorizationStateWaitPhoneNumber",
            Tag::AuthorizationStateWaitCode => "authorizationStateWaitCode",
            Tag::AuthorizationStateWaitPassword => "authorizationStateWaitPassword",
            Tag::AuthorizationStateReady => "authorizationStateReady",
            Tag::AuthorizationStateLoggingOut => "authorizationStateLoggingOut",
            Tag::AuthorizationStateClosing => "authorizationStateClosing",
            Tag::AuthorizationStateClosed => "authorizationStateClosed",
        }
    }

    /// The category of this shape.
    pub fn category(&self) -> (r: Option<Category>)
        ensures
            r == category_of(*self),
    {
        match self {
            Tag::OkResult => None,
            Tag::Error => None,
            Tag::TestVectorInt => None,
            Tag::LabeledPricePart => None,
            Tag::NetworkStatistics => None,
            Tag::Notification => None,
            Tag::PushReceiverId => None,
            Tag::StickerSetInfo => None,
            Tag::StorageStatisticsByChat => None,
            Tag::StorageStatisticsFast => None,
            Tag::VideoNote => None,
            Tag::UpdateAuthorizationState => Some(Category::Update),
            Tag::GetAuthorizationState => None,
            Tag::AuthorizationStateWaitTdlibParameters => Some(Category::AuthorizationState),
            Tag::AuthorizationStateWaitEncryptionKey => Some(Category::AuthorizationState),
            Tag::AuthorizationStateWaitPhoneNumber => Some(Category::AuthorizationState),
            Tag::AuthorizationStateWaitCode => Some(Category::AuthorizationState),
            Tag::AuthorizationStateWaitPassword => Some(Category::AuthorizationState),
            Tag::AuthorizationStateReady => Some(Category::AuthorizationState),
            Tag::AuthorizationStateLoggingOut => Some(Category::AuthorizationState),
            Tag::AuthorizationStateClosing => Some(Category::AuthorizationState),
            Tag::AuthorizationStateClosed => Some(Category::AuthorizationState),
        }
    }

    /// Whether this shape can arrive on the wire.
    pub fn in_union(&self) -> (r: bool)
        ensures
            r == in_union(*self),
    {
        match self {
            Tag::OkResult => true,
            Tag::Error => true,
            Tag::TestVectorInt => true,
            Tag::LabeledPricePart => false,
            Tag::NetworkStatistics => true,
            Tag::Notification => false,
            Tag::PushReceiverId => false,
            Tag::StickerSetInfo => false,
            Tag::StorageStatisticsByChat => false,
            Tag::StorageStatisticsFast => true,
            Tag::VideoNote => false,
            Tag::UpdateAuthorizationState => true,
            Tag::GetAuthorizationState => false,
            Tag::AuthorizationStateWaitTdlibParameters => true,
            Tag::AuthorizationStateWaitEncryptionKey => true,
            Tag::AuthorizationStateWaitPhoneNumber => true,
            Tag::AuthorizationStateWaitCode => true,
            Tag::AuthorizationStateWaitPassword => true,
            Tag::AuthorizationStateReady => true,
            Tag::AuthorizationStateLoggingOut => true,
            Tag::AuthorizationStateClosing => true,
            Tag::AuthorizationStateClosed => true,
        }
    }
}

/// Looks a discriminator up in the table.
pub fn lookup_tag(s: &str) -> (r: Option<Tag>)
    ensures
        r == tag_named(s@),
{
    proof {
        lemma_names_distinct();
    }
    if str_eq(s, "ok") {
        assert(tag_name(Tag::OkResult) == s@);
        return Some(Tag::OkResult);
    }
    if str_eq(s, "error") {
        assert(tag_name(Tag::Error) == s@);
        return Some(Tag::Error);
    }
    if str_eq(s, "testVectorInt") {
        assert(tag_name(Tag::TestVectorInt) == s@);
        return Some(Tag::TestVectorInt);
    }
    if str_eq(s, "labeledPricePart") {
        assert(tag_name(Tag::LabeledPricePart) == s@);
        return Some(Tag::LabeledPricePart);
    }
    if str_eq(s, "networkStatistics") {
        assert(tag_name(Tag::NetworkStatistics) == s@);
        return Some(Tag::NetworkStatistics);
    }
    if str_eq(s, "notification") {
        assert(tag_name(Tag::Notification) == s@);
        return Some(Tag::Notification);
    }
    if str_eq(s, "pushReceiverId") {
        assert(tag_name(Tag::PushReceiverId) == s@);
        return Some(Tag::PushReceiverId);
    }
    if str_eq(s, "stickerSetInfo") {
        assert(tag_name(Tag::StickerSetInfo) == s@);
        return Some(Tag::StickerSetInfo);
    }
    if str_eq(s, "storageStatisticsByChat") {
        assert(tag_name(Tag::StorageStatisticsByChat) == s@);
        return Some(Tag::StorageStatisticsByChat);
    }
    if str_eq(s, "storageStatisticsFast") {
        assert(tag_name(Tag::StorageStatisticsFast) == s@);
        return Some(Tag::StorageStatisticsFast);
    }
    if str_eq(s, "videoNote") {
        assert(tag_name(Tag::VideoNote) == s@);
        return Some(Tag::VideoNote);
    }
    if str_eq(s, "updateAuthorizationState") {
        assert(tag_name(Tag::UpdateAuthorizationState) == s@);
        return Some(Tag::UpdateAuthorizationState);
    }
    if str_eq(s, "getAuthorizationState") {
        assert(tag_name(Tag::GetAuthorizationState) == s@);
        return Some(Tag::GetAuthorizationState);
    }
    if str_eq(s, "authorizationStateWaitTdlibParameters") {
        assert(tag_name(Tag::AuthorizationStateWaitTdlibParameters) == s@);
        return Some(Tag::AuthorizationStateWaitTdlibParameters);
    }
    if str_eq(s, "authorizationStateWaitEncryptionKey") {
        assert(tag_name(Tag::AuthorizationStateWaitEncryptionKey) == s@);
        return Some(Tag::AuthorizationStateWaitEncryptionKey);
    }
    if str_eq(s, "authorizationStateWaitPhoneNumber") {
        assert(tag_name(Tag::AuthorizationStateWaitPhoneNumber) == s@);
        return Some(Tag::AuthorizationStateWaitPhoneNumber);
    }
    if str_eq(s, "authorizationStateWaitCode") {
        assert(tag_name(Tag::AuthorizationStateWaitCode) == s@);
        return Some(Tag::AuthorizationStateWaitCode);
    }
    if str_eq(s, "authorizationStateWaitPassword") {
        assert(tag_name(Tag::AuthorizationStateWaitPassword) == s@);
        return Some(Tag::AuthorizationStateWaitPassword);
    }
    if str_eq(s, "authorizationStateReady") {
        assert(tag_name(Tag::AuthorizationStateReady) == s@);
        return Some(Tag::AuthorizationStateReady);
    }
    if str_eq(s, "authorizationStateLoggingOut") {
        assert(tag_name(Tag::AuthorizationStateLoggingOut) == s@);
        return Some(Tag::AuthorizationStateLoggingOut);
    }
    if str_eq(s, "authorizationStateClosing") {
        assert(tag_name(Tag::AuthorizationStateClosing) == s@);
        return Some(Tag::AuthorizationStateClosing);
    }
    if str_eq(s, "authorizationStateClosed") {
        assert(tag_name(Tag::AuthorizationStateClosed) == s@);
        return Some(Tag::AuthorizationStateClosed);
    }
    None
}

} // verus!
