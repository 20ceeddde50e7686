//! The records of the schema table, their categories, and the dispatch union.
pub mod authorization_state;
pub mod error;
pub mod get_authorization_state;
pub mod labeled_price_part;
pub mod network_statistics;
pub mod notification;
pub mod ok_result;
pub mod push_receiver_id;
pub mod sticker_set_info;
pub mod storage_statistics_by_chat;
pub mod storage_statistics_fast;
pub mod td_type;
pub mod test_vector_int;
pub mod update_authorization_state;
pub mod video_note;

pub use crate::codec::{detect_td_type, detect_td_type_and_extra, from_json, RFunction, RObject};
pub use crate::errors::{FieldProblem, RTDError, RTDResult};
pub use self::authorization_state::{
    AuthorizationState,
    AuthorizationStateWaitTdlibParameters,
    RTDAuthorizationStateWaitTdlibParametersBuilder,
    AuthorizationStateWaitEncryptionKey,
    RTDAuthorizationStateWaitEncryptionKeyBuilder,
    AuthorizationStateWaitPhoneNumber,
    RTDAuthorizationStateWaitPhoneNumberBuilder,
    AuthorizationStateWaitCode,
    RTDAuthorizationStateWaitCodeBuilder,
    AuthorizationStateWaitPassword,
    RTDAuthorizationStateWaitPasswordBuilder,
    AuthorizationStateReady,
    RTDAuthorizationStateReadyBuilder,
    AuthorizationStateLoggingOut,
    RTDAuthorizationStateLoggingOutBuilder,
    AuthorizationStateClosing,
    RTDAuthorizationStateClosingBuilder,
    AuthorizationStateClosed,
    RTDAuthorizationStateClosedBuilder,
};
pub use self::error::{Error, RTDErrorBuilder};
pub use self::get_authorization_state::{GetAuthorizationState, RTDGetAuthorizationStateBuilder};
pub use self::labeled_price_part::{LabeledPricePart, RTDLabeledPricePartBuilder};
pub use self::network_statistics::{NetworkStatistics, RTDNetworkStatisticsBuilder};
pub use self::notification::{Notification, RTDNotificationBuilder};
pub use self::ok_result::{OkResult, RTDOkResultBuilder};
pub use self::push_receiver_id::{PushReceiverId, RTDPushReceiverIdBuilder};
pub use self::sticker_set_info::{StickerSetInfo, RTDStickerSetInfoBuilder};
pub use self::storage_statistics_by_chat::{
    StorageStatisticsByChat,
    RTDStorageStatisticsByChatBuilder,
};
pub use self::storage_statistics_fast::{StorageStatisticsFast, RTDStorageStatisticsFastBuilder};
pub use self::td_type::{TdType};
pub use self::test_vector_int::{TestVectorInt, RTDTestVectorIntBuilder};
pub use self::update_authorization_state::{
    UpdateAuthorizationState,
    RTDUpdateAuthorizationStateBuilder,
};
pub use self::video_note::{VideoNote, RTDVideoNoteBuilder};
