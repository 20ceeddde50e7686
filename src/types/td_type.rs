//! The dispatch union: every record that can arrive on the wire, split
//! into pushed events and direct results of calls.
use crate::codec::{from_json, outcome, read_extra, read_tag, unknown, RObject};
use crate::errors::RTDResult;
use crate::model::{decode_text, RecordModel};
use crate::schema::Tag;
use crate::schema::{in_union, is_event, is_result};
use crate::types::authorization_state::{
    AuthorizationState, AuthorizationStateWaitTdlibParameters, AuthorizationStateWaitEncryptionKey,
    AuthorizationStateWaitPhoneNumber, AuthorizationStateWaitCode, AuthorizationStateWaitPassword,
    AuthorizationStateReady, AuthorizationStateLoggingOut, AuthorizationStateClosing,
    AuthorizationStateClosed,
};
use crate::types::ok_result::OkResult;
use crate::types::error::Error;
use crate::types::test_vector_int::TestVectorInt;
use crate::types::network_statistics::NetworkStatistics;
use crate::types::storage_statistics_fast::StorageStatisticsFast;
use crate::types::update_authorization_state::UpdateAuthorizationState;
use serde_json::Value;
use vstd::prelude::*;
use vstd::string::*;

verus! {

/// Every record that can arrive on the wire.
#[derive(Debug, Clone)]
pub enum TdType {
    OkResult(OkResult),
    Error(Error),
    TestVectorInt(TestVectorInt),
    NetworkStatistics(NetworkStatistics),
    StorageStatisticsFast(StorageStatisticsFast),
    UpdateAuthorizationState(UpdateAuthorizationState),
    AuthorizationState(AuthorizationState),
}

impl View for TdType {
    type V = RecordModel;

    open spec fn view(&self) -> RecordModel {
        match self {
            TdType::OkResult(x) => x@,
            TdType::Error(x) => x@,
            TdType::TestVectorInt(x) => x@,
            TdType::NetworkStatistics(x) => x@,
            TdType::StorageStatisticsFast(x) => x@,
            TdType::UpdateAuthorizationState(x) => x@,
            TdType::AuthorizationState(x) => x@,
        }
    }
}

impl RObject for TdType {
    open spec fn accepted() -> Set<Tag> {
        Set::new(|t: Tag| in_union(t))
    }

    proof fn lemma_view_wf(&self) {
        match self {
            TdType::OkResult(x) => x.lemma_view_wf(),
            TdType::Error(x) => x.lemma_view_wf(),
            TdType::TestVectorInt(x) => x.lemma_view_wf(),
            TdType::NetworkStatistics(x) => x.lemma_view_wf(),
            TdType::StorageStatisticsFast(x) => x.lemma_view_wf(),
            TdType::UpdateAuthorizationState(x) => x.lemma_view_wf(),
            TdType::AuthorizationState(x) => x.lemma_view_wf(),
        }
    }

    fn td_name(&self) -> (r: &'static str) {
        match self {
            TdType::OkResult(x) => x.td_name(),
            TdType::Error(x) => x.td_name(),
            TdType::TestVectorInt(x) => x.td_name(),
            TdType::NetworkStatistics(x) => x.td_name(),
            TdType::StorageStatisticsFast(x) => x.td_name(),
            TdType::UpdateAuthorizationState(x) => x.td_name(),
            TdType::AuthorizationState(x) => x.td_name(),
        }
    }

    fn extra(&self) -> (r: Option<String>) {
        match self {
            TdType::OkResult(x) => x.extra(),
            TdType::Error(x) => x.extra(),
            TdType::TestVectorInt(x) => x.extra(),
            TdType::NetworkStatistics(x) => x.extra(),
            TdType::StorageStatisticsFast(x) => x.extra(),
            TdType::UpdateAuthorizationState(x) => x.extra(),
            TdType::AuthorizationState(x) => x.extra(),
        }
    }

    fn to_value(&self) -> (r: Value) {
        match self {
            TdType::OkResult(x) => x.to_value(),
            TdType::Error(x) => x.to_value(),
            TdType::TestVectorInt(x) => x.to_value(),
            TdType::NetworkStatistics(x) => x.to_value(),
            TdType::StorageStatisticsFast(x) => x.to_value(),
            TdType::UpdateAuthorizationState(x) => x.to_value(),
            TdType::AuthorizationState(x) => x.to_value(),
        }
    }

    fn copied(&self) -> (r: Self) {
        match self {
            TdType::OkResult(x) => TdType::OkResult(x.copied()),
            TdType::Error(x) => TdType::Error(x.copied()),
            TdType::TestVectorInt(x) => TdType::TestVectorInt(x.copied()),
            TdType::NetworkStatistics(x) => TdType::NetworkStatistics(x.copied()),
            TdType::StorageStatisticsFast(x) => TdType::StorageStatisticsFast(x.copied()),
            TdType::UpdateAuthorizationState(x) => TdType::UpdateAuthorizationState(x.copied()),
            TdType::AuthorizationState(x) => TdType::AuthorizationState(x.copied()),
        }
    }

    fn from_value(v: &Value) -> (r: RTDResult<Self>) {
        let t = match read_tag(v) {
            Ok(t) => t,
            Err(e) => return Err(e),
        };
        if !(t.in_union()) {
            return Err(unknown(t));
        }
        let extra = match read_extra(v, t) {
            Ok(x) => x,
            Err(e) => return Err(e),
        };
        match t {
            Tag::OkResult => {
                match OkResult::read_fields(v, extra) {
                    Ok(x) => Ok(TdType::OkResult(x)),
                    Err(e) => Err(e),
                }
            },
            Tag::Error => {
                match Error::read_fields(v, extra) {
                    Ok(x) => Ok(TdType::Error(x)),
                    Err(e) => Err(e),
                }
            },
            Tag::TestVectorInt => {
                match TestVectorInt::read_fields(v, extra) {
                    Ok(x) => Ok(TdType::TestVectorInt(x)),
                    Err(e) => Err(e),
                }
            },
            Tag::NetworkStatistics => {
                match NetworkStatistics::read_fields(v, extra) {
                    Ok(x) => Ok(TdType::NetworkStatistics(x)),
                    Err(e) => Err(e),
                }
            },
            Tag::StorageStatisticsFast => {
                match StorageStatisticsFast::read_fields(v, extra) {
                    Ok(x) => Ok(TdType::StorageStatisticsFast(x)),
                    Err(e) => Err(e),
                }
            },
            Tag::UpdateAuthorizationState => {
                match UpdateAuthorizationState::read_fields(v, extra) {
                    Ok(x) => Ok(TdType::UpdateAuthorizationState(x)),
                    Err(e) => Err(e),
                }
            },
            Tag::AuthorizationStateWaitTdlibParameters => {
                match AuthorizationStateWaitTdlibParameters::read_fields(v, extra) {
                    Ok(x) => Ok(
                        TdType::AuthorizationState(AuthorizationState::WaitTdlibParameters(x)),
                    ),
                    Err(e) => Err(e),
                }
            },
            Tag::AuthorizationStateWaitEncryptionKey => {
                match AuthorizationStateWaitEncryptionKey::read_fields(v, extra) {
                    Ok(x) => Ok(
                        TdType::AuthorizationState(AuthorizationState::WaitEncryptionKey(x)),
                    ),
                    Err(e) => Err(e),
                }
            },
            Tag::AuthorizationStateWaitPhoneNumber => {
                match AuthorizationStateWaitPhoneNumber::read_fields(v, extra) {
                    Ok(x) => Ok(TdType::AuthorizationState(AuthorizationState::WaitPhoneNumber(x))),
                    Err(e) => Err(e),
                }
            },
            Tag::AuthorizationStateWaitCode => {
                match AuthorizationStateWaitCode::read_fields(v, extra) {
                    Ok(x) => Ok(TdType::AuthorizationState(AuthorizationState::WaitCode(x))),
                    Err(e) => Err(e),
                }
            },
            Tag::AuthorizationStateWaitPassword => {
                match AuthorizationStateWaitPassword::read_fields(v, extra) {
                    Ok(x) => Ok(TdType::AuthorizationState(AuthorizationState::WaitPassword(x))),
                    Err(e) => Err(e),
                }
            },
            Tag::AuthorizationStateReady => {
                match AuthorizationStateReady::read_fields(v, extra) {
                    Ok(x) => Ok(TdType::AuthorizationState(AuthorizationState::Ready(x))),
                    Err(e) => Err(e),
                }
            },
            Tag::AuthorizationStateLoggingOut => {
                match AuthorizationStateLoggingOut::read_fields(v, extra) {
                    Ok(x) => Ok(TdType::AuthorizationState(AuthorizationState::LoggingOut(x))),
                    Err(e) => Err(e),
                }
            },
            Tag::AuthorizationStateClosing => {
                match AuthorizationStateClosing::read_fields(v, extra) {
                    Ok(x) => Ok(TdType::AuthorizationState(AuthorizationState::Closing(x))),
                    Err(e) => Err(e),
                }
            },
            Tag::AuthorizationStateClosed => {
                match AuthorizationStateClosed::read_fields(v, extra) {
                    Ok(x) => Ok(TdType::AuthorizationState(AuthorizationState::Closed(x))),
                    Err(e) => Err(e),
                }
            },
            _ => Err(unknown(t)),
        }
    }
}

impl TdType {
    /// Decodes a text as any record that can arrive on the wire.
    pub fn from_json(json: &str) -> (r: RTDResult<Self>)
        ensures
            outcome(r) == decode_text(json@, Self::accepted()),
    {
        from_json::<Self>(json)
    }

    /// Whether this record is an event that the engine pushed on its own.
    pub fn is_event(&self) -> (r: bool)
        ensures
            r == is_event(self@.tag),
    {
        proof {
            self.lemma_kind();
        }
        match self {
            TdType::UpdateAuthorizationState(_) => true,
            _ => false,
        }
    }

    /// Whether this record is the direct result of a call.
    pub fn is_result(&self) -> (r: bool)
        ensures
            r == is_result(self@.tag),
    {
        proof {
            self.lemma_kind();
        }
        match self {
            TdType::UpdateAuthorizationState(_) => false,
            _ => true,
        }
    }

    /// The shape of a value is an event exactly for the event variant.
    proof fn lemma_kind(&self)
        ensures
            is_event(self@.tag) == (self is UpdateAuthorizationState),
            is_result(self@.tag) == !(self is UpdateAuthorizationState),
    {
        match self {
            TdType::OkResult(x) => x.lemma_view_wf(),
            TdType::Error(x) => x.lemma_view_wf(),
            TdType::TestVectorInt(x) => x.lemma_view_wf(),
            TdType::NetworkStatistics(x) => x.lemma_view_wf(),
            TdType::StorageStatisticsFast(x) => x.lemma_view_wf(),
            TdType::UpdateAuthorizationState(x) => x.lemma_view_wf(),
            TdType::AuthorizationState(x) => x.lemma_view_wf(),
        }
    }
}

} // verus!
