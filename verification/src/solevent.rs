//! Session life-cycle events: a status code, a numeric response code and
//! free-text diagnostic info. Events are never correlated; the classifier
//! always routes them to the single event channel.

use vstd::prelude::*;

use crate::types::SolClientSessionEvent;

verus! {

/// A session life-cycle signal delivered by the driver.
#[derive(Debug, Clone)]
pub struct SolEvent {
    pub session_event: SolClientSessionEvent,
    pub response_code: u32,
    pub info: String,
}

/// Errors while decoding an event from the driver.
#[derive(Debug, Clone, PartialEq)]
pub enum SolEventError {
    NullEventPtr,
    NullInfoPtr,
    InfoUtf8,
}

impl SolEvent {
    /// Builds an event from its parts.
    pub fn new(session_event: SolClientSessionEvent, response_code: u32, info: &str) -> (r:
        SolEvent)
        ensures
            r.session_event == session_event,
            r.response_code == response_code,
            r.info@ == info@,
    {
        SolEvent { session_event, response_code, info: info.to_owned() }
    }

    /// Name of the session event kind, for diagnostics.
    pub fn get_session_event_string(&self) -> (r: String)
        ensures
            r@ == spec_session_event_name(self.session_event),
    {
        let s: &str = match self.session_event {
            SolClientSessionEvent::UpNotice => "UpNotice",
            SolClientSessionEvent::DownError => "DownError",
            SolClientSessionEvent::ConnectFailedError => "ConnectFailedError",
            SolClientSessionEvent::RejectedMsgError => "RejectedMsgError",
            SolClientSessionEvent::SubscriptionError => "SubscriptionError",
            SolClientSessionEvent::RxMsgTooBigError => "RxMsgTooBigError",
            SolClientSessionEvent::Acknowledgement => "Acknowledgement",
            SolClientSessionEvent::AssuredPublishingUp => "AssuredPublishingUp",
            SolClientSessionEvent::AssuredConnectFailed => "AssuredConnectFailed",
            SolClientSessionEvent::TeUnsubscribeError => "TeUnsubscribeError",
            SolClientSessionEvent::TeUnsubscribeOk => "TeUnsubscribeOk",
            SolClientSessionEvent::CanSend => "CanSend",
            SolClientSessionEvent::ReconnectingNotice => "ReconnectingNotice",
            SolClientSessionEvent::ReconnectedNotice => "ReconnectedNotice",
            SolClientSessionEvent::ProvisionError => "ProvisionError",
            SolClientSessionEvent::ProvisionOk => "ProvisionOk",
            SolClientSessionEvent::SubscriptionOk => "SubscriptionOk",
            SolClientSessionEvent::VirtualRouterNameChanged => "VirtualRouterNameChanged",
            SolClientSessionEvent::ModifyPropOk => "ModifyPropOk",
            SolClientSessionEvent::ModifyPropFail => "ModifyPropFail",
            SolClientSessionEvent::RepublishUnackedMessages => "RepublishUnackedMessages",
        };
        s.to_owned()
    }
}

/// Name of each session event kind.
pub open spec fn spec_session_event_name(e: SolClientSessionEvent) -> Seq<char> {
    match e {
        SolClientSessionEvent::UpNotice => "UpNotice"@,
        SolClientSessionEvent::DownError => "DownError"@,
        SolClientSessionEvent::ConnectFailedError => "ConnectFailedError"@,
        SolClientSessionEvent::RejectedMsgError => "RejectedMsgError"@,
        SolClientSessionEvent::SubscriptionError => "SubscriptionError"@,
        SolClientSessionEvent::RxMsgTooBigError => "RxMsgTooBigError"@,
        SolClientSessionEvent::Acknowledgement => "Acknowledgement"@,
        SolClientSessionEvent::AssuredPublishingUp => "AssuredPublishingUp"@,
        SolClientSessionEvent::AssuredConnectFailed => "AssuredConnectFailed"@,
        SolClientSessionEvent::TeUnsubscribeError => "TeUnsubscribeError"@,
        SolClientSessionEvent::TeUnsubscribeOk => "TeUnsubscribeOk"@,
        SolClientSessionEvent::CanSend => "CanSend"@,
        SolClientSessionEvent::ReconnectingNotice => "ReconnectingNotice"@,
        SolClientSessionEvent::ReconnectedNotice => "ReconnectedNotice"@,
        SolClientSessionEvent::ProvisionError => "ProvisionError"@,
        SolClientSessionEvent::ProvisionOk => "ProvisionOk"@,
        SolClientSessionEvent::SubscriptionOk => "SubscriptionOk"@,
        SolClientSessionEvent::VirtualRouterNameChanged => "VirtualRouterNameChanged"@,
        SolClientSessionEvent::ModifyPropOk => "ModifyPropOk"@,
        SolClientSessionEvent::ModifyPropFail => "ModifyPropFail"@,
        SolClientSessionEvent::RepublishUnackedMessages => "RepublishUnackedMessages"@,
    }
}

} // verus!
