//! Status, event and flag codes used across the client.
//!
//! The broker's wire-level numeric values for these codes are the native
//! driver's concern; here each code is a plain enum that the rest of the
//! library can match on and compare structurally.

use vstd::prelude::*;

verus! {

/// Return code of a driver call. `Okay` is the driver's success code.
#[derive(Debug, Clone, Copy, PartialEq, Eq, Structural)]
pub enum SolClientReturnCode {
    Okay,
    WouldBlock,
    InProgress,
    NotReady,
    Eos,
    NotFound,
    NoEvent,
    InComplete,
    Rollback,
    Fail,
}

/// Verbosity level for the driver's own logging.
#[derive(Debug, Clone, Copy, PartialEq, Eq, Structural)]
pub enum SolClientLogLevel {
    Emergency,
    Alert,
    Critical,
    Error,
    Warning,
    Notice,
    Info,
    Debug,
}

/// Session life-cycle event kinds delivered by the driver.
#[derive(Debug, Clone, Copy, PartialEq, Eq, Structural)]
pub enum SolClientSessionEvent {
    UpNotice,
    DownError,
    ConnectFailedError,
    RejectedMsgError,
    SubscriptionError,
    RxMsgTooBigError,
    Acknowledgement,
    AssuredPublishingUp,
    AssuredConnectFailed,
    TeUnsubscribeError,
    TeUnsubscribeOk,
    CanSend,
    ReconnectingNotice,
    ReconnectedNotice,
    ProvisionError,
    ProvisionOk,
    SubscriptionOk,
    VirtualRouterNameChanged,
    ModifyPropOk,
    ModifyPropFail,
    RepublishUnackedMessages,
}

/// Flags for subscription calls.
#[derive(Debug, Clone, Copy, PartialEq, Eq, Structural)]
pub enum SolClientSubscribeFlags {
    WaitForConfirm,
    LocalDispatchOnly,
    RequestConfirm,
}

/// Flags for cache requests.
#[derive(Debug, Clone, Copy, PartialEq, Eq, Structural)]
pub enum SolClientCacheRequestFlags {
    LiveDataFlowThru,
    LiveDataFulfill,
    LiveDataQueue,
    NoSubscribe,
    NowaitReply,
}

/// Cache status of a received message.
#[derive(Debug, Clone, Copy, PartialEq, Eq, Structural)]
pub enum SolClientCacheStatus {
    Invalid,
    Live,
    Cache,
    Suspect,
}

/// Delivery mode of a message.
#[derive(Debug, Clone, Copy, PartialEq, Eq, Structural)]
pub enum SolClientDeliveryMode {
    Direct,
    Persistent,
    NonPersistent,
}

/// Kind of a destination (topic or queue, durable or temporary).
#[derive(Debug, Clone, Copy, PartialEq, Eq, Structural)]
pub enum SolClientDestType {
    Null,
    Topic,
    Queue,
    TopicTemp,
    QueueTemp,
}

/// Diagnostic information the driver supplies after a failed call: a raw
/// subcode and a free-text description.
#[derive(Debug, Clone, PartialEq)]
pub struct ErrorInfo {
    pub sub_code: u32,
    pub error_str: String,
}

impl ErrorInfo {
    /// Builds a diagnostic record from a raw subcode and description.
    pub fn new(sub_code: u32, error_str: String) -> (r: ErrorInfo)
        ensures
            r.sub_code == sub_code,
            r.error_str@ == error_str@,
    {
        ErrorInfo { sub_code, error_str }
    }
}

} // verus!
