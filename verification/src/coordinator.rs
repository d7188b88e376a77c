//! Send/request coordination. A fire-and-forget send goes straight to the
//! driver. A blocking request holds the calling thread inside the driver
//! until reply or timeout. A non-blocking request (timeout 0) registers its
//! correlation identifier *before* submitting, so the classifier can match
//! the reply that later arrives on the driver's callback thread.
//!
//! The driver submission itself is the native adapter's work; the decisions
//! around it — which identifier to register, whether a return code means
//! acceptance, which typed error to surface — are here.

use vstd::prelude::*;

use crate::router::{CoreState, SessionCore};
use crate::solmsg::{MsgView, SolMsg, SolMsgError};
use crate::types::{ErrorInfo, SolClientReturnCode};

verus! {

/// Typed errors surfaced by the coordinator: submission faults and
/// correlation collisions are distinguished, each carrying the driver's
/// diagnostic where available.
#[derive(Debug, Clone, PartialEq)]
pub enum SolClientError {
    /// The driver context could not be created.
    ContextCreate,
    /// The driver rejected a request submission.
    SendRequest { topic: String, code: SolClientReturnCode, error: ErrorInfo },
    /// The driver rejected a cache request.
    SendCacheRequest { topic: String, request_id: u64, code: SolClientReturnCode, error: ErrorInfo },
    /// A message attribute needed by the coordinator was missing.
    SolMsg { source: SolMsgError },
    /// The correlation identifier is already registered: a fresh
    /// identifier is generated per call, so a collision is a caller error.
    CorrelationCollision { corr_id: String },
}

/// The correlation identifier a request is registered under: the
/// message's own, or the session default when it carries none.
pub open spec fn spec_correlation_key(m: MsgView) -> Seq<char> {
    match m.correlation_id {
        Some(c) => c,
        None => "c0"@,
    }
}

/// Reads the correlation identifier a request is registered under.
pub fn correlation_key(msg: &SolMsg) -> (r: String)
    ensures
        r@ == spec_correlation_key(msg@),
{
    match &msg.correlation_id {
        Some(c) => c.clone(),
        None => "c0".to_owned(),
    }
}

/// Whether the driver accepted a request submission: a blocking request
/// succeeds with the success code, a non-blocking one with the
/// in-progress code.
pub open spec fn spec_submit_accepted(timeout: u32, code: SolClientReturnCode) -> bool {
    (timeout == 0 && code == SolClientReturnCode::InProgress) || (timeout > 0 && code
        == SolClientReturnCode::Okay)
}

/// Decides whether a request submission was accepted.
pub fn submit_accepted(timeout: u32, code: SolClientReturnCode) -> (r: bool)
    ensures
        r == spec_submit_accepted(timeout, code),
{
    (timeout == 0 && code == SolClientReturnCode::InProgress) || (timeout > 0 && code
        == SolClientReturnCode::Okay)
}

impl SessionCore {
    /// Pre-submission step of a request. In the non-blocking mode
    /// (timeout 0) the correlation identifier is registered before the
    /// driver sees the message, so that the classifier can match the
    /// reply; an identifier already registered is a caller error and
    /// nothing changes. A blocking request (timeout above 0) uses no
    /// registration: the driver hands the reply back synchronously.
    pub fn begin_request(&mut self, msg: &SolMsg, timeout: u32) -> (r: Result<
        (),
        SolClientError,
    >)
        requires
            old(self).wf(),
        ensures
            final(self).wf(),
            timeout != 0 ==> (r is Ok && final(self).state() == old(self).state()),
            (timeout == 0 && !old(self).state().registry.contains_key(
                spec_correlation_key(msg@),
            )) ==> (r is Ok && final(self).state() == (CoreState {
                registry: old(self).state().registry.insert(
                    spec_correlation_key(msg@),
                    None::<SolMsg>,
                ),
                ..old(self).state()
            })),
            (timeout == 0 && old(self).state().registry.contains_key(
                spec_correlation_key(msg@),
            )) ==> ((r matches Err(e) && (e matches SolClientError::CorrelationCollision {
                corr_id,
            } && corr_id@ == spec_correlation_key(msg@))) && final(self).state() == old(
                self,
            ).state()),
    {
        if timeout != 0 {
            return Ok(());
        }
        let key = correlation_key(msg);
        let ok = self.registry.register(key.as_str());
        proof {
            if ok {
                assert(self.state() =~~= (CoreState {
                    registry: old(self).state().registry.insert(
                        spec_correlation_key(msg@),
                        None::<SolMsg>,
                    ),
                    ..old(self).state()
                }));
            } else {
                assert(self.state() =~~= old(self).state());
            }
        }
        if ok {
            Ok(())
        } else {
            Err(SolClientError::CorrelationCollision { corr_id: key })
        }
    }
}

/// Turns the driver's verdict on a request submission into the caller's
/// result: acceptance depends on the mode, and a rejection carries the
/// topic, the code, and the driver's diagnostic. A rejected non-blocking
/// request leaves its registry entry behind — the classifier drops a late
/// reply, and the entry lingers as in the reference design.
pub fn request_submit_outcome(
    topic: &str,
    timeout: u32,
    code: SolClientReturnCode,
    error: ErrorInfo,
) -> (r: Result<(), SolClientError>)
    ensures
        r is Ok <==> spec_submit_accepted(timeout, code),
        !spec_submit_accepted(timeout, code) ==> (r matches Err(e) && (e
            matches SolClientError::SendRequest { topic: t, code: c, error: er } && t@ == topic@
            && c == code && er == error)),
{
    if submit_accepted(timeout, code) {
        Ok(())
    } else {
        Err(SolClientError::SendRequest { topic: topic.to_owned(), code, error })
    }
}

/// Turns the result of awaiting a registered reply into the caller's
/// result: a received message is handed through unchanged; an abandoned
/// wait (the reply channel closed or timed out with nothing received) is
/// a submission error with the failure code, carrying the driver's last
/// diagnostic where one is available and a fixed description otherwise.
pub fn request_await_outcome(
    topic: &str,
    received: Option<SolMsg>,
    last_error: Option<ErrorInfo>,
) -> (r: Result<SolMsg, SolClientError>)
    ensures
        received matches Some(m) ==> r == Ok::<SolMsg, SolClientError>(m),
        received is None ==> (r matches Err(e) && (e matches SolClientError::SendRequest {
            topic: t,
            code,
            error,
        } && t@ == topic@ && code == SolClientReturnCode::Fail && (match last_error {
            Some(le) => error == le,
            None => error.error_str@ == "Response timeout or channel closed"@,
        }))),
{
    match received {
        Some(m) => Ok(m),
        None => Err(
            SolClientError::SendRequest {
                topic: topic.to_owned(),
                code: SolClientReturnCode::Fail,
                error: match last_error {
                    Some(le) => le,
                    None => ErrorInfo::new(0, "Response timeout or channel closed".to_owned()),
                },
            },
        ),
    }
}

/// Turns the driver's verdict on a cache request into the caller's
/// result: anything but the success code is a typed error carrying the
/// topic, the request identifier, the code and the driver's diagnostic.
pub fn cache_request_outcome(
    topic: &str,
    request_id: u64,
    code: SolClientReturnCode,
    error: ErrorInfo,
) -> (r: Result<(), SolClientError>)
    ensures
        r is Ok <==> code == SolClientReturnCode::Okay,
        code != SolClientReturnCode::Okay ==> (r matches Err(e) && (e
            matches SolClientError::SendCacheRequest { topic: t, request_id: id, code: c, error: er }
            && t@ == topic@ && id == request_id && c == code && er == error)),
{
    if code == SolClientReturnCode::Okay {
        Ok(())
    } else {
        Err(
            SolClientError::SendCacheRequest {
                topic: topic.to_owned(),
                request_id,
                code,
                error,
            },
        )
    }
}

/// A validated client-info change: at least one of the two fields is
/// present.
#[derive(Debug)]
pub struct ClientInfoUpdate {
    pub app_description: Option<String>,
    pub client_name: Option<String>,
}

/// Validates a client-info change before it is handed to the driver:
/// with nothing to change the driver is not called at all and the
/// not-found code is returned.
pub fn modify_client_info_request(
    app_description: Option<&str>,
    client_name: Option<&str>,
) -> (r: Result<ClientInfoUpdate, SolClientReturnCode>)
    ensures
        (app_description is None && client_name is None) ==> r == Err::<
            ClientInfoUpdate,
            SolClientReturnCode,
        >(SolClientReturnCode::NotFound),
        !(app_description is None && client_name is None) ==> (r matches Ok(u) && (match (
            app_description,
            u.app_description,
        ) {
            (Some(a), Some(ua)) => ua@ == a@,
            (None, None) => true,
            _ => false,
        }) && (match (client_name, u.client_name) {
            (Some(n), Some(un)) => un@ == n@,
            (None, None) => true,
            _ => false,
        })),
{
    if app_description.is_none() && client_name.is_none() {
        return Err(SolClientReturnCode::NotFound);
    }
    Ok(
        ClientInfoUpdate {
            app_description: match app_description {
                Some(a) => Some(a.to_owned()),
                None => None,
            },
            client_name: match client_name {
                Some(n) => Some(n.to_owned()),
                None => None,
            },
        },
    )
}

} // verus!
