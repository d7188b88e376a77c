//! The live client wiring: the four typed channels and the concurrent
//! reply map that carry inbound traffic from the driver's callback thread
//! to application threads. The channels are kanal's multi-producer queues;
//! the reply map is dashmap's sharded concurrent map, so registering
//! callers never lock out the classifier on unrelated keys. The native
//! session itself (connect, subscribe, submit) is the driver's and stays
//! outside this library; the routing and registration decisions taken
//! here are verified against the classifier's specification.

use vstd::prelude::*;

use crate::coordinator::{correlation_key, spec_correlation_key, SolClientError};
use crate::router::spec_classify_ids;
use crate::solevent::SolEvent;
use crate::solmsg::{MsgView, SolMsg};
use crate::types::SolClientLogLevel;
use crate::MsgCategory;

verus! {

#[verifier::external_type_specification]
#[verifier::external_body]
#[verifier::reject_recursive_types(T)]
pub struct ExSender<T>(kanal::Sender<T>);

#[verifier::external_type_specification]
#[verifier::external_body]
#[verifier::reject_recursive_types(T)]
pub struct ExReceiver<T>(kanal::Receiver<T>);

#[verifier::external_type_specification]
#[verifier::external_body]
#[verifier::reject_recursive_types(K)]
#[verifier::reject_recursive_types(V)]
#[verifier::reject_recursive_types(S)]
pub struct ExDashMap<K, V, S>(dashmap::DashMap<K, V, S>);

/// The set of correlation identifiers registered in a reply map.
pub uninterp spec fn reply_map_ids(m: dashmap::DashMap<String, kanal::Sender<SolMsg>>) -> Set<
    Seq<char>,
>;

/// Relies on dashmap::DashMap::new: a fresh map holds no key.
#[verifier::external_body]
fn reply_map_new() -> (r: dashmap::DashMap<String, kanal::Sender<SolMsg>>)
    ensures
        reply_map_ids(r) == Set::<Seq<char>>::empty(),
{
    dashmap::DashMap::new()
}

/// Relies on dashmap::DashMap::contains_key: whether the key is present.
#[verifier::external_body]
fn reply_map_contains(m: &dashmap::DashMap<String, kanal::Sender<SolMsg>>, id: &str) -> (r: bool)
    ensures
        r == reply_map_ids(*m).contains(id@),
{
    m.contains_key(id)
}

/// Relies on dashmap::DashMap::insert: the entry is stored under its key;
/// an entry already under that key is replaced.
#[verifier::external_body]
fn reply_map_insert(
    m: &mut dashmap::DashMap<String, kanal::Sender<SolMsg>>,
    id: String,
    sender: kanal::Sender<SolMsg>,
)
    ensures
        reply_map_ids(*final(m)) == reply_map_ids(*old(m)).insert(id@),
{
    m.insert(id, sender);
}

/// Relies on dashmap::DashMap::remove: removes and returns the entry for
/// the key, atomically; afterwards the key is absent.
#[verifier::external_body]
fn reply_map_remove(m: &mut dashmap::DashMap<String, kanal::Sender<SolMsg>>, id: &str) -> (r:
    Option<kanal::Sender<SolMsg>>)
    ensures
        r is Some <==> reply_map_ids(*old(m)).contains(id@),
        reply_map_ids(*final(m)) == reply_map_ids(*old(m)).remove(id@),
{
    match m.remove(id) {
        Some(kv) => Some(kv.1),
        None => None,
    }
}

/// Relies on kanal::unbounded: a connected sender/receiver pair over an
/// unbounded queue.
#[verifier::external_body]
fn channel_unbounded<T>() -> (r: (kanal::Sender<T>, kanal::Receiver<T>)) {
    kanal::unbounded()
}

/// Relies on kanal::bounded: a connected sender/receiver pair over a
/// queue of the given capacity.
#[verifier::external_body]
fn channel_bounded<T>(size: usize) -> (r: (kanal::Sender<T>, kanal::Receiver<T>)) {
    kanal::bounded(size)
}

/// Relies on kanal::Sender::try_send: hands the item to the channel
/// without ever waiting — the classifier must never block the driver's
/// callback thread. Returns `false`, dropping the item, when the channel
/// is closed or its queue is full; an unbounded channel's queue is never
/// full.
#[verifier::external_body]
fn channel_send<T>(sender: &kanal::Sender<T>, item: T) -> (r: bool) {
    match sender.try_send(item) {
        Ok(sent) => sent,
        Err(_) => false,
    }
}

/// Relies on kanal::Receiver's Clone: another handle onto the same queue.
#[verifier::external_body]
fn channel_receiver_clone<T>(receiver: &kanal::Receiver<T>) -> (r: kanal::Receiver<T>) {
    receiver.clone()
}

/// The session-side client state this library owns: one sender/receiver
/// pair per typed channel, and the concurrent reply map keyed by
/// correlation identifier.
pub struct SolClient {
    msg_sender: kanal::Sender<SolMsg>,
    msg_receiver: kanal::Receiver<SolMsg>,
    p2p_sender: kanal::Sender<SolMsg>,
    p2p_receiver: kanal::Receiver<SolMsg>,
    request_sender: kanal::Sender<SolMsg>,
    request_receiver: kanal::Receiver<SolMsg>,
    event_sender: kanal::Sender<SolEvent>,
    event_receiver: kanal::Receiver<SolEvent>,
    request_reply_map: dashmap::DashMap<String, kanal::Sender<SolMsg>>,
}

impl SolClient {
    /// The correlation identifiers currently registered for replies.
    pub closed spec fn reply_ids(&self) -> Set<Seq<char>> {
        reply_map_ids(self.request_reply_map)
    }

    /// Creates the client: four fresh channels and an empty reply map.
    /// The log level is the driver's concern and only recorded by it.
    pub fn new(log_level: SolClientLogLevel) -> (r: Result<SolClient, SolClientError>)
        ensures
            r matches Ok(c) && c.reply_ids() == Set::<Seq<char>>::empty(),
    {
        let _ = log_level;
        let (msg_sender, msg_receiver) = channel_unbounded();
        let (p2p_sender, p2p_receiver) = channel_unbounded();
        let (request_sender, request_receiver) = channel_unbounded();
        let (event_sender, event_receiver) = channel_unbounded();
        Ok(
            SolClient {
                msg_sender,
                msg_receiver,
                p2p_sender,
                p2p_receiver,
                request_sender,
                request_receiver,
                event_sender,
                event_receiver,
                request_reply_map: reply_map_new(),
            },
        )
    }

    /// A receiver for the general message channel.
    pub fn get_msg_receiver(&self) -> kanal::Receiver<SolMsg> {
        channel_receiver_clone(&self.msg_receiver)
    }

    /// A receiver for the inbound request channel.
    pub fn get_request_receiver(&self) -> kanal::Receiver<SolMsg> {
        channel_receiver_clone(&self.request_receiver)
    }

    /// A receiver for the peer-to-peer channel.
    pub fn get_p2p_receiver(&self) -> kanal::Receiver<SolMsg> {
        channel_receiver_clone(&self.p2p_receiver)
    }

    /// A receiver for the event channel.
    pub fn get_event_receiver(&self) -> kanal::Receiver<SolEvent> {
        channel_receiver_clone(&self.event_receiver)
    }

    /// Classifies one inbound message on the driver's callback thread and
    /// hands it to exactly one destination: a matched reply fulfills and
    /// removes its registration; anything else goes onto one channel. The
    /// first component is the classifier's verdict — `None` for a reply
    /// matching no registration, which is dropped with nothing changed.
    /// The second says whether the channel accepted the hand-off; the
    /// caller may log a `false`, but a delivery fault never propagates
    /// back to the driver. The call never blocks.
    pub fn route_inbound_msg(&mut self, msg: SolMsg) -> (r: (Option<MsgCategory>, bool))
        ensures
            r.0 == spec_classify_ids(msg@, old(self).reply_ids()),
            r.0 == Some(MsgCategory::ReplyMatched) ==> ({
                &&& msg@.correlation_id matches Some(cid)
                &&& final(self).reply_ids() == old(self).reply_ids().remove(cid)
            }),
            r.0 != Some(MsgCategory::ReplyMatched) ==> final(self).reply_ids() == old(self).reply_ids(),
            r.0 is None ==> r.1 == false,
    {
        if msg.is_reply() {
            match msg.get_correlation_id() {
                Ok(cid) => {
                    match reply_map_remove(&mut self.request_reply_map, cid.as_str()) {
                        Some(sender) => {
                            let delivered = channel_send(&sender, msg);
                            (Some(MsgCategory::ReplyMatched), delivered)
                        },
                        None => (None, false),
                    }
                },
                Err(_) => (None, false),
            }
        } else if msg.reply_to.is_some() {
            let delivered = channel_send(&self.request_sender, msg);
            (Some(MsgCategory::RequestIncoming), delivered)
        } else if msg.is_p2p() {
            let delivered = channel_send(&self.p2p_sender, msg);
            (Some(MsgCategory::PeerToPeer), delivered)
        } else {
            let delivered = channel_send(&self.msg_sender, msg);
            (Some(MsgCategory::Plain), delivered)
        }
    }

    /// Hands one inbound event to the event channel; events bypass
    /// classification entirely. Returns whether the channel accepted it,
    /// for the caller to log; the call never blocks and never fails the
    /// driver.
    pub fn route_inbound_event(&self, event: SolEvent) -> bool {
        channel_send(&self.event_sender, event)
    }

    /// Registration step of a non-blocking request: a one-shot reply
    /// channel is created and its sender registered under the message's
    /// correlation identifier (or the session default) *before* the
    /// driver submits the message; the receiver is handed back for the
    /// caller to await. An identifier already registered is a caller
    /// error and nothing changes.
    pub fn send_request_begin(&mut self, msg: &SolMsg) -> (r: Result<
        kanal::Receiver<SolMsg>,
        SolClientError,
    >)
        ensures
            !old(self).reply_ids().contains(spec_correlation_key(msg@)) ==> (r is Ok && final(self).reply_ids() == old(self).reply_ids().insert(spec_correlation_key(msg@))),
            old(self).reply_ids().contains(spec_correlation_key(msg@)) ==> ((r matches Err(e) && (
            e matches SolClientError::CorrelationCollision { corr_id } && corr_id@
                == spec_correlation_key(msg@))) && final(self).reply_ids() == old(self).reply_ids()),
    {
        let key = correlation_key(msg);
        if reply_map_contains(&self.request_reply_map, key.as_str()) {
            return Err(SolClientError::CorrelationCollision { corr_id: key });
        }
        let (sender, receiver) = channel_bounded::<SolMsg>(1);
        reply_map_insert(&mut self.request_reply_map, key, sender);
        Ok(receiver)
    }
}

} // verus!
