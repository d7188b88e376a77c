//! The inbound classifier and the typed channel set. Runs on the driver's
//! callback thread: each inbound message is inspected and routed to exactly
//! one destination — the correlation registry (a matched reply), the request
//! channel (it carries a reply-to address), the peer-to-peer channel (its
//! topic carries the point-to-point prefix), or the general message channel.
//! A reply that matches no live registry entry is dropped. Events bypass the
//! branching and always go to the event channel.

use vstd::prelude::*;

use crate::channel::FifoChannel;
use crate::registry::CorrelationRegistry;
use crate::solevent::SolEvent;
use crate::solmsg::{MsgView, SolMsg};
use crate::MsgCategory;

verus! {

/// The four independent first-in-first-out queues that decouple the
/// driver's callback thread from application-side consumption.
pub struct TypedChannelSet {
    pub msg: FifoChannel<SolMsg>,
    pub p2p: FifoChannel<SolMsg>,
    pub request: FifoChannel<SolMsg>,
    pub event: FifoChannel<SolEvent>,
}

impl TypedChannelSet {
    /// Creates the channel set with all queues empty.
    pub fn new() -> (r: Self)
        ensures
            r.msg@ == Seq::<SolMsg>::empty(),
            r.p2p@ == Seq::<SolMsg>::empty(),
            r.request@ == Seq::<SolMsg>::empty(),
            r.event@ == Seq::<SolEvent>::empty(),
    {
        TypedChannelSet {
            msg: FifoChannel::new(),
            p2p: FifoChannel::new(),
            request: FifoChannel::new(),
            event: FifoChannel::new(),
        }
    }
}

/// Ghost image of the classification state: the four queues and the
/// correlation registry.
#[verifier::ext_equal]
pub ghost struct CoreState {
    pub msg: Seq<SolMsg>,
    pub p2p: Seq<SolMsg>,
    pub request: Seq<SolMsg>,
    pub event: Seq<SolEvent>,
    pub registry: Map<Seq<char>, Option<SolMsg>>,
}

impl CoreState {
    /// Whether `id` has a live (pending) registry entry.
    pub open spec fn live(self, id: Seq<char>) -> bool {
        self.registry.contains_key(id) && self.registry[id] is None
    }
}

/// The category the classifier assigns to an inbound message, given the
/// set of live correlation identifiers, or `None` for a reply that
/// matches no live identifier and is dropped.
pub open spec fn spec_classify_ids(m: MsgView, live: Set<Seq<char>>) -> Option<MsgCategory> {
    if m.is_reply {
        match m.correlation_id {
            Some(cid) => if live.contains(cid) {
                Some(MsgCategory::ReplyMatched)
            } else {
                None
            },
            None => None,
        }
    } else if m.reply_to is Some {
        Some(MsgCategory::RequestIncoming)
    } else if m.is_p2p() {
        Some(MsgCategory::PeerToPeer)
    } else {
        Some(MsgCategory::Plain)
    }
}

/// The category the classifier assigns to an inbound message, or `None`
/// for a reply that matches no live registry entry and is dropped.
pub open spec fn spec_classify(m: MsgView, s: CoreState) -> Option<MsgCategory> {
    spec_classify_ids(m, Set::new(|k: Seq<char>| s.live(k)))
}

/// The state after routing one inbound message: exactly one destination
/// receives it, or nothing changes for a dropped reply.
pub open spec fn spec_route(s: CoreState, m: SolMsg) -> CoreState {
    match spec_classify(m@, s) {
        Some(MsgCategory::ReplyMatched) => CoreState {
            registry: match m@.correlation_id {
                Some(cid) => s.registry.insert(cid, Some(m)),
                None => s.registry,
            },
            ..s
        },
        Some(MsgCategory::RequestIncoming) => CoreState { request: s.request.push(m), ..s },
        Some(MsgCategory::PeerToPeer) => CoreState { p2p: s.p2p.push(m), ..s },
        Some(MsgCategory::Plain) => CoreState { msg: s.msg.push(m), ..s },
        None => s,
    }
}

/// The classification state and the logic that routes inbound traffic
/// into it.
pub struct SessionCore {
    pub channels: TypedChannelSet,
    pub registry: CorrelationRegistry,
}

impl SessionCore {
    /// The registry's invariant, carried by the whole state.
    pub open spec fn wf(&self) -> bool {
        self.registry.wf()
    }

    /// Ghost image of the whole classification state.
    pub open spec fn state(&self) -> CoreState {
        CoreState {
            msg: self.channels.msg@,
            p2p: self.channels.p2p@,
            request: self.channels.request@,
            event: self.channels.event@,
            registry: self.registry@,
        }
    }

    /// Creates an empty classification state.
    pub fn new() -> (r: Self)
        ensures
            r.wf(),
            r.state() == (CoreState {
                msg: Seq::<SolMsg>::empty(),
                p2p: Seq::<SolMsg>::empty(),
                request: Seq::<SolMsg>::empty(),
                event: Seq::<SolEvent>::empty(),
                registry: Map::<Seq<char>, Option<SolMsg>>::empty(),
            }),
    {
        SessionCore { channels: TypedChannelSet::new(), registry: CorrelationRegistry::new() }
    }

    /// Classifies one inbound message and routes it to exactly one
    /// destination; returns the category assigned, or `None` for a
    /// dropped reply. Never blocks and never fails: a routing anomaly
    /// leaves the state unchanged.
    pub fn on_inbound_msg(&mut self, msg: SolMsg) -> (cat: Option<MsgCategory>)
        requires
            old(self).wf(),
        ensures
            final(self).wf(),
            cat == spec_classify(msg@, old(self).state()),
            final(self).state() == spec_route(old(self).state(), msg),
    {
        if msg.is_reply() {
            match msg.get_correlation_id() {
                Ok(cid) => {
                    let matched = self.registry.resolve(cid.as_str(), msg);
                    proof {
                        assert(self.state() =~~= spec_route(old(self).state(), msg));
                    }
                    if matched {
                        Some(MsgCategory::ReplyMatched)
                    } else {
                        None
                    }
                },
                Err(_) => {
                    proof {
                        assert(self.state() =~~= spec_route(old(self).state(), msg));
                    }
                    None
                },
            }
        } else if self.has_reply_to(&msg) {
            self.channels.request.push(msg);
            proof {
                assert(self.state() =~~= spec_route(old(self).state(), msg));
            }
            Some(MsgCategory::RequestIncoming)
        } else if msg.is_p2p() {
            self.channels.p2p.push(msg);
            proof {
                assert(self.state() =~~= spec_route(old(self).state(), msg));
            }
            Some(MsgCategory::PeerToPeer)
        } else {
            self.channels.msg.push(msg);
            proof {
                assert(self.state() =~~= spec_route(old(self).state(), msg));
            }
            Some(MsgCategory::Plain)
        }
    }

    /// Whether a message carries a reply-to destination.
    fn has_reply_to(&self, msg: &SolMsg) -> (r: bool)
        ensures
            r == (msg@.reply_to is Some),
    {
        msg.reply_to.is_some()
    }

    /// Routes one inbound event: always onto the event channel.
    pub fn on_inbound_event(&mut self, event: SolEvent)
        requires
            old(self).wf(),
        ensures
            final(self).wf(),
            final(self).state() == (CoreState {
                event: old(self).state().event.push(event),
                ..old(self).state()
            }),
    {
        self.channels.event.push(event);
        proof {
            assert(self.state() =~~= (CoreState {
                event: old(self).state().event.push(event),
                ..old(self).state()
            }));
        }
    }

    /// Removes and returns the fulfilled reply registered under `id`, if
    /// one is waiting: the requester's one-shot read.
    pub fn take_reply(&mut self, id: &str) -> (r: Option<SolMsg>)
        requires
            old(self).wf(),
        ensures
            final(self).wf(),
            (old(self).state().registry.contains_key(id@) && old(self).state().registry[id@]
                is Some) ==> (r == old(self).state().registry[id@] && final(self).state() == (
            CoreState { registry: old(self).state().registry.remove(id@), ..old(self).state() })),
            !(old(self).state().registry.contains_key(id@) && old(self).state().registry[id@]
                is Some) ==> (r is None && final(self).state() == old(self).state()),
    {
        let r = self.registry.take(id);
        proof {
            if old(self).state().registry.contains_key(id@) && old(self).state().registry[id@]
                is Some {
                assert(self.state() =~~= (CoreState {
                    registry: old(self).state().registry.remove(id@),
                    ..old(self).state()
                }));
            } else {
                assert(self.state() =~~= old(self).state());
            }
        }
        r
    }
}

/// Exactly-once delivery: every inbound message is observed by exactly one
/// of the correlation registry, the request channel, the peer-to-peer
/// channel and the message channel — except a reply matching no live
/// registry entry, which is dropped with nothing delivered anywhere. The
/// event channel never receives a message.
pub proof fn lemma_exactly_once_delivery(s: CoreState, m: SolMsg)
    ensures
        ({
            let c = spec_classify(m@, s);
            let s2 = spec_route(s, m);
            &&& s2.event == s.event
            &&& c == Some(MsgCategory::ReplyMatched) ==> (s2.msg == s.msg && s2.p2p == s.p2p
                && s2.request == s.request && (m@.correlation_id matches Some(cid) && s2.registry
                == s.registry.insert(cid, Some(m))))
            &&& c == Some(MsgCategory::RequestIncoming) ==> (s2.request == s.request.push(m)
                && s2.msg == s.msg && s2.p2p == s.p2p && s2.registry == s.registry)
            &&& c == Some(MsgCategory::PeerToPeer) ==> (s2.p2p == s.p2p.push(m) && s2.msg == s.msg
                && s2.request == s.request && s2.registry == s.registry)
            &&& c == Some(MsgCategory::Plain) ==> (s2.msg == s.msg.push(m) && s2.p2p == s.p2p
                && s2.request == s.request && s2.registry == s.registry)
            &&& c is None ==> (s2 == s && m@.is_reply)
        }),
{
}

} // verus!
