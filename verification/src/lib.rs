//! Client-side core of a publish/subscribe messaging adapter: message and
//! event value objects, inbound classification, typed channel dispatch,
//! request/reply correlation, and dispatch-worker life-cycle management.

use vstd::prelude::*;

pub mod channel;
pub mod coordinator;
pub mod registry;
pub mod router;
pub mod solcache;
pub mod solclient;
pub mod solevent;
pub mod solmsg;
pub mod solprops;
pub mod types;
pub mod worker;

verus! {

/// Delivery category assigned to an inbound message by the classifier.
#[derive(Debug, Clone, Copy, PartialEq, Eq, Structural)]
pub enum MsgCategory {
    Plain,
    PeerToPeer,
    RequestIncoming,
    ReplyMatched,
}

} // verus!
