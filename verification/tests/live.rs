//! The live client wiring: real channels and the concurrent reply map.

use std::time::Duration;

use rsolace::coordinator::SolClientError;
use rsolace::solclient::SolClient;
use rsolace::solevent::SolEvent;
use rsolace::solmsg::SolMsgBuilder;
use rsolace::types::{SolClientLogLevel, SolClientSessionEvent};
use rsolace::MsgCategory;

#[test]
fn live_plain_message_reaches_msg_receiver() {
    let mut client = SolClient::new(SolClientLogLevel::Notice).unwrap();
    let rx = client.get_msg_receiver();
    let msg = SolMsgBuilder::new().with_topic("TIC/v1/test").build();
    let (cat, delivered) = client.route_inbound_msg(msg);
    assert_eq!(cat, Some(MsgCategory::Plain));
    assert!(delivered);
    let got = rx.recv_timeout(Duration::from_millis(500)).unwrap();
    assert_eq!(got.get_topic().unwrap(), "TIC/v1/test");
    assert!(client.get_p2p_receiver().try_recv().unwrap().is_none());
    assert!(client.get_request_receiver().try_recv().unwrap().is_none());
}

#[test]
fn live_request_reply_roundtrip() {
    let mut client = SolClient::new(SolClientLogLevel::Notice).unwrap();
    let request = SolMsgBuilder::new().with_topic("TIC/v1/ask").with_correlation_id("R1").build();
    let reply_rx = client.send_request_begin(&request).unwrap();
    let reply = SolMsgBuilder::new()
        .with_topic("TIC/v1/answer")
        .as_reply(true)
        .with_correlation_id("R1")
        .build();
    let (cat, delivered) = client.route_inbound_msg(reply);
    assert_eq!(cat, Some(MsgCategory::ReplyMatched));
    assert!(delivered);
    let got = reply_rx.recv_timeout(Duration::from_millis(500)).unwrap();
    assert_eq!(got.get_correlation_id().unwrap(), "R1");
    assert_eq!(got.get_topic().unwrap(), "TIC/v1/answer");

    // A second reply with the same identifier matches nothing.
    let second = SolMsgBuilder::new().as_reply(true).with_correlation_id("R1").build();
    assert_eq!(client.route_inbound_msg(second), (None, false));
}

#[test]
fn live_unmatched_reply_is_dropped() {
    let mut client = SolClient::new(SolClientLogLevel::Notice).unwrap();
    let reply = SolMsgBuilder::new().as_reply(true).with_correlation_id("R2").build();
    assert_eq!(client.route_inbound_msg(reply), (None, false));
    assert!(client.get_msg_receiver().try_recv().unwrap().is_none());
    assert!(client.get_p2p_receiver().try_recv().unwrap().is_none());
    assert!(client.get_request_receiver().try_recv().unwrap().is_none());
}

#[test]
fn live_p2p_and_request_routing() {
    let mut client = SolClient::new(SolClientLogLevel::Notice).unwrap();
    let p2p = SolMsgBuilder::new().with_topic("#P2P/v1/me").build();
    assert_eq!(client.route_inbound_msg(p2p), (Some(MsgCategory::PeerToPeer), true));
    let req = SolMsgBuilder::new()
        .with_topic("TIC/v1/q")
        .with_reply_to_topic("TIC/v1/back")
        .build();
    assert_eq!(client.route_inbound_msg(req), (Some(MsgCategory::RequestIncoming), true));
    let got_p2p = client.get_p2p_receiver().recv_timeout(Duration::from_millis(500)).unwrap();
    assert_eq!(got_p2p.get_topic().unwrap(), "#P2P/v1/me");
    let got_req = client.get_request_receiver().recv_timeout(Duration::from_millis(500)).unwrap();
    assert_eq!(got_req.get_reply_topic().unwrap(), "TIC/v1/back");
}

#[test]
fn live_event_routing() {
    let client = SolClient::new(SolClientLogLevel::Notice).unwrap();
    assert!(client.route_inbound_event(SolEvent::new(SolClientSessionEvent::CanSend, 0, "")));
    let got = client.get_event_receiver().recv_timeout(Duration::from_millis(500)).unwrap();
    assert_eq!(got.session_event, SolClientSessionEvent::CanSend);
}

#[test]
fn live_abandoned_receiver_leaves_registration() {
    let mut client = SolClient::new(SolClientLogLevel::Notice).unwrap();
    let request = SolMsgBuilder::new().with_topic("TIC/v1/ask").build();
    let receiver = client.send_request_begin(&request).unwrap();
    drop(receiver);
    // The entry lingers (the known leak): a second request under the same
    // default identifier collides instead of replacing it.
    match client.send_request_begin(&request) {
        Err(SolClientError::CorrelationCollision { corr_id }) => assert_eq!(corr_id, "c0"),
        other => panic!("unexpected outcome: {:?}", other),
    }
}
