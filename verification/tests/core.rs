//! Classification, correlation and worker life-cycle scenarios.

use rsolace::channel::FifoChannel;
use rsolace::coordinator::{
    cache_request_outcome, correlation_key, modify_client_info_request, request_await_outcome,
    request_submit_outcome, submit_accepted, SolClientError,
};
use rsolace::registry::CorrelationRegistry;
use rsolace::router::SessionCore;
use rsolace::solevent::SolEvent;
use rsolace::solmsg::SolMsgBuilder;
use rsolace::types::{ErrorInfo, SolClientReturnCode, SolClientSessionEvent};
use rsolace::worker::{DispatchWorker, DispatchWorkerPool, WorkerState};
use rsolace::MsgCategory;

#[test]
fn plain_message_goes_to_message_channel_only() {
    let mut core = SessionCore::new();
    let msg = SolMsgBuilder::new().with_topic("TIC/v1/test").build();
    let cat = core.on_inbound_msg(msg);
    assert_eq!(cat, Some(MsgCategory::Plain));
    assert_eq!(core.channels.msg.len(), 1);
    assert_eq!(core.channels.p2p.len(), 0);
    assert_eq!(core.channels.request.len(), 0);
    assert_eq!(core.channels.event.len(), 0);
    let delivered = core.channels.msg.try_pop().unwrap();
    assert_eq!(delivered.get_topic().unwrap(), "TIC/v1/test");
}

#[test]
fn registered_reply_resolves_and_registration_is_gone() {
    let mut core = SessionCore::new();
    assert!(core.registry.register("R1"));
    let reply = SolMsgBuilder::new()
        .with_topic("TIC/v1/resp")
        .as_reply(true)
        .with_correlation_id("R1")
        .build();
    let cat = core.on_inbound_msg(reply);
    assert_eq!(cat, Some(MsgCategory::ReplyMatched));
    let got = core.take_reply("R1").expect("fulfilled reply");
    assert_eq!(got.get_correlation_id().unwrap(), "R1");
    assert_eq!(got.get_topic().unwrap(), "TIC/v1/resp");
    assert!(!core.registry.contains("R1"));
    assert!(core.take_reply("R1").is_none());
}

#[test]
fn unmatched_reply_is_dropped_everywhere() {
    let mut core = SessionCore::new();
    let reply = SolMsgBuilder::new().as_reply(true).with_correlation_id("R2").build();
    let cat = core.on_inbound_msg(reply);
    assert_eq!(cat, None);
    assert_eq!(core.channels.msg.len(), 0);
    assert_eq!(core.channels.p2p.len(), 0);
    assert_eq!(core.channels.request.len(), 0);
    assert_eq!(core.channels.event.len(), 0);
    assert!(!core.registry.contains("R2"));
}

#[test]
fn p2p_topic_goes_to_p2p_channel_only() {
    let mut core = SessionCore::new();
    let msg = SolMsgBuilder::new().with_topic("#P2P/v1/client").build();
    let cat = core.on_inbound_msg(msg);
    assert_eq!(cat, Some(MsgCategory::PeerToPeer));
    assert_eq!(core.channels.p2p.len(), 1);
    assert_eq!(core.channels.msg.len(), 0);
    assert_eq!(core.channels.request.len(), 0);
}

#[test]
fn reply_to_makes_an_inbound_request() {
    let mut core = SessionCore::new();
    let msg = SolMsgBuilder::new()
        .with_topic("TIC/v1/q")
        .with_reply_to_topic("TIC/v1/answer-here")
        .build();
    let cat = core.on_inbound_msg(msg);
    assert_eq!(cat, Some(MsgCategory::RequestIncoming));
    assert_eq!(core.channels.request.len(), 1);
    assert_eq!(core.channels.msg.len(), 0);
}

#[test]
fn events_always_take_the_event_channel() {
    let mut core = SessionCore::new();
    let ev = SolEvent::new(SolClientSessionEvent::UpNotice, 200, "ok");
    core.on_inbound_event(ev);
    assert_eq!(core.channels.event.len(), 1);
    let got = core.channels.event.try_pop().unwrap();
    assert_eq!(got.session_event, SolClientSessionEvent::UpNotice);
    assert_eq!(got.response_code, 200);
    assert_eq!(got.info, "ok");
}

#[test]
fn second_reply_with_same_id_is_dropped() {
    let mut core = SessionCore::new();
    assert!(core.registry.register("R1"));
    let first = SolMsgBuilder::new().as_reply(true).with_correlation_id("R1").with_binary_attachment(
        vec![1u8],
    ).build();
    let second = SolMsgBuilder::new().as_reply(true).with_correlation_id("R1")
        .with_binary_attachment(vec![2u8]).build();
    assert_eq!(core.on_inbound_msg(first), Some(MsgCategory::ReplyMatched));
    assert_eq!(core.on_inbound_msg(second), None);
    let got = core.take_reply("R1").unwrap();
    assert_eq!(got.get_binary_attachment().unwrap(), vec![1u8]);
}

#[test]
fn register_collision_is_refused() {
    let mut reg = CorrelationRegistry::new();
    assert!(reg.register("A"));
    assert!(!reg.register("A"));
    assert!(reg.register("B"));
}

#[test]
fn worker_stops_within_one_empty_poll_after_cancel() {
    let mut chan: FifoChannel<u64> = FifoChannel::new();
    let mut w: DispatchWorker<u64> = DispatchWorker::new();
    w.start();
    assert_eq!(w.state, WorkerState::Running);
    w.signal_cancel();
    assert_eq!(w.state, WorkerState::Stopping);
    let r = w.poll(&mut chan);
    assert!(r.is_none());
    assert_eq!(w.state, WorkerState::Stopped);
}

#[test]
fn worker_drains_in_fifo_order() {
    let mut chan: FifoChannel<u64> = FifoChannel::new();
    chan.push(10);
    chan.push(20);
    chan.push(30);
    let mut w: DispatchWorker<u64> = DispatchWorker::new();
    w.start();
    assert_eq!(w.poll(&mut chan), Some(10));
    assert_eq!(w.poll(&mut chan), Some(20));
    assert_eq!(w.poll(&mut chan), Some(30));
    assert_eq!(w.poll(&mut chan), None);
}

#[test]
fn replacing_handler_keeps_queued_items_and_single_worker() {
    let mut chan: FifoChannel<u64> = FifoChannel::new();
    chan.push(1);
    chan.push(2);
    chan.push(3);
    let mut w: DispatchWorker<u64> = DispatchWorker::new();
    w.start();
    let gen_before = w.generation;
    w.replace_handler();
    assert_eq!(w.state, WorkerState::Running);
    assert!(!w.cancel);
    assert_eq!(w.generation, gen_before + 1);
    assert_eq!(chan.len(), 3);
    assert_eq!(w.poll(&mut chan), Some(1));
    assert_eq!(w.poll(&mut chan), Some(2));
    assert_eq!(w.poll(&mut chan), Some(3));
    w.replace_handler();
    assert_eq!(w.generation, gen_before + 2);
    assert_eq!(chan.len(), 0);
}

#[test]
fn pool_teardown_stops_all_workers() {
    let mut pool = DispatchWorkerPool::new();
    pool.msg.start();
    pool.event.start();
    pool.shutdown_all();
    assert_eq!(pool.msg.state, WorkerState::Stopped);
    assert_eq!(pool.event.state, WorkerState::Stopped);
    assert_eq!(pool.request.state, WorkerState::Stopped);
    assert_eq!(pool.p2p.state, WorkerState::Stopped);
}

#[test]
fn correlation_key_defaults_when_absent() {
    let with_id = SolMsgBuilder::new().with_correlation_id("R7").build();
    assert_eq!(correlation_key(&with_id), "R7");
    let without = SolMsgBuilder::new().build();
    assert_eq!(correlation_key(&without), "c0");
}

#[test]
fn submit_acceptance_depends_on_mode() {
    assert!(submit_accepted(0, SolClientReturnCode::InProgress));
    assert!(!submit_accepted(0, SolClientReturnCode::Okay));
    assert!(submit_accepted(5000, SolClientReturnCode::Okay));
    assert!(!submit_accepted(5000, SolClientReturnCode::InProgress));
    assert!(!submit_accepted(0, SolClientReturnCode::Fail));
}

#[test]
fn rejected_submit_carries_the_diagnostic() {
    let err = ErrorInfo::new(21, "would block".to_string());
    let r = request_submit_outcome("TIC/v1/test", 0, SolClientReturnCode::Fail, err.clone());
    match r {
        Err(SolClientError::SendRequest { topic, code, error }) => {
            assert_eq!(topic, "TIC/v1/test");
            assert_eq!(code, SolClientReturnCode::Fail);
            assert_eq!(error, err);
        }
        other => panic!("unexpected outcome: {:?}", other),
    }
    assert!(request_submit_outcome("t", 0, SolClientReturnCode::InProgress, err).is_ok());
}

#[test]
fn awaited_reply_hands_through_or_fails_typed() {
    let msg = SolMsgBuilder::new().with_topic("TIC/v1/answer").build();
    let got = request_await_outcome("TIC/v1/ask", Some(msg), None).unwrap();
    assert_eq!(got.get_topic().unwrap(), "TIC/v1/answer");
    match request_await_outcome("TIC/v1/ask", None, None) {
        Err(SolClientError::SendRequest { topic, code, error }) => {
            assert_eq!(topic, "TIC/v1/ask");
            assert_eq!(code, SolClientReturnCode::Fail);
            assert_eq!(error.error_str, "Response timeout or channel closed");
        }
        other => panic!("unexpected outcome: {:?}", other),
    }
    let diag = ErrorInfo::new(9, "link lost".to_string());
    match request_await_outcome("TIC/v1/ask", None, Some(diag.clone())) {
        Err(SolClientError::SendRequest { error, .. }) => assert_eq!(error, diag),
        other => panic!("unexpected outcome: {:?}", other),
    }
}

#[test]
fn rejected_cache_request_carries_its_fields() {
    let err = ErrorInfo::new(3, "cache down".to_string());
    let r = cache_request_outcome("TIC/v1/c", 77, SolClientReturnCode::NotReady, err);
    match r {
        Err(SolClientError::SendCacheRequest { topic, request_id, code, .. }) => {
            assert_eq!(topic, "TIC/v1/c");
            assert_eq!(request_id, 77);
            assert_eq!(code, SolClientReturnCode::NotReady);
        }
        other => panic!("unexpected outcome: {:?}", other),
    }
    let ok = ErrorInfo::new(0, String::new());
    assert!(cache_request_outcome("TIC/v1/c", 78, SolClientReturnCode::Okay, ok).is_ok());
}

#[test]
fn empty_client_info_change_is_not_found() {
    assert_eq!(
        modify_client_info_request(None, None).unwrap_err(),
        SolClientReturnCode::NotFound
    );
    let upd = modify_client_info_request(Some("an app"), None).unwrap();
    assert_eq!(upd.app_description.as_deref(), Some("an app"));
    assert!(upd.client_name.is_none());
}

#[test]
fn begin_request_registers_before_submit() {
    let mut core = SessionCore::new();
    let msg = SolMsgBuilder::new().with_topic("TIC/v1/req").with_correlation_id("R9").build();
    assert!(core.begin_request(&msg, 0).is_ok());
    assert!(core.registry.contains_live("R9"));
    match core.begin_request(&msg, 0) {
        Err(SolClientError::CorrelationCollision { corr_id }) => assert_eq!(corr_id, "R9"),
        other => panic!("unexpected outcome: {:?}", other),
    }
    let mut blocking = SessionCore::new();
    assert!(blocking.begin_request(&msg, 3000).is_ok());
    assert!(!blocking.registry.contains("R9"));
}

#[test]
fn abandoned_registration_lingers() {
    let mut core = SessionCore::new();
    let msg = SolMsgBuilder::new().with_topic("TIC/v1/req").build();
    assert!(core.begin_request(&msg, 0).is_ok());
    assert!(core.registry.contains_live("c0"));
    assert!(core.take_reply("c0").is_none());
    assert!(core.registry.contains_live("c0"));
}
