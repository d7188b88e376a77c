//! Message value-object behaviour: setters, getters and the builder.

use rsolace::solmsg::{Destination, SolMsg, SolMsgBuilder, SolMsgError};
use rsolace::types::{
    SolClientCacheStatus, SolClientDeliveryMode, SolClientDestType, SolClientReturnCode,
};

#[test]
fn solmsg_delivery_mode_workable() {
    for mode in [
        SolClientDeliveryMode::Direct,
        SolClientDeliveryMode::Persistent,
        SolClientDeliveryMode::NonPersistent,
    ] {
        let mut solmsg = SolMsgBuilder::new().build();
        assert_eq!(solmsg.get_delivery_mode().unwrap(), SolClientDeliveryMode::Direct);
        solmsg.set_delivery_mode(mode);
        assert_eq!(solmsg.get_delivery_mode().unwrap(), mode);
    }
}

#[test]
fn solmsg_dest_workable() {
    let mut solmsg = SolMsg::new().unwrap();
    let dest = Destination::new(SolClientDestType::Topic, "TIC/v1/test");
    solmsg.set_destination(&dest);
    assert_eq!(solmsg.get_destination().unwrap(), dest);

    let dest = Destination::new(SolClientDestType::Queue, "TIC/v1/test");
    solmsg.set_destination(&dest);
    assert_eq!(solmsg.get_destination().unwrap(), dest);
}

#[test]
fn solmsg_topic_workable() {
    let mut solmsg = SolMsgBuilder::new().build();
    let topic = "TIC/v1/test";
    solmsg.set_topic(topic);
    assert_eq!(solmsg.get_topic().unwrap(), topic);
}

#[test]
fn solmsg_reply_workable() {
    for is_reply in [true, false] {
        let mut solmsg = SolMsgBuilder::new().build();
        solmsg.set_as_reply(is_reply);
        assert_eq!(solmsg.is_reply(), is_reply);
    }
}

#[test]
fn solmsg_reply_to_workable() {
    let mut solmsg = SolMsgBuilder::new().build();
    let dest = Destination::new(SolClientDestType::Topic, "TIC/v1/test");
    solmsg.set_reply_to(&dest);
    assert_eq!(solmsg.get_reply_to().unwrap(), dest);
    solmsg.del_reply_to();
    assert!(solmsg.get_reply_to().is_err());
}

#[test]
fn solmsg_elide_workable() {
    for elide in [true, false] {
        let mut solmsg = SolMsgBuilder::new().build();
        solmsg.set_eliding_eligible(elide);
        assert_eq!(solmsg.is_eliding_eligible(), elide);
    }
}

#[test]
fn solmsg_is_p2p_workable() {
    for (topic, is_p2p) in [("#P2P/abc", true), ("TIC/v1/test1", false), ("#P", false)] {
        let mut solmsg = SolMsgBuilder::new().build();
        solmsg.set_topic(topic);
        assert_eq!(solmsg.is_p2p(), is_p2p);
    }
}

#[test]
fn solmsg_corr_id_workable() {
    let mut solmsg = SolMsgBuilder::new().build();
    let corr_id = "R1";
    solmsg.set_correlation_id(corr_id);
    assert_eq!(solmsg.get_correlation_id().unwrap(), corr_id);
    solmsg.del_correlation_id();
    assert!(solmsg.get_correlation_id().is_err());
}

#[test]
fn solmsg_sender_id_workable() {
    let mut solmsg = SolMsgBuilder::new().build();
    let sender = "R1";
    solmsg.set_sender_id(sender);
    assert_eq!(solmsg.get_sender_id().unwrap(), sender);
    solmsg.del_sender_id();
    assert!(solmsg.get_sender_id().is_err());
}

#[test]
fn solmsg_sender_ts_workable() {
    let mut solmsg = SolMsgBuilder::new().build();
    let sender_ts = 1234567890;
    solmsg.set_sender_ts(sender_ts);
    assert_eq!(solmsg.get_sender_ts().unwrap(), sender_ts);
    solmsg.del_sender_ts();
    assert!(solmsg.get_sender_ts().is_err());
}

#[test]
fn solmsg_sender_dt_workable() {
    let mut solmsg = SolMsgBuilder::new().build();
    assert!(solmsg.get_sender_dt().is_err());
    solmsg.set_sender_ts(947638923004);
    assert!(solmsg.get_sender_dt().is_ok());
    solmsg.set_sender_ts(i64::MIN);
    assert!(solmsg.get_sender_dt().is_err());
}

#[test]
fn solmsg_seq_workable() {
    let mut solmsg = SolMsgBuilder::new().build();
    let seq: u64 = 1234567890;
    solmsg.set_seq(seq);
    assert_eq!(solmsg.get_seq().unwrap(), 1234567890i64);
    solmsg.del_seq();
    assert!(solmsg.get_seq().is_err());
}

#[test]
fn solmsg_msg_type_workable() {
    let mut solmsg = SolMsgBuilder::new().build();
    let msg_type = "msgpack";
    solmsg.set_msg_type(msg_type);
    assert_eq!(solmsg.get_msg_type().unwrap(), msg_type);
    solmsg.del_msg_type();
    assert!(solmsg.get_msg_type().is_err());
}

#[test]
fn solmsg_delivery_to_one_workable() {
    for dto in [true, false] {
        let mut solmsg = SolMsg::new().unwrap();
        solmsg.set_delivery_to_one(dto);
        assert_eq!(solmsg.is_delivery_to_one(), dto);
    }
}

#[test]
fn solmsg_cache_status_workable() {
    let solmsg = SolMsgBuilder::new().build();
    assert_eq!(solmsg.get_cache_status(), SolClientCacheStatus::Invalid);
    assert_eq!(solmsg.is_cache(), false);
}

#[test]
fn solmsg_cos_workable() {
    for cos in [1u32, 2, 3] {
        let mut solmsg = SolMsgBuilder::new().build();
        solmsg.set_class_of_service(cos);
        assert_eq!(solmsg.get_class_of_service().unwrap(), cos);
    }
}

#[test]
fn solmsg_user_prop_workable() {
    let mut solmsg = SolMsgBuilder::new().build();
    let key = "ct";
    let value = "bytes/msgpack";
    let rt_code = solmsg.set_user_prop(key, value, 24);
    assert_eq!(rt_code, SolClientReturnCode::Okay);
    assert_eq!(value, solmsg.get_user_prop(key).unwrap());
    let key2 = "c2";
    let rt_code = solmsg.set_user_prop(key2, value, 24);
    assert_eq!(rt_code, SolClientReturnCode::Okay);
    assert_eq!(value, solmsg.get_user_prop(key2).unwrap());
}

#[test]
fn solmsg_user_prop_update_shadows() {
    let mut solmsg = SolMsgBuilder::new().build();
    solmsg.set_user_prop("ct", "old", 24);
    solmsg.set_user_prop("ct", "new", 24);
    assert_eq!(solmsg.get_user_prop("ct").unwrap(), "new");
    assert_eq!(
        solmsg.get_user_prop("absent").unwrap_err(),
        SolMsgError::GetAttr { attr: "absent".to_string() }
    );
}

#[test]
fn solmsg_user_prop_without_map() {
    let solmsg = SolMsgBuilder::new().build();
    assert_eq!(solmsg.get_user_prop("ct").unwrap_err(), SolMsgError::UserPropNotExist);
}

#[test]
fn solmsg_set_binary_attachment() {
    let mut solmsg = SolMsgBuilder::new().build();
    let data = vec![0, 1, 2, 3, 4];
    let rt_code = solmsg.set_binary_attachment(&data);
    assert_eq!(rt_code, SolClientReturnCode::Okay);
}

#[test]
fn solmsg_get_binary_attachment_err() {
    let solmsg = SolMsgBuilder::new().build();
    let res = solmsg.get_binary_attachment();
    assert!(res.is_err());
    let err = res.unwrap_err();
    assert_eq!(err, SolMsgError::GetAttrEmpty { attr: "binary_attachment".to_string() });
}

#[test]
fn solmsg_get_binary_attachment() {
    let mut solmsg = SolMsgBuilder::new().build();
    let data = vec![0, 1, 2, 3, 4];
    solmsg.set_binary_attachment(&data);
    let res = solmsg.get_binary_attachment().unwrap();
    assert_eq!(res, data);
}

#[test]
fn solmsg_builder_workable() {
    let solmsg = SolMsgBuilder::new()
        .with_delivery_mode(SolClientDeliveryMode::Direct)
        .with_destination(Destination::new(SolClientDestType::Topic, "TIC/v1/test"))
        .as_delivery_to_one(true)
        .with_correlation_id("R1")
        .with_class_of_service(1)
        .with_user_prop("ct", "bytes/msgpack")
        .with_binary_attachment(vec![0, 1, 2, 3, 4])
        .build();

    assert!(solmsg.is_delivery_to_one());
    assert_eq!(solmsg.get_topic().unwrap(), "TIC/v1/test");
    assert_eq!(solmsg.get_correlation_id().unwrap(), "R1");
    assert_eq!(solmsg.get_class_of_service().unwrap(), 1);
    assert_eq!(solmsg.get_user_prop("ct").unwrap(), "bytes/msgpack");
    assert_eq!(solmsg.get_binary_attachment().unwrap(), vec![0, 1, 2, 3, 4]);
}
