use pop_invisible::extra_info::{decode_extra_info, encode_extra_info, ExtraInfo, ExtraInfoError};
use pop_invisible::query_header::{
    QueryConsumerOffsetRequestHeader, QueryHeaderError, RpcRequestHeader, TopicRequestHeader,
};
use pop_invisible::records::{build_cluster_revive_topic, AckMsg, PutMessageStatus};

#[test]
fn decodes_all_fields() {
    let info = decode_extra_info("150 1000 30000 3 0 b1").unwrap();
    assert_eq!(info.checkpoint_queue_offset, 150);
    assert_eq!(info.pop_time, 1000);
    assert_eq!(info.invisible_time, 30000);
    assert_eq!(info.revive_queue_id, 3);
    assert_eq!(info.broker_name, "b1");
    assert!(!info.is_order());
}

#[test]
fn ignores_tokens_after_broker_name() {
    let info = decode_extra_info("7 8 9 10 1 broker-a 4 77").unwrap();
    assert_eq!(info.checkpoint_queue_offset, 7);
    assert_eq!(info.revive_queue_id, 10);
    assert_eq!(info.broker_name, "broker-a");
}

#[test]
fn order_revive_queue_marks_ordered_pop() {
    let info = decode_extra_info("1 2 3 999 0 b").unwrap();
    assert!(info.is_order());
}

#[test]
fn missing_token_is_rejected() {
    assert_eq!(decode_extra_info("150 1000 30000 3 0").err(), Some(ExtraInfoError::Malformed));
    assert_eq!(decode_extra_info("").err(), Some(ExtraInfoError::Malformed));
}

#[test]
fn malformed_number_is_rejected() {
    assert!(decode_extra_info("15x 1000 30000 3 0 b1").is_err());
    assert!(decode_extra_info("150  30000 3 0 b1 x").is_err());
    assert!(decode_extra_info("-1 1000 30000 3 0 b1").is_err());
    assert!(decode_extra_info("150 1000 30000 -3 0 b1").is_err());
}

#[test]
fn number_out_of_range_is_rejected() {
    assert!(decode_extra_info("18446744073709551616 1 1 1 0 b").is_err());
    assert!(decode_extra_info("18446744073709551615 1 1 1 0 b").is_ok());
    assert!(decode_extra_info("1 1 1 2147483648 0 b").is_err());
    assert!(decode_extra_info("1 1 1 2147483647 0 b").is_ok());
}

#[test]
fn encode_then_decode_round_trips() {
    let info = ExtraInfo {
        checkpoint_queue_offset: 150,
        pop_time: 1000,
        invisible_time: 30000,
        revive_queue_id: 3,
        broker_name: "b1".to_string(),
    };
    let s = encode_extra_info(&info);
    assert_eq!(s, "150 1000 30000 3 0 b1");
    let back = decode_extra_info(&s).unwrap();
    assert_eq!(back.checkpoint_queue_offset, 150);
    assert_eq!(back.pop_time, 1000);
    assert_eq!(back.invisible_time, 30000);
    assert_eq!(back.revive_queue_id, 3);
    assert_eq!(back.broker_name, "b1");
    assert_eq!(back.is_order(), info.is_order());
}

#[test]
fn encode_zero_values() {
    let info = ExtraInfo {
        checkpoint_queue_offset: 0,
        pop_time: 0,
        invisible_time: 0,
        revive_queue_id: 0,
        broker_name: String::new(),
    };
    assert_eq!(encode_extra_info(&info), "0 0 0 0 0 ");
    let back = decode_extra_info("0 0 0 0 0 ").unwrap();
    assert_eq!(back.broker_name, "");
}

#[test]
fn revive_topic_is_prefixed_cluster_name() {
    assert_eq!(build_cluster_revive_topic("DefaultCluster"), "rmq_sys_REVIVE_LOG_DefaultCluster");
}

#[test]
fn ack_unique_key_joins_fields() {
    let ack = AckMsg {
        ack_offset: 150,
        start_offset: 150,
        consumer_group: "g".to_string(),
        topic: "T".to_string(),
        queue_id: 0,
        pop_time: 1000,
        broker_name: "b1".to_string(),
    };
    assert_eq!(ack.unique_key(), "T@0@150@g@1000@b1@ack");
}

#[test]
fn store_outcomes() {
    assert!(PutMessageStatus::PutOk.checkpoint_accepted());
    assert!(PutMessageStatus::FlushDiskTimeout.checkpoint_accepted());
    assert!(PutMessageStatus::FlushSlaveTimeout.checkpoint_accepted());
    assert!(PutMessageStatus::SlaveNotAvailable.checkpoint_accepted());
    assert!(!PutMessageStatus::ServiceNotAvailable.checkpoint_accepted());
    assert!(!PutMessageStatus::UnknownError.checkpoint_accepted());
    assert!(PutMessageStatus::ServiceNotAvailable.ack_accepted());
    assert!(!PutMessageStatus::MessageIllegal.ack_accepted());
}

#[test]
fn query_header_map_round_trip() {
    let h = QueryConsumerOffsetRequestHeader {
        consumer_group: "g".to_string(),
        topic: "T".to_string(),
        queue_id: -7,
        set_zero_if_not_found: Some(true),
        topic_request_header: Some(TopicRequestHeader {
            rpc: Some(RpcRequestHeader {
                namespace: None,
                namespaced: Some(false),
                broker_name: Some("b1".to_string()),
                oneway: None,
            }),
            lo: None,
        }),
    };
    let m = h.to_map();
    assert!(m.contains(&("queueId".to_string(), "-7".to_string())));
    assert!(m.contains(&("setZeroIfNotFound".to_string(), "true".to_string())));
    assert!(m.contains(&("namespaced".to_string(), "false".to_string())));
    assert_eq!(m.len(), 6);
    let back = QueryConsumerOffsetRequestHeader::from(&m).unwrap();
    assert_eq!(back.queue_id(), -7);
    assert_eq!(back.topic(), "T");
    assert_eq!(back.consumer_group, "g");
    assert_eq!(back.set_zero_if_not_found, Some(true));
    assert_eq!(back.broker_name(), Some(&"b1".to_string()));
    assert_eq!(back.namespaced(), Some(false));
    assert_eq!(back.namespace(), None);
    assert_eq!(back.oneway(), None);
    assert_eq!(back.lo(), None);
}

#[test]
fn query_header_from_defaults_and_errors() {
    let empty: Vec<(String, String)> = Vec::new();
    let h = QueryConsumerOffsetRequestHeader::from(&empty).unwrap();
    assert_eq!(h.queue_id, 0);
    assert_eq!(h.topic, "");
    assert_eq!(h.set_zero_if_not_found, None);
    let bad = vec![("queueId".to_string(), "x1".to_string())];
    assert_eq!(QueryConsumerOffsetRequestHeader::from(&bad).err(), Some(QueryHeaderError::QueueIdMalformed));
    let plus = vec![("queueId".to_string(), "+12".to_string()), ("setZeroIfNotFound".to_string(), "yes".to_string())];
    let h = QueryConsumerOffsetRequestHeader::from(&plus).unwrap();
    assert_eq!(h.queue_id, 12);
    assert_eq!(h.set_zero_if_not_found, None);
    let min = vec![("queueId".to_string(), "-2147483648".to_string())];
    assert_eq!(QueryConsumerOffsetRequestHeader::from(&min).unwrap().queue_id, i32::MIN);
    let over = vec![("queueId".to_string(), "2147483648".to_string())];
    assert!(QueryConsumerOffsetRequestHeader::from(&over).is_err());
}

#[test]
fn query_header_setters() {
    let mut h = QueryConsumerOffsetRequestHeader {
        consumer_group: "g".to_string(),
        topic: "T".to_string(),
        queue_id: 1,
        set_zero_if_not_found: None,
        topic_request_header: Some(TopicRequestHeader {
            rpc: Some(RpcRequestHeader { namespace: None, namespaced: None, broker_name: None, oneway: None }),
            lo: None,
        }),
    };
    h.set_topic("U".to_string());
    h.set_queue_id(5);
    h.set_lo(Some(true));
    h.set_broker_name("b2".to_string());
    h.set_namespace("ns".to_string());
    h.set_namespaced(true);
    h.set_oneway(true);
    assert_eq!(h.topic(), "U");
    assert_eq!(h.queue_id(), 5);
    assert_eq!(h.lo(), Some(true));
    assert_eq!(h.broker_name(), Some(&"b2".to_string()));
    assert_eq!(h.namespace(), Some("ns"));
    assert_eq!(h.namespaced(), Some(true));
    assert_eq!(h.oneway(), Some(true));
}
