use pop_invisible::processor::{
    Action, ChangeInvisibleTimeProcessor, ChangeInvisibleTimeRequestHeader, Event, Handling, Phase,
    Reply, ResponseCode,
};
use pop_invisible::records::PutMessageStatus;

fn request(queue_id: i32, offset: u64, extra_info: &str) -> ChangeInvisibleTimeRequestHeader {
    ChangeInvisibleTimeRequestHeader {
        consumer_group: "g".to_string(),
        topic: "T".to_string(),
        queue_id,
        offset,
        invisible_time: 30000,
        extra_info: extra_info.to_string(),
    }
}

fn step(p: &ChangeInvisibleTimeProcessor, h: Handling, e: Event) -> (Handling, Action) {
    assert!(ChangeInvisibleTimeProcessor::expects(&h, &e));
    p.on_event(h, e)
}

fn reply(a: Action) -> Reply {
    match a {
        Action::Respond(r) => r,
        _ => panic!("expected a response"),
    }
}

/// Runs the request up to the checkpoint append.
fn to_checkpoint(p: &ChangeInvisibleTimeProcessor, req: ChangeInvisibleTimeRequestHeader, now: u64) -> (Handling, Action) {
    let (h, a) = p.process_request(req);
    assert!(matches!(a, Action::LookUpTopic));
    let (h, a) = step(p, h, Event::TopicConfig(Some(4)));
    assert!(matches!(a, Action::QueryOffsetRange));
    let (h, a) = step(p, h, Event::OffsetRange { min_offset: 100, max_offset: 200 });
    assert!(matches!(a, Action::ReadClock));
    step(p, h, Event::Clock(now))
}

#[test]
fn extension_in_range_succeeds() {
    let p = ChangeInvisibleTimeProcessor::new("c1");
    let (h, a) = to_checkpoint(&p, request(0, 150, "150 1000 20000 3 0 b1"), 5000);
    match &a {
        Action::AppendCheckpoint(ck) => {
            assert_eq!(ck.revive_queue_id, 3);
            assert_eq!(ck.pop_time, 5000);
            assert_eq!(ck.invisible_time, 30000);
            assert_eq!(ck.start_offset, 150);
            assert_eq!(ck.broker_name, "b1");
            assert_eq!(ck.topic, "T");
            assert_eq!(ck.consumer_group, "g");
        }
        _ => panic!("expected a checkpoint"),
    }
    let (h, a) = step(&p, h, Event::CheckpointStored(PutMessageStatus::PutOk));
    match &a {
        Action::OfferAck { revive_qid, ack } => {
            assert_eq!(*revive_qid, 3);
            assert_eq!(ack.ack_offset, 150);
            assert_eq!(ack.start_offset, 150);
            assert_eq!(ack.pop_time, 1000);
            assert_eq!(ack.queue_id, 0);
        }
        _ => panic!("expected an ack offer"),
    }
    let (h, a) = step(&p, h, Event::AckOffered(true));
    assert!(matches!(h.phase, Phase::Finished));
    let r = reply(a);
    assert_eq!(r.code(), ResponseCode::Success);
    match r {
        Reply::Changed(header) => {
            assert_eq!(header.pop_time, 5000);
            assert_eq!(header.revive_qid, 3);
            assert_eq!(header.invisible_time, 30000);
        }
        _ => panic!("expected success"),
    }
}

#[test]
fn offset_beyond_range_is_no_message() {
    let p = ChangeInvisibleTimeProcessor::new("c1");
    let (h, _) = p.process_request(request(0, 250, "150 1000 20000 3 0 b1"));
    let (h, _) = step(&p, h, Event::TopicConfig(Some(4)));
    let (h, a) = step(&p, h, Event::OffsetRange { min_offset: 100, max_offset: 200 });
    assert!(matches!(h.phase, Phase::Finished));
    let r = reply(a);
    assert_eq!(r.code(), ResponseCode::NoMessage);
    assert_eq!(r, Reply::OffsetOutOfRange { min_offset: 100, max_offset: 200 });
}

#[test]
fn offset_below_range_is_no_message() {
    let p = ChangeInvisibleTimeProcessor::new("c1");
    let (h, _) = p.process_request(request(0, 99, "150 1000 20000 3 0 b1"));
    let (h, _) = step(&p, h, Event::TopicConfig(Some(4)));
    let (_, a) = step(&p, h, Event::OffsetRange { min_offset: 100, max_offset: 200 });
    assert_eq!(reply(a).code(), ResponseCode::NoMessage);
}

#[test]
fn offset_at_range_edges_is_accepted() {
    let p = ChangeInvisibleTimeProcessor::new("c1");
    for offset in [100u64, 200u64] {
        let (_, a) = to_checkpoint(&p, request(0, offset, "150 1000 20000 3 0 b1"), 1);
        assert!(matches!(a, Action::AppendCheckpoint(_)));
    }
}

#[test]
fn unknown_topic_is_rejected() {
    let p = ChangeInvisibleTimeProcessor::new("c1");
    let (h, _) = p.process_request(request(0, 150, "150 1000 20000 3 0 b1"));
    let (h, a) = step(&p, h, Event::TopicConfig(None));
    assert!(matches!(h.phase, Phase::Finished));
    assert_eq!(reply(a), Reply::TopicNotExist);
}

#[test]
fn queue_id_out_of_bounds_is_illegal() {
    let p = ChangeInvisibleTimeProcessor::new("c1");
    for q in [-1i32, 4i32, 100i32] {
        let (h, _) = p.process_request(request(q, 150, "150 1000 20000 3 0 b1"));
        let (h, a) = step(&p, h, Event::TopicConfig(Some(4)));
        assert!(matches!(h.phase, Phase::Finished));
        let r = reply(a);
        assert_eq!(r.code(), ResponseCode::MessageIllegal);
        assert_eq!(r, Reply::QueueIdIllegal { read_queue_nums: 4 });
    }
    let (h, _) = p.process_request(request(3, 150, "150 1000 20000 3 0 b1"));
    let (_, a) = step(&p, h, Event::TopicConfig(Some(4)));
    assert!(matches!(a, Action::QueryOffsetRange));
}

#[test]
fn malformed_extra_info_is_rejected() {
    let p = ChangeInvisibleTimeProcessor::new("c1");
    let (h, _) = p.process_request(request(0, 150, "150 1000"));
    let (h, _) = step(&p, h, Event::TopicConfig(Some(4)));
    let (_, a) = step(&p, h, Event::OffsetRange { min_offset: 100, max_offset: 200 });
    assert_eq!(reply(a), Reply::ExtraInfoIllegal);
}

#[test]
fn ordered_pop_is_delegated() {
    let p = ChangeInvisibleTimeProcessor::new("c1");
    let (h, _) = p.process_request(request(0, 150, "150 1000 20000 999 0 b1"));
    let (h, _) = step(&p, h, Event::TopicConfig(Some(4)));
    let (h, a) = step(&p, h, Event::OffsetRange { min_offset: 100, max_offset: 200 });
    assert!(matches!(h.phase, Phase::Finished));
    match a {
        Action::DelegateOrder(info) => assert_eq!(info.revive_queue_id, 999),
        _ => panic!("expected delegation"),
    }
}

#[test]
fn checkpoint_failure_is_system_error_without_ack() {
    let p = ChangeInvisibleTimeProcessor::new("c1");
    for status in [PutMessageStatus::ServiceNotAvailable, PutMessageStatus::UnknownError, PutMessageStatus::MessageIllegal] {
        let (h, _) = to_checkpoint(&p, request(0, 150, "150 1000 20000 3 0 b1"), 5000);
        let (h, a) = step(&p, h, Event::CheckpointStored(status));
        assert!(matches!(h.phase, Phase::Finished));
        let r = reply(a);
        assert_eq!(r.code(), ResponseCode::SystemError);
        assert_eq!(r, Reply::CheckpointFailed(status));
        assert!(!ChangeInvisibleTimeProcessor::expects(&h, &Event::AckOffered(true)));
    }
}

#[test]
fn degraded_checkpoint_goes_on_to_ack() {
    let p = ChangeInvisibleTimeProcessor::new("c1");
    for status in [PutMessageStatus::FlushDiskTimeout, PutMessageStatus::FlushSlaveTimeout, PutMessageStatus::SlaveNotAvailable] {
        let (h, _) = to_checkpoint(&p, request(0, 150, "150 1000 20000 3 0 b1"), 5000);
        let (_, a) = step(&p, h, Event::CheckpointStored(status));
        assert!(matches!(a, Action::OfferAck { .. }));
    }
}

#[test]
fn declined_ack_goes_to_revive_topic_once() {
    let p = ChangeInvisibleTimeProcessor::new("c1");
    let (h, _) = to_checkpoint(&p, request(0, 150, "140 1000 20000 3 0 b1"), 5000);
    let (h, _) = step(&p, h, Event::CheckpointStored(PutMessageStatus::PutOk));
    let (h, a) = step(&p, h, Event::AckOffered(false));
    match &a {
        Action::PutAckMessage(m) => {
            assert_eq!(m.topic, "rmq_sys_REVIVE_LOG_c1");
            assert_eq!(m.tags, "ack");
            assert_eq!(m.queue_id, 3);
            assert_eq!(m.deliver_time_ms, 21000);
            assert_eq!(m.unique_key, "T@0@150@g@1000@b1@ack");
            assert_eq!(m.ack.ack_offset, 150);
            assert_eq!(m.ack.start_offset, 140);
        }
        _ => panic!("expected a revive message"),
    }
    let (h, a) = step(&p, h, Event::AckStored(PutMessageStatus::UnknownError));
    assert!(matches!(h.phase, Phase::Finished));
    let r = reply(a);
    assert_eq!(r.code(), ResponseCode::Success);
    assert_eq!(r, Reply::Changed(pop_invisible::processor::ChangeInvisibleTimeResponseHeader {
        pop_time: 5000,
        revive_qid: 3,
        invisible_time: 30000,
    }));
}

#[test]
fn deliver_time_saturates() {
    let p = ChangeInvisibleTimeProcessor::new("c1");
    let (h, _) = to_checkpoint(&p, request(0, 150, "150 18446744073709551615 5 3 0 b1"), 5000);
    let (h, _) = step(&p, h, Event::CheckpointStored(PutMessageStatus::PutOk));
    let (_, a) = step(&p, h, Event::AckOffered(false));
    match a {
        Action::PutAckMessage(m) => assert_eq!(m.deliver_time_ms, u64::MAX),
        _ => panic!("expected a revive message"),
    }
}
