use kafka_msg_publisher::consume::{
    consume_step, ConsumeAction, ConsumeStage, FETCH_MAX_BYTES, FETCH_MAX_WAIT_MS, FETCH_MIN_BYTES,
};
use kafka_msg_publisher::ops::{
    create_topic_step, send_step, CreateTopicAction, CreateTopicStage, OpEvent, RecordCodec, SendAction,
    SendStage, CREATE_TOPIC_BROKER_TIMEOUT_MS,
};
use kafka_msg_publisher::{FetchedRecord, KafkaError};

fn after_offsets(earliest: i64, latest: i64, requested: i64, max: i32) -> (ConsumeStage, ConsumeAction) {
    let t = "t".to_string();
    let (s, a) = consume_step(ConsumeStage::Connecting, OpEvent::Done, &t, requested, max);
    assert!(matches!(a, ConsumeAction::OpenPartition { ref topic, partition: 0 } if topic == "t"));
    let (s, a) = consume_step(s, OpEvent::Done, &t, requested, max);
    assert!(matches!(a, ConsumeAction::QueryEarliest));
    let (s, a) = consume_step(s, OpEvent::Offset(earliest), &t, requested, max);
    assert!(matches!(a, ConsumeAction::QueryLatest));
    assert_eq!(s, ConsumeStage::AskingLatest { earliest });
    consume_step(s, OpEvent::Offset(latest), &t, requested, max)
}

#[test]
fn consume_from_zero_starts_at_earliest() {
    let (s, a) = after_offsets(5, 20, 0, 50);
    assert_eq!(s, ConsumeStage::Fetching);
    match a {
        ConsumeAction::Fetch { offset, min_bytes, max_bytes, max_wait_ms } => {
            assert_eq!(offset, 5);
            assert_eq!((min_bytes, max_bytes, max_wait_ms), (1, 1_048_576, 5_000));
            assert_eq!((FETCH_MIN_BYTES, FETCH_MAX_BYTES, FETCH_MAX_WAIT_MS), (1, 1_048_576, 5_000));
        }
        other => panic!("expected a fetch, got {:?}", other),
    }
}

#[test]
fn consume_past_latest_finishes_without_fetch() {
    for requested in [20, 21, i64::MAX] {
        let (s, a) = after_offsets(5, 20, requested, 50);
        assert_eq!(s, ConsumeStage::Finished);
        match a {
            ConsumeAction::Finish(Ok(v)) => assert!(v.is_empty()),
            other => panic!("expected an empty finish, got {:?}", other),
        }
    }
}

#[test]
fn consume_of_empty_partition_finishes_empty() {
    for requested in [i64::MIN, 0, 7, 8] {
        let (_, a) = after_offsets(7, 7, requested, 50);
        assert!(matches!(a, ConsumeAction::Finish(Ok(ref v)) if v.is_empty()));
    }
}

#[test]
fn consume_fetch_results_are_capped() {
    let recs: Vec<FetchedRecord> = (10..14)
        .map(|o| FetchedRecord { offset: o, key: None, value: Some(b"x".to_vec()), timestamp_millis: o })
        .collect();
    let (s, a) = consume_step(ConsumeStage::Fetching, OpEvent::Records(recs), &"t".to_string(), 10, 2);
    assert_eq!(s, ConsumeStage::Finished);
    match a {
        ConsumeAction::Finish(Ok(v)) => {
            assert_eq!(v.iter().map(|m| m.offset).collect::<Vec<_>>(), vec![10, 11]);
            assert_eq!(v[0].value.as_deref(), Some("x"));
        }
        other => panic!("expected messages, got {:?}", other),
    }
}

#[test]
fn consume_failures_by_stage() {
    let t = "t".to_string();
    let f = |s| consume_step(s, OpEvent::Failed("boom".to_string()), &t, 0, 50).1;
    assert!(matches!(f(ConsumeStage::Connecting),
        ConsumeAction::Finish(Err(KafkaError::ConnectionFailed(ref d))) if d == "boom"));
    assert!(matches!(f(ConsumeStage::OpeningPartition),
        ConsumeAction::Finish(Err(KafkaError::ConsumeFailed(ref d))) if d == "boom"));
    assert!(matches!(f(ConsumeStage::AskingEarliest),
        ConsumeAction::Finish(Err(KafkaError::ConsumeFailed(ref d))) if d == "Failed to get earliest offset: boom"));
    assert!(matches!(f(ConsumeStage::AskingLatest { earliest: 3 }),
        ConsumeAction::Finish(Err(KafkaError::ConsumeFailed(ref d))) if d == "Failed to get latest offset: boom"));
    assert!(matches!(f(ConsumeStage::Fetching),
        ConsumeAction::Finish(Err(KafkaError::ConsumeFailed(ref d))) if d == "boom"));
}

#[test]
fn consume_stage_accepts_only_its_events() {
    assert!(ConsumeStage::AskingEarliest.accepts(&OpEvent::Offset(1)));
    assert!(!ConsumeStage::AskingEarliest.accepts(&OpEvent::Done));
    assert!(!ConsumeStage::Connecting.accepts(&OpEvent::Offset(1)));
    assert!(ConsumeStage::Fetching.accepts(&OpEvent::Records(vec![])));
    assert!(!ConsumeStage::Finished.accepts(&OpEvent::Failed(String::new())));
}

#[test]
fn send_runs_to_acknowledgement() {
    let (t, m) = ("orders".to_string(), "h\u{e9}".to_string());
    let (s, a) = send_step(SendStage::Connecting, OpEvent::Done, &t, &m);
    assert!(matches!(a, SendAction::OpenPartition { ref topic, partition: 0 } if topic == "orders"));
    let (s, a) = send_step(s, OpEvent::Done, &t, &m);
    match a {
        SendAction::Produce { key, value, codec } => {
            assert_eq!(key, None);
            assert_eq!(value, vec![b'h', 0xc3, 0xa9]);
            assert_eq!(codec, RecordCodec::Uncompressed);
        }
        other => panic!("expected a produce, got {:?}", other),
    }
    let (s, a) = send_step(s, OpEvent::Done, &t, &m);
    assert!(matches!(a, SendAction::ReadClock));
    assert!(!s.accepts(&OpEvent::Done));
    let (s, a) = send_step(s, OpEvent::Clock(1_234), &t, &m);
    assert_eq!(s, SendStage::Finished);
    match a {
        SendAction::Finish(Ok(r)) => {
            assert!(r.success);
            assert_eq!(r.timestamp, 1_234);
            assert_eq!(r.message, "Message sent successfully");
        }
        other => panic!("expected an acknowledgement, got {:?}", other),
    }
}

#[test]
fn send_failures_by_stage() {
    let (t, m) = ("t".to_string(), "m".to_string());
    let f = |s| send_step(s, OpEvent::Failed("down".to_string()), &t, &m).1;
    assert!(matches!(f(SendStage::Connecting),
        SendAction::Finish(Err(KafkaError::ConnectionFailed(ref d))) if d == "down"));
    assert!(matches!(f(SendStage::OpeningPartition),
        SendAction::Finish(Err(KafkaError::SendFailed(ref d))) if d == "down"));
    assert!(matches!(f(SendStage::Producing),
        SendAction::Finish(Err(KafkaError::SendFailed(ref d))) if d == "down"));
}

#[test]
fn create_topic_orders_succeeds() {
    let topic = "orders".to_string();
    let (s, a) = create_topic_step(CreateTopicStage::Connecting, OpEvent::Done, topic.clone(), 3, 1);
    assert!(matches!(a, CreateTopicAction::OpenController));
    let (s, a) = create_topic_step(s, OpEvent::Done, topic.clone(), 3, 1);
    match a {
        CreateTopicAction::Create { name, partitions, replication, broker_timeout_ms } => {
            assert_eq!(name, "orders");
            assert_eq!((partitions, replication, broker_timeout_ms), (3, 1, 5_000));
        }
        other => panic!("expected a create request, got {:?}", other),
    }
    assert_eq!(CREATE_TOPIC_BROKER_TIMEOUT_MS, 5_000);
    let (s, a) = create_topic_step(s, OpEvent::Done, topic.clone(), 3, 1);
    assert_eq!(s, CreateTopicStage::Finished);
    match a {
        CreateTopicAction::Finish(Ok(r)) => {
            assert!(r.success);
            assert_eq!(r.topic, "orders");
            assert_eq!(r.message, "Topic 'orders' created successfully");
        }
        other => panic!("expected success, got {:?}", other),
    }
}

#[test]
fn create_topic_failures_by_stage() {
    let f = |s| create_topic_step(s, OpEvent::Failed("no".to_string()), "t".to_string(), 1, 1).1;
    assert!(matches!(f(CreateTopicStage::Connecting),
        CreateTopicAction::Finish(Err(KafkaError::ConnectionFailed(ref d))) if d == "no"));
    assert!(matches!(f(CreateTopicStage::OpeningController),
        CreateTopicAction::Finish(Err(KafkaError::TopicCreateFailed(ref d))) if d == "no"));
    assert!(matches!(f(CreateTopicStage::Creating),
        CreateTopicAction::Finish(Err(KafkaError::TopicCreateFailed(ref d))) if d == "no"));
}
