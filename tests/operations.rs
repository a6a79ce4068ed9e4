use kafka_msg_publisher::consume::{plan_consume, to_messages};
use kafka_msg_publisher::ops::{
    connection_verdict, within_deadline, CONSUME_DEADLINE_SECS, SEND_DEADLINE_SECS,
};
use kafka_msg_publisher::results::{send_result, topic_created};
use kafka_msg_publisher::{
    CommandResult, ConfigError, ConsumePlan, FetchedRecord, KafkaError, SendResult,
};

#[test]
fn empty_partition_reads_nothing() {
    for requested in [-5, 0, 7, 100] {
        assert_eq!(plan_consume(7, 7, requested), ConsumePlan::Empty);
    }
    assert_eq!(plan_consume(9, 3, 0), ConsumePlan::Empty);
}

#[test]
fn old_offset_is_raised_to_earliest() {
    assert_eq!(plan_consume(5, 20, 0), ConsumePlan::Fetch { offset: 5 });
    assert_eq!(plan_consume(5, 20, -1), ConsumePlan::Fetch { offset: 5 });
}

#[test]
fn offset_at_or_past_latest_reads_nothing() {
    assert_eq!(plan_consume(5, 20, 20), ConsumePlan::Empty);
    assert_eq!(plan_consume(5, 20, 99), ConsumePlan::Empty);
    assert_eq!(plan_consume(5, 20, 19), ConsumePlan::Fetch { offset: 19 });
}

fn record(offset: i64, key: Option<&[u8]>, value: Option<&[u8]>) -> FetchedRecord {
    FetchedRecord {
        offset,
        key: key.map(|k| k.to_vec()),
        value: value.map(|v| v.to_vec()),
        timestamp_millis: 1000 + offset,
    }
}

#[test]
fn messages_are_capped_in_order() {
    let recs: Vec<FetchedRecord> = (5..20).map(|o| record(o, None, Some(b"v"))).collect();
    let msgs = to_messages(&recs, 3);
    assert_eq!(msgs.iter().map(|m| m.offset).collect::<Vec<_>>(), vec![5, 6, 7]);
    assert_eq!(msgs[0].timestamp, 1005);
    assert_eq!(to_messages(&recs, 50).len(), 15);
    assert_eq!(to_messages(&recs, 0).len(), 0);
    assert_eq!(to_messages(&recs, -1).len(), 0);
    assert_eq!(to_messages(&recs, i32::MIN).len(), 0);
}

#[test]
fn keys_and_values_are_decoded_lossily() {
    let recs = vec![record(1, Some(b"k\xffx"), Some("h\u{e9}llo".as_bytes())), record(2, None, None)];
    let msgs = to_messages(&recs, 50);
    assert_eq!(msgs[0].key.as_deref(), Some("k\u{fffd}x"));
    assert_eq!(msgs[0].value.as_deref(), Some("h\u{e9}llo"));
    assert_eq!(msgs[1].key, None);
    assert_eq!(msgs[1].value, None);
}

#[test]
fn abandoned_send_reports_its_deadline() {
    let r: Result<SendResult, KafkaError> = within_deadline(None, SEND_DEADLINE_SECS);
    let e = r.unwrap_err();
    assert_eq!(e, KafkaError::ConnectionTimeout(10));
    assert_eq!(e.to_text(), "Connection timeout after 10 seconds");
    let c: Result<u8, KafkaError> = within_deadline(None, CONSUME_DEADLINE_SECS);
    assert_eq!(c.unwrap_err(), KafkaError::ConnectionTimeout(15));
}

#[test]
fn finished_operation_keeps_its_result() {
    let ok: Result<i32, KafkaError> = within_deadline(Some(Ok(4)), 10);
    assert_eq!(ok, Ok(4));
    let err: Result<i32, KafkaError> =
        within_deadline(Some(Err(KafkaError::SendFailed("x".to_string()))), 10);
    assert_eq!(err, Err(KafkaError::SendFailed("x".to_string())));
}

#[test]
fn connection_verdicts() {
    assert_eq!(connection_verdict(Some(Ok(())), 5), Ok(true));
    assert_eq!(
        connection_verdict(Some(Err("refused".to_string())), 5),
        Err(KafkaError::ConnectionFailed("refused".to_string()))
    );
    assert_eq!(connection_verdict(None, 7), Err(KafkaError::ConnectionTimeout(7)));
}

#[test]
fn created_topic_acknowledgement() {
    let r = topic_created("orders".to_string());
    assert!(r.success);
    assert_eq!(r.topic, "orders");
    assert_eq!(r.message, "Topic 'orders' created successfully");
}

#[test]
fn send_acknowledgement() {
    let r = send_result(1_700_000_000);
    assert!(r.success);
    assert_eq!(r.message, "Message sent successfully");
    assert_eq!(r.timestamp, 1_700_000_000);
}

#[test]
fn error_texts() {
    assert_eq!(KafkaError::ConnectionFailed("a".to_string()).to_text(), "Connection failed: a");
    assert_eq!(KafkaError::SendFailed("b".to_string()).to_text(), "Send failed: b");
    assert_eq!(KafkaError::InvalidConfig("c".to_string()).to_text(), "Invalid configuration: c");
    assert_eq!(KafkaError::ConnectionTimeout(0).to_text(), "Connection timeout after 0 seconds");
    assert_eq!(
        KafkaError::ConnectionTimeout(18446744073709551615).to_text(),
        "Connection timeout after 18446744073709551615 seconds"
    );
    assert_eq!(KafkaError::TopicCreateFailed("d".to_string()).to_text(), "Topic creation failed: d");
    assert_eq!(KafkaError::ConsumeFailed("e".to_string()).to_text(), "Consume failed: e");
    assert_eq!(ConfigError::NoConfigDir.to_text(), "Could not find config directory");
    assert_eq!(ConfigError::IoError("f".to_string()).to_text(), "IO error: f");
    assert_eq!(ConfigError::SerializeError("g".to_string()).to_text(), "Serialization error: g");
}

#[test]
fn command_results() {
    let ok: CommandResult<u8> = Ok::<u8, KafkaError>(3).into();
    assert!(matches!(ok, CommandResult::Success(3)));
    let err: CommandResult<u8> = Err::<u8, KafkaError>(KafkaError::ConnectionTimeout(5)).into();
    match err {
        CommandResult::Failure(t) => assert_eq!(t, "Connection timeout after 5 seconds"),
        CommandResult::Success(_) => panic!("expected a failure"),
    }
    let cfg: CommandResult<()> = CommandResult::from_config(Err(ConfigError::NoConfigDir));
    match cfg {
        CommandResult::Failure(t) => assert_eq!(t, "Could not find config directory"),
        CommandResult::Success(_) => panic!("expected a failure"),
    }
}
