//! Deadlines of the network operations, and what a finished or abandoned
//! operation reports.
use vstd::prelude::*;
use vstd::string::*;
use vstd::utf8::encode_utf8;
use crate::consume::FetchedRecord;
use crate::error::KafkaError;
use crate::results::{send_result, topic_created, SendResult, TopicCreateResult};

verus! {

/// Deadline of a connection test when the caller names none.
pub const DEFAULT_CONNECT_TIMEOUT_SECS: u64 = 5;

/// Deadline over a whole send: connect, partition lookup and produce.
pub const SEND_DEADLINE_SECS: u64 = 10;

/// Deadline over a whole topic creation.
pub const CREATE_TOPIC_DEADLINE_SECS: u64 = 10;

/// Deadline over a whole consume: connect, offset queries and fetch.
pub const CONSUME_DEADLINE_SECS: u64 = 15;

/// How long the broker may take to create a topic.
pub const CREATE_TOPIC_BROKER_TIMEOUT_MS: i32 = 5000;

/// Partition count of a new topic when the caller names none.
pub const DEFAULT_PARTITIONS: i32 = 1;

/// Replication factor of a new topic when the caller names none.
pub const DEFAULT_REPLICATION: i16 = 1;

/// Offset a consume starts from when the caller names none.
pub const DEFAULT_START_OFFSET: i64 = 0;

/// Cap on the records of a consume when the caller names none.
pub const DEFAULT_MAX_MESSAGES: i32 = 50;

/// What an operation run under a deadline of `deadline_secs` reports:
/// `outcome` is `None` when the deadline passed first, and the operation's
/// own result otherwise.
pub fn within_deadline<T>(outcome: Option<Result<T, KafkaError>>, deadline_secs: u64) -> (r: Result<
    T,
    KafkaError,
>)
    ensures
        match outcome {
            None => r == Err::<T, KafkaError>(KafkaError::ConnectionTimeout(deadline_secs)),
            Some(res) => r == res,
        },
{
    match outcome {
        None => Err(KafkaError::ConnectionTimeout(deadline_secs)),
        Some(res) => res,
    }
}

/// What a connection test reports: `outcome` is `None` when the deadline
/// of `timeout_secs` passed first, else whether the connection came up
/// (with the client library's message when it did not).
pub fn connection_verdict(outcome: Option<Result<(), String>>, timeout_secs: u64) -> (r: Result<
    bool,
    KafkaError,
>)
    ensures
        match outcome {
            None => r == Err::<bool, KafkaError>(KafkaError::ConnectionTimeout(timeout_secs)),
            Some(Ok(())) => r == Ok::<bool, KafkaError>(true),
            Some(Err(d)) => r == Err::<bool, KafkaError>(KafkaError::ConnectionFailed(d)),
        },
{
    match outcome {
        None => Err(KafkaError::ConnectionTimeout(timeout_secs)),
        Some(Ok(())) => Ok(true),
        Some(Err(d)) => Err(KafkaError::ConnectionFailed(d)),
    }
}

/// What a piece of outside work gave back to an operation in progress.
#[derive(Clone, Debug)]
pub enum OpEvent {
    /// The work succeeded with nothing to report.
    Done,
    /// The work failed; the client library's message.
    Failed(String),
    /// A queried partition offset.
    Offset(i64),
    /// The records of a fetch, in order.
    Records(Vec<FetchedRecord>),
    /// The wall clock, in whole seconds since the Unix epoch.
    Clock(u64),
}

/// How a produced batch is encoded. Sends never compress.
#[derive(Clone, Copy, Debug, PartialEq, Eq, Structural)]
pub enum RecordCodec {
    Uncompressed,
}

/// Where a send stands. It starts at `Connecting`, where the runtime
/// connects to the brokers.
#[derive(Clone, Copy, Debug, PartialEq, Eq, Structural)]
pub enum SendStage {
    Connecting,
    OpeningPartition,
    Producing,
    ReadingClock,
    Finished,
}

/// What the runtime does next for a send.
#[derive(Debug)]
pub enum SendAction {
    /// Open `partition` of `topic`, failing on an unknown topic.
    OpenPartition { topic: String, partition: i32 },
    /// Produce one record with this key and value and the current time as
    /// its timestamp, encoded with `codec`.
    Produce { key: Option<Vec<u8>>, value: Vec<u8>, codec: RecordCodec },
    /// Read the wall clock.
    ReadClock,
    /// The send is over with this result.
    Finish(Result<SendResult, KafkaError>),
}

impl SendStage {
    /// The events that can come back from the work done at this stage.
    pub open spec fn spec_accepts(&self, e: OpEvent) -> bool {
        match self {
            SendStage::Connecting | SendStage::OpeningPartition | SendStage::Producing => e is Done
                || e is Failed,
            SendStage::ReadingClock => e is Clock,
            SendStage::Finished => false,
        }
    }

    /// Whether `e` can come back from the work done at this stage.
    pub fn accepts(&self, e: &OpEvent) -> (r: bool)
        ensures
            r == self.spec_accepts(*e),
    {
        match self {
            SendStage::Connecting | SendStage::OpeningPartition | SendStage::Producing => match e {
                OpEvent::Done | OpEvent::Failed(_) => true,
                _ => false,
            },
            SendStage::ReadingClock => match e {
                OpEvent::Clock(_) => true,
                _ => false,
            },
            SendStage::Finished => false,
        }
    }
}

/// The step a send of `message` to `topic` takes from `stage` on event `e`:
/// one record, without key and uncompressed, to partition 0.
pub open spec fn send_step_spec(
    stage: SendStage,
    e: OpEvent,
    topic: String,
    message: String,
    next: SendStage,
    a: SendAction,
) -> bool {
    match (stage, e) {
        (SendStage::Connecting, OpEvent::Done) => next == SendStage::OpeningPartition && a == (
        SendAction::OpenPartition { topic, partition: 0 }),
        (SendStage::Connecting, OpEvent::Failed(d)) => next == SendStage::Finished && a is Finish
            && a->Finish_0 == Err::<SendResult, KafkaError>(KafkaError::ConnectionFailed(d)),
        (SendStage::OpeningPartition, OpEvent::Done) => next == SendStage::Producing && a is Produce
            && a->Produce_key is None && a->Produce_value@ == encode_utf8(message@)
            && a->Produce_codec == RecordCodec::Uncompressed,
        (SendStage::OpeningPartition, OpEvent::Failed(d)) => next == SendStage::Finished
            && a is Finish && a->Finish_0 == Err::<SendResult, KafkaError>(
            KafkaError::SendFailed(d),
        ),
        (SendStage::Producing, OpEvent::Done) => next == SendStage::ReadingClock && a is ReadClock,
        (SendStage::Producing, OpEvent::Failed(d)) => next == SendStage::Finished && a is Finish
            && a->Finish_0 == Err::<SendResult, KafkaError>(KafkaError::SendFailed(d)),
        (SendStage::ReadingClock, OpEvent::Clock(t)) => next == SendStage::Finished && a is Finish
            && a->Finish_0 is Ok && {
            let r = a->Finish_0->Ok_0;
            r.success && r.message@ == "Message sent successfully"@ && r.timestamp == t
        },
        _ => false,
    }
}

/// Advances a send of `message` to `topic`: from `stage`, on the event `e`
/// that the work of that stage gave, to the next stage and what the runtime
/// does next.
pub fn send_step(stage: SendStage, e: OpEvent, topic: &String, message: &String) -> (r: (
    SendStage,
    SendAction,
))
    requires
        stage.spec_accepts(e),
    ensures
        send_step_spec(stage, e, *topic, *message, r.0, r.1),
{
    match (stage, e) {
        (SendStage::Connecting, OpEvent::Done) => (
            SendStage::OpeningPartition,
            SendAction::OpenPartition { topic: topic.clone(), partition: 0 },
        ),
        (SendStage::Connecting, OpEvent::Failed(d)) => (
            SendStage::Finished,
            SendAction::Finish(Err(KafkaError::ConnectionFailed(d))),
        ),
        (SendStage::OpeningPartition, OpEvent::Done) => (
            SendStage::Producing,
            SendAction::Produce { key: None, value: message.as_str().as_bytes_vec(), codec: RecordCodec::Uncompressed },
        ),
        (SendStage::Producing, OpEvent::Done) => (SendStage::ReadingClock, SendAction::ReadClock),
        (SendStage::ReadingClock, OpEvent::Clock(t)) => (
            SendStage::Finished,
            SendAction::Finish(Ok(send_result(t))),
        ),
        (_, OpEvent::Failed(d)) => (SendStage::Finished, SendAction::Finish(Err(KafkaError::SendFailed(d)))),
        _ => unreached(),
    }
}

/// Where a topic creation stands. It starts at `Connecting`, where the
/// runtime connects to the brokers.
#[derive(Clone, Copy, Debug, PartialEq, Eq, Structural)]
pub enum CreateTopicStage {
    Connecting,
    OpeningController,
    Creating,
    Finished,
}

/// What the runtime does next for a topic creation.
#[derive(Debug)]
pub enum CreateTopicAction {
    /// Obtain a handle on the cluster's controller.
    OpenController,
    /// Ask the controller to create the topic `name` with `partitions`
    /// partitions and replication factor `replication`, giving the broker
    /// `broker_timeout_ms`.
    Create { name: String, partitions: i32, replication: i16, broker_timeout_ms: i32 },
    /// The creation is over with this result.
    Finish(Result<TopicCreateResult, KafkaError>),
}

impl CreateTopicStage {
    /// The events that can come back from the work done at this stage.
    pub open spec fn spec_accepts(&self, e: OpEvent) -> bool {
        !(self is Finished) && (e is Done || e is Failed)
    }

    /// Whether `e` can come back from the work done at this stage.
    pub fn accepts(&self, e: &OpEvent) -> (r: bool)
        ensures
            r == self.spec_accepts(*e),
    {
        match self {
            CreateTopicStage::Finished => false,
            _ => match e {
                OpEvent::Done | OpEvent::Failed(_) => true,
                _ => false,
            },
        }
    }
}

/// The step a creation of the topic `topic`, with `partitions` partitions
/// and replication factor `replication`, takes from `stage` on event `e`.
pub open spec fn create_topic_step_spec(
    stage: CreateTopicStage,
    e: OpEvent,
    topic: String,
    partitions: i32,
    replication: i16,
    next: CreateTopicStage,
    a: CreateTopicAction,
) -> bool {
    match (stage, e) {
        (CreateTopicStage::Connecting, OpEvent::Done) => next == CreateTopicStage::OpeningController
            && a is OpenController,
        (CreateTopicStage::Connecting, OpEvent::Failed(d)) => next == CreateTopicStage::Finished
            && a is Finish && a->Finish_0 == Err::<TopicCreateResult, KafkaError>(
            KafkaError::ConnectionFailed(d),
        ),
        (CreateTopicStage::OpeningController, OpEvent::Done) => next == CreateTopicStage::Creating
            && a == (CreateTopicAction::Create {
            name: topic,
            partitions,
            replication,
            broker_timeout_ms: CREATE_TOPIC_BROKER_TIMEOUT_MS,
        }),
        (CreateTopicStage::Creating, OpEvent::Done) => next == CreateTopicStage::Finished
            && a is Finish && a->Finish_0 is Ok && {
            let r = a->Finish_0->Ok_0;
            r.success && r.topic == topic && r.message@ == crate::results::created_text(topic@)
        },
        (_, OpEvent::Failed(d)) => next == CreateTopicStage::Finished && a is Finish
            && a->Finish_0 == Err::<TopicCreateResult, KafkaError>(KafkaError::TopicCreateFailed(d)),
        _ => false,
    }
}

/// Advances a creation of the topic `topic`, with `partitions` partitions
/// and replication factor `replication`: from `stage`, on the event `e`
/// that the work of that stage gave, to the next stage and what the runtime
/// does next.
pub fn create_topic_step(
    stage: CreateTopicStage,
    e: OpEvent,
    topic: String,
    partitions: i32,
    replication: i16,
) -> (r: (CreateTopicStage, CreateTopicAction))
    requires
        stage.spec_accepts(e),
    ensures
        create_topic_step_spec(stage, e, topic, partitions, replication, r.0, r.1),
{
    match (stage, e) {
        (CreateTopicStage::Connecting, OpEvent::Done) => (
            CreateTopicStage::OpeningController,
            CreateTopicAction::OpenController,
        ),
        (CreateTopicStage::Connecting, OpEvent::Failed(d)) => (
            CreateTopicStage::Finished,
            CreateTopicAction::Finish(Err(KafkaError::ConnectionFailed(d))),
        ),
        (CreateTopicStage::OpeningController, OpEvent::Done) => (
            CreateTopicStage::Creating,
            CreateTopicAction::Create {
                name: topic,
                partitions,
                replication,
                broker_timeout_ms: CREATE_TOPIC_BROKER_TIMEOUT_MS,
            },
        ),
        (CreateTopicStage::Creating, OpEvent::Done) => (
            CreateTopicStage::Finished,
            CreateTopicAction::Finish(Ok(topic_created(topic))),
        ),
        (_, OpEvent::Failed(d)) => (
            CreateTopicStage::Finished,
            CreateTopicAction::Finish(Err(KafkaError::TopicCreateFailed(d))),
        ),
        _ => unreached(),
    }
}

} // verus!
