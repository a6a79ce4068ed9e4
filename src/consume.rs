//! Deciding what a consume reads, and turning fetched records into messages.
use vstd::prelude::*;
use vstd::utf8::{decode_utf8, valid_utf8};
use vstd::string::*;
use crate::error::KafkaError;
use crate::ops::OpEvent;
use crate::results::ConsumedMessage;

verus! {

/// Smallest batch, in bytes, that a fetch asks the broker for.
pub const FETCH_MIN_BYTES: i32 = 1;

/// Bound, exclusive, on the bytes of a fetched batch (1 MiB).
pub const FETCH_MAX_BYTES: i32 = 1048576;

/// How long the broker may wait for data before it answers a fetch.
pub const FETCH_MAX_WAIT_MS: i32 = 5000;

/// What a consume does once the partition's offset range is known.
#[derive(Clone, Copy, Debug, PartialEq, Eq, Structural)]
pub enum ConsumePlan {
    /// Nothing to read: return no records and issue no fetch.
    Empty,
    /// Fetch records starting at `offset`.
    Fetch { offset: i64 },
}

/// The plan for a read that asks for `requested` on a partition that holds
/// the offsets from `earliest` up to, not including, `latest`.
pub open spec fn consume_plan_for(earliest: i64, latest: i64, requested: i64) -> ConsumePlan {
    if earliest >= latest {
        ConsumePlan::Empty
    } else if requested < earliest {
        ConsumePlan::Fetch { offset: earliest }
    } else if requested >= latest {
        ConsumePlan::Empty
    } else {
        ConsumePlan::Fetch { offset: requested }
    }
}

/// Decides where a consume starts: an empty partition, or a requested offset
/// at or past `latest`, reads nothing; an offset below `earliest` is raised
/// to `earliest`; any other is read from as it is.
pub fn plan_consume(earliest: i64, latest: i64, requested: i64) -> (r: ConsumePlan)
    ensures
        r == consume_plan_for(earliest, latest, requested),
{
    if earliest >= latest {
        ConsumePlan::Empty
    } else if requested < earliest {
        ConsumePlan::Fetch { offset: earliest }
    } else if requested >= latest {
        ConsumePlan::Empty
    } else {
        ConsumePlan::Fetch { offset: requested }
    }
}

/// A record as the broker returned it.
#[derive(Clone, Debug)]
pub struct FetchedRecord {
    pub offset: i64,
    pub key: Option<Vec<u8>>,
    pub value: Option<Vec<u8>>,
    /// Milliseconds since the Unix epoch.
    pub timestamp_millis: i64,
}

/// The text of `b` decoded as UTF-8, each invalid sequence replaced by
/// U+FFFD.
pub uninterp spec fn lossy_text(b: Seq<u8>) -> Seq<char>;

/// Relies on `String::from_utf8_lossy`: the bytes decoded as UTF-8, with
/// U+FFFD in place of each invalid sequence; valid input is decoded as it is.
#[verifier::external_body]
fn decode_lossy(b: &Vec<u8>) -> (r: String)
    ensures
        r@ == lossy_text(b@),
        valid_utf8(b@) ==> r@ == decode_utf8(b@),
{
    String::from_utf8_lossy(b.as_slice()).into_owned()
}

/// The optional text of optional bytes.
pub open spec fn text_of(b: Option<Vec<u8>>) -> Option<Seq<char>> {
    match b {
        Some(v) => Some(lossy_text(v@)),
        None => None,
    }
}

/// The view of an optional string.
pub open spec fn opt_view(s: Option<String>) -> Option<Seq<char>> {
    match s {
        Some(v) => Some(v@),
        None => None,
    }
}

/// `m` is the message that `rec` is read as.
pub open spec fn message_of(rec: FetchedRecord, m: ConsumedMessage) -> bool {
    &&& m.offset == rec.offset
    &&& opt_view(m.key) == text_of(rec.key)
    &&& opt_view(m.value) == text_of(rec.value)
    &&& m.timestamp == rec.timestamp_millis
}

/// How many of `n` records a read capped at `max` keeps: at most `max`,
/// and none when the cap is zero or negative.
pub open spec fn kept_count(n: nat, max: i32) -> nat {
    if max <= 0 {
        0
    } else if n <= max as nat {
        n
    } else {
        max as nat
    }
}

fn decode_field(b: &Option<Vec<u8>>) -> (r: Option<String>)
    ensures
        opt_view(r) == text_of(*b),
{
    match b {
        Some(v) => Some(decode_lossy(v)),
        None => None,
    }
}

/// The first `max_messages` of `records` (none when the cap is zero or
/// negative), in order, with keys and values decoded as text.
pub fn to_messages(records: &Vec<FetchedRecord>, max_messages: i32) -> (r: Vec<ConsumedMessage>)
    ensures
        r@.len() == kept_count(records@.len(), max_messages),
        forall|i: int| 0 <= i < r@.len() ==> message_of(records@[i], #[trigger] r@[i]),
{
    let count: usize = if max_messages <= 0 {
        0
    } else if records.len() <= max_messages as usize {
        records.len()
    } else {
        max_messages as usize
    };
    let mut out: Vec<ConsumedMessage> = Vec::new();
    let mut i: usize = 0;
    while i < count
        invariant
            count == kept_count(records@.len(), max_messages),
            count <= records@.len(),
            i <= count,
            out@.len() == i,
            forall|k: int| 0 <= k < i ==> message_of(records@[k], #[trigger] out@[k]),
        decreases count - i,
    {
        let rec = &records[i];
        let m = ConsumedMessage {
            offset: rec.offset,
            key: decode_field(&rec.key),
            value: decode_field(&rec.value),
            timestamp: rec.timestamp_millis,
        };
        out.push(m);
        i = i + 1;
    }
    out
}

/// Where a consume stands. It starts at `Connecting`, where the runtime
/// connects to the brokers.
#[derive(Clone, Copy, Debug, PartialEq, Eq, Structural)]
pub enum ConsumeStage {
    Connecting,
    OpeningPartition,
    AskingEarliest,
    AskingLatest { earliest: i64 },
    Fetching,
    Finished,
}

/// What the runtime does next for a consume.
#[derive(Debug)]
pub enum ConsumeAction {
    /// Open `partition` of `topic`, failing on an unknown topic.
    OpenPartition { topic: String, partition: i32 },
    /// Ask for the earliest retained offset.
    QueryEarliest,
    /// Ask for the offset the next record will get.
    QueryLatest,
    /// Fetch from `offset` a batch of `min_bytes` up to (not including)
    /// `max_bytes`, letting the broker wait up to `max_wait_ms`.
    Fetch { offset: i64, min_bytes: i32, max_bytes: i32, max_wait_ms: i32 },
    /// The consume is over with this result.
    Finish(Result<Vec<ConsumedMessage>, KafkaError>),
}

impl ConsumeStage {
    /// The events that can come back from the work done at this stage.
    pub open spec fn spec_accepts(&self, e: OpEvent) -> bool {
        match self {
            ConsumeStage::Connecting | ConsumeStage::OpeningPartition => e is Done || e is Failed,
            ConsumeStage::AskingEarliest | ConsumeStage::AskingLatest { .. } => e is Offset
                || e is Failed,
            ConsumeStage::Fetching => e is Records || e is Failed,
            ConsumeStage::Finished => false,
        }
    }

    /// Whether `e` can come back from the work done at this stage.
    pub fn accepts(&self, e: &OpEvent) -> (r: bool)
        ensures
            r == self.spec_accepts(*e),
    {
        match self {
            ConsumeStage::Connecting | ConsumeStage::OpeningPartition => match e {
                OpEvent::Done | OpEvent::Failed(_) => true,
                _ => false,
            },
            ConsumeStage::AskingEarliest | ConsumeStage::AskingLatest { .. } => match e {
                OpEvent::Offset(_) | OpEvent::Failed(_) => true,
                _ => false,
            },
            ConsumeStage::Fetching => match e {
                OpEvent::Records(_) | OpEvent::Failed(_) => true,
                _ => false,
            },
            ConsumeStage::Finished => false,
        }
    }
}

/// `a` finishes the consume with `Err(err)`.
pub open spec fn finishes_with_error(a: ConsumeAction, err: KafkaError) -> bool {
    a is Finish && a->Finish_0 == Err::<Vec<ConsumedMessage>, KafkaError>(err)
}

/// `a` finishes the consume with a failure of kind `ConsumeFailed` whose
/// detail is `text`.
pub open spec fn finishes_consume_failed(a: ConsumeAction, text: Seq<char>) -> bool {
    a is Finish && a->Finish_0 is Err && a->Finish_0->Err_0 is ConsumeFailed
        && a->Finish_0->Err_0->ConsumeFailed_0@ == text
}

/// `a` finishes the consume with the messages read from `records` under the
/// cap `max_messages`.
pub open spec fn finishes_with_records(
    a: ConsumeAction,
    records: Seq<FetchedRecord>,
    max_messages: i32,
) -> bool {
    a is Finish && a->Finish_0 is Ok && {
        let v = a->Finish_0->Ok_0@;
        &&& v.len() == kept_count(records.len(), max_messages)
        &&& forall|i: int| 0 <= i < v.len() ==> message_of(records[i], #[trigger] v[i])
    }
}

/// The step a consume of partition 0 of `topic` that asked for offset
/// `requested` and at most `max_messages` records takes from `stage` on
/// event `e`.
pub open spec fn consume_step_spec(
    stage: ConsumeStage,
    e: OpEvent,
    topic: String,
    requested: i64,
    max_messages: i32,
    next: ConsumeStage,
    a: ConsumeAction,
) -> bool {
    match (stage, e) {
        (ConsumeStage::Connecting, OpEvent::Done) => next == ConsumeStage::OpeningPartition && a == (
        ConsumeAction::OpenPartition { topic, partition: 0 }),
        (ConsumeStage::Connecting, OpEvent::Failed(d)) => next == ConsumeStage::Finished
            && finishes_with_error(a, KafkaError::ConnectionFailed(d)),
        (ConsumeStage::OpeningPartition, OpEvent::Done) => next == ConsumeStage::AskingEarliest
            && a is QueryEarliest,
        (ConsumeStage::OpeningPartition, OpEvent::Failed(d)) => next == ConsumeStage::Finished
            && finishes_with_error(a, KafkaError::ConsumeFailed(d)),
        (ConsumeStage::AskingEarliest, OpEvent::Offset(o)) => next == (ConsumeStage::AskingLatest {
            earliest: o,
        }) && a is QueryLatest,
        (ConsumeStage::AskingEarliest, OpEvent::Failed(d)) => next == ConsumeStage::Finished
            && finishes_consume_failed(a, "Failed to get earliest offset: "@ + d@),
        (ConsumeStage::AskingLatest { earliest }, OpEvent::Offset(latest)) => match consume_plan_for(
            earliest,
            latest,
            requested,
        ) {
            ConsumePlan::Empty => next == ConsumeStage::Finished && a is Finish && a->Finish_0 is Ok
                && a->Finish_0->Ok_0@.len() == 0,
            ConsumePlan::Fetch { offset } => next == ConsumeStage::Fetching && a == (
            ConsumeAction::Fetch {
                offset,
                min_bytes: FETCH_MIN_BYTES,
                max_bytes: FETCH_MAX_BYTES,
                max_wait_ms: FETCH_MAX_WAIT_MS,
            }),
        },
        (ConsumeStage::AskingLatest { .. }, OpEvent::Failed(d)) => next == ConsumeStage::Finished
            && finishes_consume_failed(a, "Failed to get latest offset: "@ + d@),
        (ConsumeStage::Fetching, OpEvent::Records(rs)) => next == ConsumeStage::Finished
            && finishes_with_records(a, rs@, max_messages),
        (ConsumeStage::Fetching, OpEvent::Failed(d)) => next == ConsumeStage::Finished
            && finishes_with_error(a, KafkaError::ConsumeFailed(d)),
        _ => false,
    }
}

/// Advances a consume of partition 0 of `topic` that asked for offset
/// `requested` and at most `max_messages` records: from `stage`, on the
/// event `e` that the work of that stage gave, to the next stage and what
/// the runtime does next.
pub fn consume_step(
    stage: ConsumeStage,
    e: OpEvent,
    topic: &String,
    requested: i64,
    max_messages: i32,
) -> (r: (ConsumeStage, ConsumeAction))
    requires
        stage.spec_accepts(e),
    ensures
        consume_step_spec(stage, e, *topic, requested, max_messages, r.0, r.1),
{
    match stage {
        ConsumeStage::Connecting => match e {
            OpEvent::Failed(d) => (
                ConsumeStage::Finished,
                ConsumeAction::Finish(Err(KafkaError::ConnectionFailed(d))),
            ),
            OpEvent::Done => (
                ConsumeStage::OpeningPartition,
                ConsumeAction::OpenPartition { topic: topic.clone(), partition: 0 },
            ),
            _ => unreached(),
        },
        ConsumeStage::OpeningPartition => match e {
            OpEvent::Failed(d) => (
                ConsumeStage::Finished,
                ConsumeAction::Finish(Err(KafkaError::ConsumeFailed(d))),
            ),
            OpEvent::Done => (ConsumeStage::AskingEarliest, ConsumeAction::QueryEarliest),
            _ => unreached(),
        },
        ConsumeStage::AskingEarliest => match e {
            OpEvent::Offset(o) => (ConsumeStage::AskingLatest { earliest: o }, ConsumeAction::QueryLatest),
            OpEvent::Failed(d) => {
                let m = String::from_str("Failed to get earliest offset: ").concat(d.as_str());
                (ConsumeStage::Finished, ConsumeAction::Finish(Err(KafkaError::ConsumeFailed(m))))
            },
            _ => unreached(),
        },
        ConsumeStage::AskingLatest { earliest } => match e {
            OpEvent::Offset(latest) => match plan_consume(earliest, latest, requested) {
                ConsumePlan::Empty => (ConsumeStage::Finished, ConsumeAction::Finish(Ok(Vec::new()))),
                ConsumePlan::Fetch { offset } => (
                    ConsumeStage::Fetching,
                    ConsumeAction::Fetch {
                        offset,
                        min_bytes: FETCH_MIN_BYTES,
                        max_bytes: FETCH_MAX_BYTES,
                        max_wait_ms: FETCH_MAX_WAIT_MS,
                    },
                ),
            },
            OpEvent::Failed(d) => {
                let m = String::from_str("Failed to get latest offset: ").concat(d.as_str());
                (ConsumeStage::Finished, ConsumeAction::Finish(Err(KafkaError::ConsumeFailed(m))))
            },
            _ => unreached(),
        },
        ConsumeStage::Fetching => match e {
            OpEvent::Records(rs) => (
                ConsumeStage::Finished,
                ConsumeAction::Finish(Ok(to_messages(&rs, max_messages))),
            ),
            OpEvent::Failed(d) => (
                ConsumeStage::Finished,
                ConsumeAction::Finish(Err(KafkaError::ConsumeFailed(d))),
            ),
            _ => unreached(),
        },
        ConsumeStage::Finished => unreached(),
    }
}

/// Once both offsets are known, an empty partition finishes the consume
/// with no records, whatever offset was asked for, and issues no fetch.
pub proof fn lemma_step_empty_partition(
    topic: String,
    earliest: i64,
    requested: i64,
    max_messages: i32,
    next: ConsumeStage,
    a: ConsumeAction,
)
    requires
        consume_step_spec(
            ConsumeStage::AskingLatest { earliest },
            OpEvent::Offset(earliest),
            topic,
            requested,
            max_messages,
            next,
            a,
        ),
    ensures
        next == ConsumeStage::Finished,
        a is Finish && a->Finish_0 is Ok && a->Finish_0->Ok_0@.len() == 0,
{
}

/// A requested offset below the earliest retained one is fetched from the
/// earliest.
pub proof fn lemma_step_old_offset(
    topic: String,
    earliest: i64,
    latest: i64,
    requested: i64,
    max_messages: i32,
    next: ConsumeStage,
    a: ConsumeAction,
)
    requires
        requested < earliest < latest,
        consume_step_spec(
            ConsumeStage::AskingLatest { earliest },
            OpEvent::Offset(latest),
            topic,
            requested,
            max_messages,
            next,
            a,
        ),
    ensures
        a is Fetch && a->Fetch_offset == earliest,
{
}

/// A requested offset at or past the latest one finishes the consume with
/// no records, and no fetch is issued.
pub proof fn lemma_step_future_offset(
    topic: String,
    earliest: i64,
    latest: i64,
    requested: i64,
    max_messages: i32,
    next: ConsumeStage,
    a: ConsumeAction,
)
    requires
        requested >= latest,
        consume_step_spec(
            ConsumeStage::AskingLatest { earliest },
            OpEvent::Offset(latest),
            topic,
            requested,
            max_messages,
            next,
            a,
        ),
    ensures
        next == ConsumeStage::Finished,
        !(a is Fetch),
        a is Finish && a->Finish_0 is Ok && a->Finish_0->Ok_0@.len() == 0,
{
}

} // verus!
