//! The values that successful operations hand back, and the tagged result
//! that the command boundary sees.
use vstd::prelude::*;
use vstd::string::*;
use crate::config::ConfigError;
use crate::error::KafkaError;

verus! {

/// Acknowledgement of a produced message.
#[derive(Clone, Debug)]
pub struct SendResult {
    pub success: bool,
    pub message: String,
    /// Wall-clock seconds since the Unix epoch when the send completed.
    pub timestamp: u64,
}

/// Acknowledgement of a created topic.
#[derive(Clone, Debug)]
pub struct TopicCreateResult {
    pub success: bool,
    pub message: String,
    pub topic: String,
}

/// One record read from a partition.
#[derive(Clone, Debug)]
pub struct ConsumedMessage {
    pub offset: i64,
    pub key: Option<String>,
    pub value: Option<String>,
    /// Milliseconds since the Unix epoch.
    pub timestamp: i64,
}

/// What the command boundary returns: a payload, or the text of an error.
#[derive(Clone, Debug)]
pub enum CommandResult<T> {
    Success(T),
    Failure(String),
}

/// The acknowledgement of a send that completed at `timestamp`.
pub fn send_result(timestamp: u64) -> (r: SendResult)
    ensures
        r.success,
        r.message@ == "Message sent successfully"@,
        r.timestamp == timestamp,
{
    SendResult { success: true, message: String::from_str("Message sent successfully"), timestamp }
}

/// The text that announces a created topic.
pub open spec fn created_text(topic: Seq<char>) -> Seq<char> {
    "Topic '"@ + topic + "' created successfully"@
}

/// The acknowledgement of a created topic named `topic`.
pub fn topic_created(topic: String) -> (r: TopicCreateResult)
    ensures
        r.success,
        r.message@ == created_text(topic@),
        r.topic == topic,
{
    let message = String::from_str("Topic '").concat(topic.as_str()).concat(
        "' created successfully",
    );
    TopicCreateResult { success: true, message, topic }
}

impl<T> CommandResult<T> {
    /// The payload of `r`, or the text of its error.
    pub fn from_kafka(r: Result<T, KafkaError>) -> (c: Self)
        ensures
            match r {
                Ok(d) => c == CommandResult::<T>::Success(d),
                Err(e) => c is Failure && c->Failure_0@ == e.spec_text(),
            },
    {
        match r {
            Ok(d) => CommandResult::Success(d),
            Err(e) => CommandResult::Failure(e.to_text()),
        }
    }

    /// The payload of `r`, or the text of its error.
    pub fn from_config(r: Result<T, ConfigError>) -> (c: Self)
        ensures
            match r {
                Ok(d) => c == CommandResult::<T>::Success(d),
                Err(e) => c is Failure && c->Failure_0@ == e.spec_text(),
            },
    {
        match r {
            Ok(d) => CommandResult::Success(d),
            Err(e) => CommandResult::Failure(e.to_text()),
        }
    }
}

impl<T> From<Result<T, KafkaError>> for CommandResult<T> {
    fn from(r: Result<T, KafkaError>) -> (c: Self) {
        CommandResult::from_kafka(r)
    }
}

impl<T> vstd::std_specs::convert::FromSpecImpl<Result<T, KafkaError>> for CommandResult<T> {
    open spec fn obeys_from_spec() -> bool {
        false
    }

    open spec fn from_spec(r: Result<T, KafkaError>) -> Self {
        CommandResult::Failure(arbitrary())
    }
}

impl<T> From<Result<T, ConfigError>> for CommandResult<T> {
    fn from(r: Result<T, ConfigError>) -> (c: Self) {
        CommandResult::from_config(r)
    }
}

impl<T> vstd::std_specs::convert::FromSpecImpl<Result<T, ConfigError>> for CommandResult<T> {
    open spec fn obeys_from_spec() -> bool {
        false
    }

    open spec fn from_spec(r: Result<T, ConfigError>) -> Self {
        CommandResult::Failure(arbitrary())
    }
}

} // verus!
