//! The closed set of failures that every operation reports.
use vstd::prelude::*;
use vstd::string::*;

verus! {

/// Failures of broker operations, by kind.
///
/// A timeout is a kind of its own, apart from a connection failure: the
/// remedy differs (a longer deadline, not another address).
#[derive(Clone, Debug, PartialEq, Eq)]
pub enum KafkaError {
    ConnectionFailed(String),
    SendFailed(String),
    InvalidConfig(String),
    ConnectionTimeout(u64),
    TopicCreateFailed(String),
    ConsumeFailed(String),
}

/// The decimal digits of `n`, most significant first, without leading zeros.
pub open spec fn decimal(n: nat) -> Seq<char>
    decreases n,
{
    let d = ((n % 10) + ('0' as nat)) as char;
    if n < 10 {
        seq![d]
    } else {
        decimal(n / 10).push(d)
    }
}

/// Relies on `u64`'s `Display` through `to_string`: the decimal digits of
/// the value, with no sign, padding or separators.
#[verifier::external_body]
fn decimal_text(n: u64) -> (r: String)
    ensures
        r@ == decimal(n as nat),
{
    n.to_string()
}

impl KafkaError {
    /// The human-readable text of the error.
    pub open spec fn spec_text(&self) -> Seq<char> {
        match self {
            KafkaError::ConnectionFailed(d) => "Connection failed: "@ + d@,
            KafkaError::SendFailed(d) => "Send failed: "@ + d@,
            KafkaError::InvalidConfig(d) => "Invalid configuration: "@ + d@,
            KafkaError::ConnectionTimeout(n) => "Connection timeout after "@ + decimal(*n as nat)
                + " seconds"@,
            KafkaError::TopicCreateFailed(d) => "Topic creation failed: "@ + d@,
            KafkaError::ConsumeFailed(d) => "Consume failed: "@ + d@,
        }
    }

    /// The human-readable text of the error.
    pub fn to_text(&self) -> (r: String)
        ensures
            r@ == self.spec_text(),
    {
        match self {
            KafkaError::ConnectionFailed(d) => String::from_str("Connection failed: ").concat(
                d.as_str(),
            ),
            KafkaError::SendFailed(d) => String::from_str("Send failed: ").concat(d.as_str()),
            KafkaError::InvalidConfig(d) => String::from_str("Invalid configuration: ").concat(
                d.as_str(),
            ),
            KafkaError::ConnectionTimeout(n) => {
                let digits = decimal_text(*n);
                String::from_str("Connection timeout after ").concat(digits.as_str()).concat(
                    " seconds",
                )
            },
            KafkaError::TopicCreateFailed(d) => String::from_str("Topic creation failed: ").concat(
                d.as_str(),
            ),
            KafkaError::ConsumeFailed(d) => String::from_str("Consume failed: ").concat(d.as_str()),
        }
    }
}

} // verus!
