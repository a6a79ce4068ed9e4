//! Connection planning and operation sequencing for a client that produces
//! to, consumes from and administers topics on a distributed log broker.
//!
//! The library decides; a runtime acts. From a configuration snapshot it
//! plans the transport (broker addresses, TLS set-up, SASL credentials) and
//! assembles the client library's builder; for each operation it is a state
//! machine that the runtime drives with what its network calls gave back,
//! and it says what an operation abandoned at its deadline reports.
pub mod brokers;
pub mod client;
pub mod config;
pub mod consume;
pub mod error;
pub mod ops;
pub mod results;
pub mod tls;
pub mod transport;

pub use config::{AppConfig, ConfigError, SaslMechanism, SecurityProtocol};
pub use consume::{ConsumePlan, FetchedRecord};
pub use error::KafkaError;
pub use results::{CommandResult, ConsumedMessage, SendResult, TopicCreateResult};
pub use transport::{ClientAuthPaths, RootSource, SaslPlan, TlsPlan, TransportPlan};
