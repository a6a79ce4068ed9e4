//! The connection parameters that every operation snapshots.
use vstd::prelude::*;
use vstd::string::*;

verus! {

/// How the transport to the brokers is secured.
#[derive(Clone, Copy, Debug, PartialEq, Eq, Structural)]
pub enum SecurityProtocol {
    Plaintext,
    Ssl,
    SaslPlaintext,
    SaslSsl,
}

/// The SASL mechanism under which credentials are presented.
#[derive(Clone, Copy, Debug, PartialEq, Eq, Structural)]
pub enum SaslMechanism {
    Plain,
    ScramSha256,
    ScramSha512,
}

impl SecurityProtocol {
    /// The protocol wraps the connection in TLS.
    pub open spec fn spec_uses_tls(&self) -> bool {
        self is Ssl || self is SaslSsl
    }

    /// The protocol authenticates with SASL.
    pub open spec fn spec_uses_sasl(&self) -> bool {
        self is SaslPlaintext || self is SaslSsl
    }

    #[verifier::when_used_as_spec(spec_uses_tls)]
    pub fn uses_tls(&self) -> (r: bool)
        ensures
            r == self.spec_uses_tls(),
    {
        match self {
            SecurityProtocol::Ssl | SecurityProtocol::SaslSsl => true,
            _ => false,
        }
    }

    #[verifier::when_used_as_spec(spec_uses_sasl)]
    pub fn uses_sasl(&self) -> (r: bool)
        ensures
            r == self.spec_uses_sasl(),
    {
        match self {
            SecurityProtocol::SaslPlaintext | SecurityProtocol::SaslSsl => true,
            _ => false,
        }
    }
}

impl Default for SecurityProtocol {
    fn default() -> (r: Self)
        ensures
            r == SecurityProtocol::Plaintext,
    {
        SecurityProtocol::Plaintext
    }
}

impl Default for SaslMechanism {
    fn default() -> (r: Self)
        ensures
            r == SaslMechanism::Plain,
    {
        SaslMechanism::Plain
    }
}

/// Connection parameters: broker list, topic, client identity, and the
/// security settings that the transport is built from.
///
/// The SASL fields matter only under a SASL protocol, the TLS fields only
/// under a TLS protocol.
#[derive(Clone, Debug)]
pub struct AppConfig {
    /// Comma-separated `host:port` entries.
    pub broker: String,
    pub topic: String,
    pub client_id: String,
    pub security_protocol: SecurityProtocol,
    pub sasl_mechanism: SaslMechanism,
    pub sasl_username: String,
    pub sasl_password: String,
    /// PEM file of trusted CA certificates; empty means the system trust store.
    pub ssl_ca_cert_path: String,
    /// PEM file of the client certificate chain for mutual TLS.
    pub ssl_client_cert_path: String,
    /// PEM file of the client private key for mutual TLS.
    pub ssl_client_key_path: String,
    /// Accept any server certificate (insecure; for test brokers only).
    pub ssl_skip_verification: bool,
}

impl Default for AppConfig {
    fn default() -> (r: Self)
        ensures
            r.broker@ == "localhost:9092"@,
            r.topic@ == "test-topic"@,
            r.client_id@ == "kafka-msg-publisher"@,
            r.security_protocol == SecurityProtocol::Plaintext,
            r.sasl_mechanism == SaslMechanism::Plain,
            r.sasl_username@.len() == 0,
            r.sasl_password@.len() == 0,
            r.ssl_ca_cert_path@.len() == 0,
            r.ssl_client_cert_path@.len() == 0,
            r.ssl_client_key_path@.len() == 0,
            !r.ssl_skip_verification,
    {
        AppConfig {
            broker: String::from_str("localhost:9092"),
            topic: String::from_str("test-topic"),
            client_id: String::from_str("kafka-msg-publisher"),
            security_protocol: SecurityProtocol::default(),
            sasl_mechanism: SaslMechanism::default(),
            sasl_username: String::new(),
            sasl_password: String::new(),
            ssl_ca_cert_path: String::new(),
            ssl_client_cert_path: String::new(),
            ssl_client_key_path: String::new(),
            ssl_skip_verification: false,
        }
    }
}

impl AppConfig {
    /// A deep copy of the configuration, sharing nothing with it: what an
    /// operation works from, unaffected by later replacements.
    pub fn snapshot(&self) -> (r: AppConfig)
        ensures
            r == *self,
    {
        AppConfig {
            broker: self.broker.clone(),
            topic: self.topic.clone(),
            client_id: self.client_id.clone(),
            security_protocol: self.security_protocol,
            sasl_mechanism: self.sasl_mechanism,
            sasl_username: self.sasl_username.clone(),
            sasl_password: self.sasl_password.clone(),
            ssl_ca_cert_path: self.ssl_ca_cert_path.clone(),
            ssl_client_cert_path: self.ssl_client_cert_path.clone(),
            ssl_client_key_path: self.ssl_client_key_path.clone(),
            ssl_skip_verification: self.ssl_skip_verification,
        }
    }
}

/// Why the configuration could not be persisted.
#[derive(Clone, Debug, PartialEq, Eq)]
pub enum ConfigError {
    NoConfigDir,
    IoError(String),
    SerializeError(String),
}

impl ConfigError {
    /// The human-readable text of the error.
    pub open spec fn spec_text(&self) -> Seq<char> {
        match self {
            ConfigError::NoConfigDir => "Could not find config directory"@,
            ConfigError::IoError(d) => "IO error: "@ + d@,
            ConfigError::SerializeError(d) => "Serialization error: "@ + d@,
        }
    }

    /// The human-readable text of the error.
    pub fn to_text(&self) -> (r: String)
        ensures
            r@ == self.spec_text(),
    {
        match self {
            ConfigError::NoConfigDir => String::from_str("Could not find config directory"),
            ConfigError::IoError(d) => String::from_str("IO error: ").concat(d.as_str()),
            ConfigError::SerializeError(d) => String::from_str("Serialization error: ").concat(
                d.as_str(),
            ),
        }
    }
}

} // verus!
