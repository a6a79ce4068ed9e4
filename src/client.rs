//! Turning a transport plan into the client library's builder.
use vstd::prelude::*;
use std::sync::Arc;
use rskafka::client::{ClientBuilder, Credentials, OauthBearerCredentials, SaslConfig};
use crate::config::SaslMechanism;
use crate::transport::{SaslPlan, TransportPlan};

verus! {

#[verifier::external_type_specification]
#[verifier::external_body]
pub struct ExClientBuilder(ClientBuilder);

#[verifier::external_type_specification]
pub struct ExSaslConfig(SaslConfig);

#[verifier::external_type_specification]
pub struct ExCredentials(Credentials);

#[verifier::external_type_specification]
#[verifier::external_body]
pub struct ExOauthBearerCredentials(OauthBearerCredentials);

#[verifier::external_type_specification]
#[verifier::external_body]
pub struct ExTlsClientConfig(rustls::ClientConfig);

/// Relies on rskafka's `ClientBuilder::new`: a builder over the bootstrap
/// brokers given.
pub assume_specification[ ClientBuilder::new ](bootstrap_brokers: Vec<String>) -> ClientBuilder;

/// Relies on rskafka's `ClientBuilder::tls_config`: the builder, set to
/// connect over TLS with the client context given.
pub assume_specification[ ClientBuilder::tls_config ](
    builder: ClientBuilder,
    tls_config: Arc<rustls::ClientConfig>,
) -> ClientBuilder;

/// Relies on rskafka's `ClientBuilder::sasl_config`: the builder, set to
/// authenticate with the SASL configuration given.
pub assume_specification[ ClientBuilder::sasl_config ](
    builder: ClientBuilder,
    sasl_config: SaslConfig,
) -> ClientBuilder;

/// Relies on rskafka's `Credentials::new`: the pair of the username and
/// password given.
pub assume_specification[ Credentials::new ](username: String, password: String) -> (r: Credentials)
    ensures
        r == (Credentials { username, password }),
;

/// The SASL configuration of `s`: its username and password under its
/// mechanism.
pub fn sasl_config_for(s: SaslPlan) -> (r: SaslConfig)
    ensures
        r == match s.mechanism {
            SaslMechanism::Plain => SaslConfig::Plain(
                Credentials { username: s.username, password: s.password },
            ),
            SaslMechanism::ScramSha256 => SaslConfig::ScramSha256(
                Credentials { username: s.username, password: s.password },
            ),
            SaslMechanism::ScramSha512 => SaslConfig::ScramSha512(
                Credentials { username: s.username, password: s.password },
            ),
        },
{
    let credentials = Credentials::new(s.username, s.password);
    match s.mechanism {
        SaslMechanism::Plain => SaslConfig::Plain(credentials),
        SaslMechanism::ScramSha256 => SaslConfig::ScramSha256(credentials),
        SaslMechanism::ScramSha512 => SaslConfig::ScramSha512(credentials),
    }
}

/// The client builder for `plan`: its brokers, the TLS context `tls` when
/// one is given (the one built from `plan.tls`), and the plan's SASL
/// credentials under their mechanism when it has them.
pub fn client_builder(plan: TransportPlan, tls: Option<Arc<rustls::ClientConfig>>) -> ClientBuilder {
    let mut builder = ClientBuilder::new(plan.brokers);
    if let Some(t) = tls {
        builder = builder.tls_config(t);
    }
    if let Some(s) = plan.sasl {
        builder = builder.sasl_config(sasl_config_for(s));
    }
    builder
}

} // verus!
