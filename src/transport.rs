//! What a transport to the brokers is made of, decided from a configuration
//! snapshot before any network attempt.
use vstd::prelude::*;
use vstd::string::*;
use crate::brokers::{broker_list, lemma_separators_name_no_broker, only_separators, parse_brokers, views};
use crate::config::{AppConfig, SaslMechanism, SecurityProtocol};
use crate::error::KafkaError;

verus! {

/// Where the server certificate is checked against.
#[derive(Clone, Debug, PartialEq, Eq)]
pub enum RootSource {
    /// The operating system's trust anchors, imported best-effort.
    Native,
    /// The PEM certificates of this file, every one of which must load.
    CaFile(String),
}

/// The PEM files of the client's own certificate chain and private key.
#[derive(Clone, Debug, PartialEq, Eq)]
pub struct ClientAuthPaths {
    pub cert_path: String,
    pub key_path: String,
}

/// How the TLS client context is set up.
#[derive(Clone, Debug, PartialEq, Eq)]
pub enum TlsPlan {
    /// Any server certificate and signature is accepted; no file is read.
    AcceptAnyCertificate,
    /// The server is verified against `roots`; with `client_auth`, the
    /// client authenticates itself (mutual TLS).
    Verify { roots: RootSource, client_auth: Option<ClientAuthPaths> },
}

/// The credentials presented, and under which mechanism.
#[derive(Clone, Debug, PartialEq, Eq)]
pub struct SaslPlan {
    pub mechanism: SaslMechanism,
    pub username: String,
    pub password: String,
}

/// Everything a transport is built from.
#[derive(Clone, Debug)]
pub struct TransportPlan {
    pub brokers: Vec<String>,
    pub tls: Option<TlsPlan>,
    pub sasl: Option<SaslPlan>,
}

/// The reason given when the broker field names no address.
pub open spec fn no_brokers_text() -> Seq<char> {
    "No broker addresses provided"@
}

/// The reason given when a SASL protocol has no username.
pub open spec fn sasl_username_text() -> Seq<char> {
    "SASL username is required"@
}

/// The TLS set-up that `c` asks for.
pub open spec fn tls_plan_for(c: AppConfig) -> Option<TlsPlan> {
    if !c.security_protocol.spec_uses_tls() {
        None
    } else if c.ssl_skip_verification {
        Some(TlsPlan::AcceptAnyCertificate)
    } else {
        let roots = if c.ssl_ca_cert_path@.len() == 0 {
            RootSource::Native
        } else {
            RootSource::CaFile(c.ssl_ca_cert_path)
        };
        let client_auth = if c.ssl_client_cert_path@.len() > 0 && c.ssl_client_key_path@.len()
            > 0 {
            Some(ClientAuthPaths { cert_path: c.ssl_client_cert_path, key_path: c.ssl_client_key_path })
        } else {
            None
        };
        Some(TlsPlan::Verify { roots, client_auth })
    }
}

/// The SASL credentials that `c` asks for.
pub open spec fn sasl_plan_for(c: AppConfig) -> Option<SaslPlan> {
    if c.security_protocol.spec_uses_sasl() {
        Some(
            SaslPlan {
                mechanism: c.sasl_mechanism,
                username: c.sasl_username,
                password: c.sasl_password,
            },
        )
    } else {
        None
    }
}

/// Why `c` cannot give a transport, if it cannot.
pub open spec fn rejection_of(c: AppConfig) -> Option<Seq<char>> {
    if broker_list(c.broker@).len() == 0 {
        Some(no_brokers_text())
    } else if c.security_protocol.spec_uses_sasl() && c.sasl_username@.len() == 0 {
        Some(sasl_username_text())
    } else {
        None
    }
}

fn clone_path(s: &String) -> (r: String)
    ensures
        r == *s,
{
    s.clone()
}

fn plan_tls(c: &AppConfig) -> (r: Option<TlsPlan>)
    ensures
        r == tls_plan_for(*c),
{
    if !c.security_protocol.uses_tls() {
        return None;
    }
    if c.ssl_skip_verification {
        return Some(TlsPlan::AcceptAnyCertificate);
    }
    let roots = if c.ssl_ca_cert_path.unicode_len() == 0 {
        RootSource::Native
    } else {
        RootSource::CaFile(clone_path(&c.ssl_ca_cert_path))
    };
    let client_auth = if c.ssl_client_cert_path.unicode_len() > 0
        && c.ssl_client_key_path.unicode_len() > 0 {
        Some(
            ClientAuthPaths {
                cert_path: clone_path(&c.ssl_client_cert_path),
                key_path: clone_path(&c.ssl_client_key_path),
            },
        )
    } else {
        None
    };
    Some(TlsPlan::Verify { roots, client_auth })
}

/// Decides the transport for the snapshot `c`: the broker addresses, the TLS
/// set-up where the protocol uses TLS, and the SASL credentials where it uses
/// SASL. Fails with `InvalidConfig` when the broker field names no address, or
/// when a SASL protocol has an empty username.
pub fn plan_transport(c: &AppConfig) -> (r: Result<TransportPlan, KafkaError>)
    ensures
        match r {
            Ok(p) => {
                &&& rejection_of(*c) is None
                &&& views(p.brokers@) == broker_list(c.broker@)
                &&& p.tls == tls_plan_for(*c)
                &&& p.sasl == sasl_plan_for(*c)
            },
            Err(e) => e is InvalidConfig && rejection_of(*c) == Some(e->InvalidConfig_0@),
        },
{
    let brokers = parse_brokers(c.broker.as_str());
    if brokers.len() == 0 {
        return Err(KafkaError::InvalidConfig(String::from_str("No broker addresses provided")));
    }
    let tls = plan_tls(c);
    let sasl = if c.security_protocol.uses_sasl() {
        if c.sasl_username.unicode_len() == 0 {
            return Err(KafkaError::InvalidConfig(String::from_str("SASL username is required")));
        }
        Some(
            SaslPlan {
                mechanism: c.sasl_mechanism,
                username: clone_path(&c.sasl_username),
                password: clone_path(&c.sasl_password),
            },
        )
    } else {
        None
    };
    Ok(TransportPlan { brokers, tls, sasl })
}

/// A broker field of commas and white space alone is rejected as invalid
/// configuration, whatever else the configuration holds.
pub proof fn lemma_blank_brokers_rejected(c: AppConfig)
    requires
        only_separators(c.broker@),
    ensures
        rejection_of(c) == Some(no_brokers_text()),
{
    lemma_separators_name_no_broker(c.broker@);
}

/// Under a protocol without SASL the SASL fields play no part: the only
/// possible rejection is an empty broker list, and no credentials are
/// presented.
pub proof fn lemma_sasl_fields_ignored_without_sasl(c: AppConfig)
    requires
        !c.security_protocol.spec_uses_sasl(),
    ensures
        rejection_of(c) != Some(sasl_username_text()),
        rejection_of(c) is Some ==> rejection_of(c) == Some(no_brokers_text()),
        rejection_of(c) is None <==> broker_list(c.broker@).len() > 0,
        sasl_plan_for(c) is None,
{
    reveal_strlit("No broker addresses provided");
    reveal_strlit("SASL username is required");
    assert(no_brokers_text().len() != sasl_username_text().len());
}

/// With certificate verification skipped, no file path enters the plan:
/// the TLS set-up reads no file, and two configurations that differ only in
/// their CA, client certificate and client key paths are planned alike.
pub proof fn lemma_skip_verification_reads_no_path(c1: AppConfig, c2: AppConfig)
    requires
        c1.ssl_skip_verification,
        c2.ssl_skip_verification,
        c1.broker == c2.broker,
        c1.security_protocol == c2.security_protocol,
        c1.sasl_mechanism == c2.sasl_mechanism,
        c1.sasl_username == c2.sasl_username,
        c1.sasl_password == c2.sasl_password,
    ensures
        c1.security_protocol.spec_uses_tls() ==> tls_plan_for(c1) == Some(
            TlsPlan::AcceptAnyCertificate,
        ),
        !c1.security_protocol.spec_uses_tls() ==> tls_plan_for(c1) is None,
        tls_plan_for(c1) is None || tls_plan_for(c1) == Some(TlsPlan::AcceptAnyCertificate),
        tls_plan_for(c1) == tls_plan_for(c2),
        sasl_plan_for(c1) == sasl_plan_for(c2),
        rejection_of(c1) == rejection_of(c2),
{
}

} // verus!
