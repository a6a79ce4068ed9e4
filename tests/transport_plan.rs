use kafka_msg_publisher::client::sasl_config_for;
use rskafka::client::SaslConfig;
use kafka_msg_publisher::brokers::parse_brokers;
use kafka_msg_publisher::transport::plan_transport;
use kafka_msg_publisher::{
    AppConfig, ClientAuthPaths, KafkaError, RootSource, SaslMechanism, SaslPlan,
    SecurityProtocol, TlsPlan,
};

fn config(broker: &str, protocol: SecurityProtocol) -> AppConfig {
    let mut c = AppConfig::default();
    c.broker = broker.to_string();
    c.security_protocol = protocol;
    c
}

#[test]
fn plaintext_brokers_are_split_and_trimmed() {
    let plan = plan_transport(&config("b1:9092, b2:9092", SecurityProtocol::Plaintext)).unwrap();
    assert_eq!(plan.brokers, vec!["b1:9092".to_string(), "b2:9092".to_string()]);
    assert!(plan.tls.is_none());
    assert!(plan.sasl.is_none());
}

#[test]
fn separator_only_broker_fields_are_rejected() {
    for field in ["", ",", " , ,\t", "\n,\u{3000},  ", "   "] {
        let r = plan_transport(&config(field, SecurityProtocol::SaslSsl));
        assert_eq!(
            r.unwrap_err(),
            KafkaError::InvalidConfig("No broker addresses provided".to_string())
        );
    }
}

#[test]
fn parse_brokers_drops_empty_segments_and_unicode_blanks() {
    assert_eq!(
        parse_brokers(",,\u{3000}a:1\u{a0}, ,b:2,"),
        vec!["a:1".to_string(), "b:2".to_string()]
    );
    assert_eq!(parse_brokers("  host one:9 "), vec!["host one:9".to_string()]);
    assert!(parse_brokers("").is_empty());
}

#[test]
fn empty_username_is_ignored_without_sasl() {
    for p in [SecurityProtocol::Plaintext, SecurityProtocol::Ssl] {
        let mut c = config("b:1", p);
        c.sasl_username = String::new();
        c.ssl_skip_verification = true;
        assert!(plan_transport(&c).is_ok());
    }
}

#[test]
fn empty_username_is_rejected_under_sasl() {
    for p in [SecurityProtocol::SaslPlaintext, SecurityProtocol::SaslSsl] {
        let c = config("b:1", p);
        assert_eq!(
            plan_transport(&c).unwrap_err(),
            KafkaError::InvalidConfig("SASL username is required".to_string())
        );
    }
}

#[test]
fn sasl_credentials_carry_the_mechanism() {
    let mut c = config("b:1", SecurityProtocol::SaslPlaintext);
    c.sasl_mechanism = SaslMechanism::ScramSha512;
    c.sasl_username = "alice".to_string();
    c.sasl_password = "pw".to_string();
    let plan = plan_transport(&c).unwrap();
    assert!(plan.tls.is_none());
    assert_eq!(
        plan.sasl,
        Some(SaslPlan {
            mechanism: SaslMechanism::ScramSha512,
            username: "alice".to_string(),
            password: "pw".to_string(),
        })
    );
}

#[test]
fn skip_verification_ignores_every_path() {
    let mut c = config("b:1", SecurityProtocol::Ssl);
    c.ssl_skip_verification = true;
    c.ssl_ca_cert_path = "/no/such/ca.pem".to_string();
    c.ssl_client_cert_path = "/no/such/cert.pem".to_string();
    c.ssl_client_key_path = "/no/such/key.pem".to_string();
    let plan = plan_transport(&c).unwrap();
    assert_eq!(plan.tls, Some(TlsPlan::AcceptAnyCertificate));
}

#[test]
fn verified_tls_uses_native_roots_without_ca_path() {
    let mut c = config("b:1", SecurityProtocol::Ssl);
    c.ssl_client_cert_path = "cert.pem".to_string();
    let plan = plan_transport(&c).unwrap();
    assert_eq!(
        plan.tls,
        Some(TlsPlan::Verify { roots: RootSource::Native, client_auth: None })
    );
}

#[test]
fn verified_tls_with_ca_and_client_auth() {
    let mut c = config("b:1", SecurityProtocol::SaslSsl);
    c.sasl_username = "u".to_string();
    c.ssl_ca_cert_path = "ca.pem".to_string();
    c.ssl_client_cert_path = "cert.pem".to_string();
    c.ssl_client_key_path = "key.pem".to_string();
    let plan = plan_transport(&c).unwrap();
    assert_eq!(
        plan.tls,
        Some(TlsPlan::Verify {
            roots: RootSource::CaFile("ca.pem".to_string()),
            client_auth: Some(ClientAuthPaths {
                cert_path: "cert.pem".to_string(),
                key_path: "key.pem".to_string(),
            }),
        })
    );
    assert_eq!(plan.sasl.unwrap().mechanism, SaslMechanism::Plain);
}

#[test]
fn default_config_values() {
    let c = AppConfig::default();
    assert_eq!(c.broker, "localhost:9092");
    assert_eq!(c.topic, "test-topic");
    assert_eq!(c.client_id, "kafka-msg-publisher");
    assert_eq!(c.security_protocol, SecurityProtocol::Plaintext);
    assert_eq!(c.sasl_mechanism, SaslMechanism::Plain);
    assert!(!c.ssl_skip_verification);
    assert_eq!(plan_transport(&c).unwrap().brokers, vec!["localhost:9092".to_string()]);
}

#[test]
fn snapshot_is_an_equal_independent_copy() {
    let mut c = config("a:1,b:2", SecurityProtocol::SaslSsl);
    c.sasl_username = "u".to_string();
    c.ssl_ca_cert_path = "ca.pem".to_string();
    let s = c.snapshot();
    c.broker = "changed:9".to_string();
    assert_eq!(s.broker, "a:1,b:2");
    assert_eq!(s.sasl_username, "u");
    assert_eq!(s.ssl_ca_cert_path, "ca.pem");
    assert_eq!(s.security_protocol, SecurityProtocol::SaslSsl);
    assert_eq!(plan_transport(&s).unwrap().brokers.len(), 2);
}

#[test]
fn protocol_gates() {
    assert!(!SecurityProtocol::Plaintext.uses_tls() && !SecurityProtocol::Plaintext.uses_sasl());
    assert!(SecurityProtocol::Ssl.uses_tls() && !SecurityProtocol::Ssl.uses_sasl());
    assert!(!SecurityProtocol::SaslPlaintext.uses_tls() && SecurityProtocol::SaslPlaintext.uses_sasl());
    assert!(SecurityProtocol::SaslSsl.uses_tls() && SecurityProtocol::SaslSsl.uses_sasl());
}

#[test]
fn client_builder_takes_every_mechanism() {
    for m in [SaslMechanism::Plain, SaslMechanism::ScramSha256, SaslMechanism::ScramSha512] {
        let mut c = config("b:1", SecurityProtocol::SaslPlaintext);
        c.sasl_username = "u".to_string();
        c.sasl_mechanism = m;
        let plan = plan_transport(&c).unwrap();
        let _builder = kafka_msg_publisher::client::client_builder(plan, None);
    }
}

#[test]
fn sasl_config_follows_the_mechanism() {
    let plan = |m| SaslPlan { mechanism: m, username: "u".to_string(), password: "p".to_string() };
    match sasl_config_for(plan(SaslMechanism::Plain)) {
        SaslConfig::Plain(c) => assert_eq!((c.username.as_str(), c.password.as_str()), ("u", "p")),
        _ => panic!("expected PLAIN"),
    }
    assert!(matches!(sasl_config_for(plan(SaslMechanism::ScramSha256)), SaslConfig::ScramSha256(_)));
    assert!(matches!(sasl_config_for(plan(SaslMechanism::ScramSha512)), SaslConfig::ScramSha512(_)));
}
