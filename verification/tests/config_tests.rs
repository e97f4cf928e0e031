use msgbus::ConfigViolation;
use msgbus::KafkaConfig;
use msgbus::KafkaConfigBuilder;

#[test]
fn default_population() {
    let cfg = KafkaConfig::builder("localhost:9092").build().unwrap();
    assert_eq!(cfg.brokers, "localhost:9092");
    assert_eq!(cfg.username, "");
    assert_eq!(cfg.password, "");
    assert_eq!(cfg.sasl_type_scram_sha, "SCRAM-SHA-256");
    assert_eq!(cfg.sasl_mechanism, "PLAIN");
    assert_eq!(cfg.security_protocol, "PLAINTEXT");
    assert_eq!(cfg.cert_path, "");
    assert!(!cfg.insecure_skip_verify);
    assert_eq!(cfg.message_timeout_ms, 10_000);
    assert_eq!(cfg.message_max_bytes, 1_048_576);
    assert_eq!(cfg.message_send_max_retries, 3);
    assert_eq!(cfg.auto_offset_reset, "latest");
    assert!(!cfg.enable_auto_commit);
    assert_eq!(cfg.graceful_wait_timeout_ms, 3_000);
}

#[test]
fn setters_override_defaults() {
    let cfg = KafkaConfig::builder("b1:9092,b2:9092")
        .with_username("user")
        .with_password("pw")
        .with_sasl_type_scram_sha("SCRAM-SHA-512")
        .with_sasl_mechanism("SCRAM")
        .with_security_protocol("SASL_SSL")
        .with_cert_path("/etc/ca.pem")
        .with_message_timeout(5_000)
        .with_message_max_bytes(2048)
        .with_auto_offset_reset("earliest")
        .with_graceful_wait_timeout(1_000)
        .with_message_send_max_retries(7)
        .with_enable_auto_commit(true)
        .build()
        .unwrap();
    assert_eq!(cfg.brokers, "b1:9092,b2:9092");
    assert_eq!(cfg.username, "user");
    assert_eq!(cfg.password, "pw");
    assert_eq!(cfg.sasl_type_scram_sha, "SCRAM-SHA-512");
    assert_eq!(cfg.sasl_mechanism, "SCRAM");
    assert_eq!(cfg.security_protocol, "SASL_SSL");
    assert_eq!(cfg.cert_path, "/etc/ca.pem");
    assert_eq!(cfg.message_timeout_ms, 5_000);
    assert_eq!(cfg.message_max_bytes, 2048);
    assert_eq!(cfg.auto_offset_reset, "earliest");
    assert_eq!(cfg.graceful_wait_timeout_ms, 1_000);
    assert_eq!(cfg.message_send_max_retries, 7);
    assert!(cfg.enable_auto_commit);
}

#[test]
fn empty_brokers_rejected() {
    let violations = KafkaConfigBuilder::new("").build().unwrap_err();
    assert_eq!(violations, vec![ConfigViolation::EmptyBrokers]);
}

#[test]
fn missing_ca_cert_rejected() {
    let violations = KafkaConfig::builder("localhost:9092")
        .with_security_protocol("SASL_SSL")
        .build()
        .unwrap_err();
    assert_eq!(violations, vec![ConfigViolation::MissingCaCertPath]);
}

#[test]
fn unknown_security_protocol_rejected() {
    let violations = KafkaConfig::builder("localhost:9092")
        .with_security_protocol("QUIC")
        .build()
        .unwrap_err();
    assert_eq!(violations, vec![ConfigViolation::UnknownSecurityProtocol]);
}

#[test]
fn insecure_skip_verify_allows_missing_cert() {
    let cfg = KafkaConfig::builder("localhost:9092")
        .with_security_protocol("SSL")
        .build();
    assert!(cfg.is_err());
    let cfg = KafkaConfig::builder("localhost:9092")
        .with_security_protocol("SSL")
        .with_insecure_skip_verify(true)
        .build();
    assert!(cfg.is_ok());
}

#[test]
fn empty_string_setter_leaves_default() {
    let cfg = KafkaConfig::builder("localhost:9092")
        .with_security_protocol("")
        .with_sasl_mechanism("")
        .with_sasl_type_scram_sha("")
        .with_auto_offset_reset("")
        .build()
        .unwrap();
    assert_eq!(cfg.security_protocol, "PLAINTEXT");
    assert_eq!(cfg.sasl_mechanism, "PLAIN");
    assert_eq!(cfg.sasl_type_scram_sha, "SCRAM-SHA-256");
    assert_eq!(cfg.auto_offset_reset, "latest");
}

#[test]
fn unknown_scram_variant_rejected() {
    let violations = KafkaConfig::builder("localhost:9092")
        .with_sasl_type_scram_sha("SCRAM-SHA-1")
        .build()
        .unwrap_err();
    assert_eq!(violations, vec![ConfigViolation::UnknownScramVariant]);
}

#[test]
fn unknown_auto_offset_reset_rejected() {
    let violations = KafkaConfig::builder("localhost:9092")
        .with_auto_offset_reset("newest")
        .build()
        .unwrap_err();
    assert_eq!(violations, vec![ConfigViolation::UnknownAutoOffsetReset]);
}

#[test]
fn zero_limits_rejected() {
    let violations = KafkaConfig::builder("localhost:9092")
        .with_message_max_bytes(0)
        .with_message_timeout(0)
        .build()
        .unwrap_err();
    assert_eq!(
        violations,
        vec![
            ConfigViolation::ZeroMessageMaxBytes,
            ConfigViolation::ZeroMessageTimeout
        ]
    );
}

#[test]
fn every_violation_reported_at_once() {
    let violations = KafkaConfigBuilder::new("")
        .with_security_protocol("TELNET")
        .with_sasl_type_scram_sha("SCRAM-MD5")
        .with_auto_offset_reset("middle")
        .with_message_max_bytes(0)
        .with_message_timeout(0)
        .build()
        .unwrap_err();
    assert_eq!(
        violations,
        vec![
            ConfigViolation::EmptyBrokers,
            ConfigViolation::UnknownSecurityProtocol,
            ConfigViolation::UnknownScramVariant,
            ConfigViolation::UnknownAutoOffsetReset,
            ConfigViolation::ZeroMessageMaxBytes,
            ConfigViolation::ZeroMessageTimeout
        ]
    );
}
