use msgbus::new_broker;
use msgbus::Broker;
use msgbus::BrokerError;
use msgbus::KafkaConfig;
use msgbus::MemoryBroker;
use msgbus::PumpState;

fn open_broker() -> MemoryBroker {
    let cfg = KafkaConfig::builder("localhost:9092").build().unwrap();
    new_broker(cfg).unwrap()
}

#[test]
fn round_trip_hello() {
    let mut b = open_broker();
    b.subscribe("t", "g1").unwrap();
    b.publish("t", b"hello").unwrap();
    let d = b.deliver_next(0, true).unwrap();
    assert_eq!(d.payload, b"hello".to_vec());
    assert_eq!(d.topic, "t");
    assert_eq!(d.offset, 0);
    assert!(b.deliver_next(0, true).is_none());
}

#[test]
fn oversize_payload_rejected() {
    let cfg = KafkaConfig::builder("localhost:9092")
        .with_message_max_bytes(8)
        .build()
        .unwrap();
    let mut b = new_broker(cfg).unwrap();
    b.subscribe("t", "g1").unwrap();
    let r = b.publish("t", b"123456789");
    assert_eq!(r, Err(BrokerError::TooLarge));
    // The size gate fires before the log is touched: nothing is delivered.
    assert!(b.deliver_next(0, true).is_none());
    // A payload at the ceiling passes.
    b.publish("t", b"12345678").unwrap();
    let d = b.deliver_next(0, true).unwrap();
    assert_eq!(d.payload, b"12345678".to_vec());
}

#[test]
fn retry_on_failure_redelivers_then_commits() {
    let mut b = open_broker();
    assert!(!b.config.enable_auto_commit);
    b.subscribe("t", "g1").unwrap();
    b.publish("t", b"job").unwrap();
    // First delivery fails: the offset is not committed.
    let d1 = b.deliver_next(0, false).unwrap();
    assert_eq!(d1.payload, b"job".to_vec());
    assert_eq!(d1.offset, 0);
    assert_eq!(b.error_channel, vec![BrokerError::HandlerFailed]);
    // The same record is redelivered; success commits past it.
    let d2 = b.deliver_next(0, true).unwrap();
    assert_eq!(d2.payload, b"job".to_vec());
    assert_eq!(d2.offset, 0);
    // Exactly one successful delivery: nothing is pending afterwards.
    assert!(b.deliver_next(0, true).is_none());
    assert_eq!(b.subs[0].offset, 1);
}

#[test]
fn auto_commit_advances_past_failures() {
    let cfg = KafkaConfig::builder("localhost:9092")
        .with_enable_auto_commit(true)
        .build()
        .unwrap();
    let mut b = new_broker(cfg).unwrap();
    b.subscribe("t", "g1").unwrap();
    b.publish("t", b"a").unwrap();
    b.publish("t", b"b").unwrap();
    // Backend-managed commit moves on even when the handler fails.
    let d1 = b.deliver_next(0, false).unwrap();
    assert_eq!(d1.payload, b"a".to_vec());
    assert_eq!(b.error_channel, vec![BrokerError::HandlerFailed]);
    let d2 = b.deliver_next(0, true).unwrap();
    assert_eq!(d2.payload, b"b".to_vec());
    assert!(b.deliver_next(0, true).is_none());
}

#[test]
fn per_partition_ordering_preserved() {
    let mut b = open_broker();
    b.subscribe("t", "g1").unwrap();
    let payloads: Vec<Vec<u8>> = (0u8..10).map(|i| vec![i, i + 1]).collect();
    for p in &payloads {
        b.publish("t", p).unwrap();
    }
    for (i, expected) in payloads.iter().enumerate() {
        let d = b.deliver_next(0, true).unwrap();
        assert_eq!(&d.payload, expected);
        assert_eq!(d.offset, i);
    }
    assert!(b.deliver_next(0, true).is_none());
}

#[test]
fn publish_many_none_lost() {
    let mut b = open_broker();
    b.subscribe("t", "g1").unwrap();
    for i in 0u8..50 {
        b.publish("t", &[i]).unwrap();
    }
    assert_eq!(b.topics[0].records.len(), 50);
    let mut seen: Vec<u8> = Vec::new();
    while let Some(d) = b.deliver_next(0, true) {
        seen.push(d.payload[0]);
    }
    assert_eq!(seen, (0u8..50).collect::<Vec<u8>>());
}

#[test]
fn shutdown_idempotent_and_terminal() {
    let mut b = open_broker();
    b.subscribe("t", "g1").unwrap();
    assert_eq!(b.shutdown(), Ok(()));
    assert_eq!(b.shutdown(), Ok(()));
    assert_eq!(b.publish("t", b"x"), Err(BrokerError::ClosedBroker));
    assert_eq!(b.subscribe("t", "g2"), Err(BrokerError::ClosedBroker));
}

#[test]
fn graceful_shutdown_loses_nothing() {
    let mut b = open_broker();
    b.subscribe("t", "g1").unwrap();
    for i in 0u8..100 {
        b.publish("t", &[i]).unwrap();
    }
    let mut seen: Vec<u8> = Vec::new();
    while let Some(d) = b.deliver_next(0, true) {
        seen.push(d.payload[0]);
    }
    assert_eq!(b.shutdown(), Ok(()));
    // No record escaped the handler's view, and the log survives shutdown.
    assert_eq!(seen, (0u8..100).collect::<Vec<u8>>());
    assert_eq!(b.topics[0].records.len(), 100);
    // Pumps are stopped: nothing more is delivered.
    assert!(b.deliver_next(0, true).is_none());
}

#[test]
fn duplicate_subscription_rejected() {
    let mut b = open_broker();
    b.subscribe("t", "g1").unwrap();
    assert_eq!(b.subscribe("t", "g1"), Err(BrokerError::AlreadySubscribed));
    // A different group, or a different topic, is a new registration.
    b.subscribe("t", "g2").unwrap();
    b.subscribe("u", "g1").unwrap();
}

#[test]
fn auth_misconfiguration_rejected_at_construction() {
    // The builder already refuses TLS without a CA certificate.
    let built = KafkaConfig::builder("localhost:9092")
        .with_security_protocol("SASL_SSL")
        .build();
    assert!(built.is_err());
    // A configuration assembled by hand fails construction the same way.
    let cfg = KafkaConfig {
        brokers: "localhost:9092".to_string(),
        username: "u".to_string(),
        password: "p".to_string(),
        sasl_type_scram_sha: "SCRAM-SHA-256".to_string(),
        sasl_mechanism: "PLAIN".to_string(),
        security_protocol: "SASL_SSL".to_string(),
        cert_path: "".to_string(),
        insecure_skip_verify: false,
        message_timeout_ms: 10_000,
        message_max_bytes: 1_048_576,
        message_send_max_retries: 3,
        auto_offset_reset: "latest".to_string(),
        enable_auto_commit: false,
        graceful_wait_timeout_ms: 3_000,
    };
    match new_broker(cfg) {
        Err(e) => assert_eq!(e, BrokerError::InvalidConfig),
        Ok(_) => panic!("invalid configuration accepted"),
    }
}

#[test]
fn latest_offset_skips_history() {
    let mut b = open_broker();
    b.publish("t", b"old").unwrap();
    // Default policy is "latest": history published before the registration
    // is not delivered.
    b.subscribe("t", "g1").unwrap();
    assert!(b.deliver_next(0, true).is_none());
    b.publish("t", b"new").unwrap();
    let d = b.deliver_next(0, true).unwrap();
    assert_eq!(d.payload, b"new".to_vec());
}

#[test]
fn earliest_offset_replays_history() {
    let cfg = KafkaConfig::builder("localhost:9092")
        .with_auto_offset_reset("earliest")
        .build()
        .unwrap();
    let mut b = new_broker(cfg).unwrap();
    b.publish("t", b"old").unwrap();
    b.subscribe("t", "g1").unwrap();
    let d = b.deliver_next(0, true).unwrap();
    assert_eq!(d.payload, b"old".to_vec());
}

#[test]
fn peek_does_not_deliver() {
    let mut b = open_broker();
    b.subscribe("t", "g1").unwrap();
    b.publish("t", b"x").unwrap();
    let p = b.peek_next(0).unwrap();
    assert_eq!(p.payload, b"x".to_vec());
    assert_eq!(p.offset, 0);
    // Peeking commits nothing: the record is still pending.
    let d = b.deliver_next(0, true).unwrap();
    assert_eq!(d.payload, b"x".to_vec());
    assert!(b.peek_next(0).is_none());
}

#[test]
fn independent_groups_each_see_every_record() {
    let mut b = open_broker();
    b.subscribe("t", "g1").unwrap();
    b.subscribe("t", "g2").unwrap();
    b.publish("t", b"m").unwrap();
    let d1 = b.deliver_next(0, true).unwrap();
    let d2 = b.deliver_next(1, true).unwrap();
    assert_eq!(d1.payload, b"m".to_vec());
    assert_eq!(d2.payload, b"m".to_vec());
}

#[test]
fn handler_failures_accumulate_on_error_channel() {
    let mut b = open_broker();
    b.subscribe("t", "g1").unwrap();
    b.publish("t", b"x").unwrap();
    b.deliver_next(0, false);
    b.deliver_next(0, false);
    b.deliver_next(0, true);
    assert_eq!(
        b.error_channel,
        vec![BrokerError::HandlerFailed, BrokerError::HandlerFailed]
    );
}

#[test]
fn shutdown_stops_every_pump() {
    let mut b = open_broker();
    b.subscribe("t", "g1").unwrap();
    b.subscribe("u", "g2").unwrap();
    assert_eq!(b.subs[0].state, PumpState::Running);
    b.shutdown().unwrap();
    assert_eq!(b.subs[0].state, PumpState::Stopped);
    assert_eq!(b.subs[1].state, PumpState::Stopped);
}
