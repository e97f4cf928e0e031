//! A broker abstraction layer: a uniform publish/subscribe/shutdown contract
//! over a Kafka-compatible message bus, with a validated configuration model
//! and an in-memory realization of the contract whose behaviour is verified.

pub mod broker;
pub mod kafka_config;
pub mod memory;
pub mod pump;

pub use broker::Broker;
pub use broker::BrokerError;
pub use kafka_config::ConfigViolation;
pub use kafka_config::KafkaConfig;
pub use kafka_config::KafkaConfigBuilder;
pub use memory::new_broker;
pub use memory::DeliveredRecord;
pub use memory::MemoryBroker;
pub use memory::Subscription;
pub use memory::TopicLog;
pub use pump::PumpEvent;
pub use pump::PumpState;


