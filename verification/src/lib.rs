//! Telemetry ingest for the Gran Turismo 7 simulator interface: frame
//! decryption, the binary frame layout, the strict flag set, the keep-alive
//! timer, the ingest loop's decisions and the forwarding rule.

pub mod constants;
pub mod errors;
pub mod wire;
pub mod flags;
pub mod cypher;
pub mod packet;
pub mod clock;
pub mod heartbeat;
pub mod dispatch;
pub mod pulsar_handler;
pub mod kafka_handler;
pub mod session;
pub mod config;
