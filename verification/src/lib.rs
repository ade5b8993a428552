//! Gateway core that bridges the binary TCP protocol of charging stations to
//! JSON messages exchanged with a publish/subscribe broker.
//!
//! Everything here is pure: the wire codec, the per-device session state
//! machine, the upstream link state machine and the shutdown latch. Sockets,
//! channels and the broker client are driven by the surrounding program, which
//! feeds events in and carries actions out.

pub mod evse_handler;
pub mod mqtt_handler;
pub mod protocol;
pub mod utils;
pub mod wire;
