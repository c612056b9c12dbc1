//! Flight-companion controller core: the verified device-communication
//! layer that bridges a camera speaking a vendor binary protocol and an
//! autopilot speaking MAVLink to higher-level consumers.
//!
//! The library holds the pure protocol logic: wire codecs, frame
//! synchronization, handshake and negotiation state machines,
//! request-response correlation, and the arbitration and command-bus rules
//! that serialize concurrent callers onto a single stateful device handle.
//! The surrounding runtime performs the actual socket and USB transfers and
//! drives these state machines.

pub mod arbiter;
pub mod bus;
pub mod codec;
pub mod commands;
pub mod config;
pub mod connect;
pub mod errors;
pub mod events;
pub mod link;
pub mod modes;
pub mod opcodes;
pub mod ptp_wire;
pub mod sdio;
pub mod tasks;
