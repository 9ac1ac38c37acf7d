//! Peer-to-peer LAN file sharing: a UDP presence/discovery registry and a
//! TCP file-transfer protocol with batch decisions, a trust list, and a
//! size-capped transfer history, plus the pure logic of the self-update
//! subsystem (version comparison, platform asset selection, update storage).
//!
//! All protocol and state-machine logic lives here, verified; the network,
//! file-system and UI edges live in the surrounding application crate.

pub mod batch;
pub mod engine;
pub mod eta;
pub mod framing;
pub mod history;
pub mod hostinfo;
pub mod installer;
pub mod platform;
pub mod registry;
pub mod stats;
pub mod strutil;
pub mod transfer;
pub mod update_storage;
pub mod update_types;
pub mod version;
pub mod wire;
