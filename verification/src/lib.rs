//! Core of a BFT replica's epoch management, together with the gossip
//! discovery protocol that disseminates peer addresses.
//!
//! The library holds the decision logic: how inbound consensus messages are
//! gated by epoch, how the per-epoch processor is started, promoted and
//! replaced, how leaders are elected, how round timeouts back off, and how
//! discovery notes are merged.  Channels, clocks, randomness, storage,
//! cryptography and the network are collaborators of the surrounding
//! program: their results enter these functions as plain values.

pub mod discovery;
pub mod election;
pub mod epoch_manager;
pub mod msgs;
pub mod round_state;
pub mod types;
