//! Game-state logic for a two-party, proof-gated contest.
//!
//! One party (the admin) commits to the hash of a secret; the challenger
//! wins by presenting a zero-knowledge proof of knowing a matching
//! preimage. This crate holds the state machine that governs one-time
//! initialization, single-use proof submission and result finalization,
//! together with the guards that make the contest exactly-once. Proof
//! checking and session bookkeeping are delegated to collaborator
//! contracts behind the [`UltraHonkVerifier`] and [`GameHub`] traits;
//! persistence, authorization and event transport belong to the host
//! environment around this crate.

pub mod addr;
pub mod bytes;
pub mod game;
pub mod laws;
pub mod state;

pub use addr::Address;
pub use bytes::bytes_eq;
pub use bytes::copy_bytes;
pub use game::ChihiroGame;
pub use game::GameHub;
pub use game::UltraHonkVerifier;
pub use state::DataKey;
pub use state::Error;
pub use state::GameView;
