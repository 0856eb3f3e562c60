//! An access-controlled secret store.
//!
//! One confidential payload is owned by the principal that created the
//! instance. The owner decides which accounts may mint a viewing key, and a
//! read of the payload is admitted by presenting the key that was minted for
//! the named account.

pub mod contract;
pub mod digest;
pub mod error;
pub mod laws;
pub mod msg;
pub mod state;
pub mod viewing_key;
