//! A verified client core for a custodial transaction-signing service.
//!
//! The crate covers the two pieces of logic that carry the real risk: building
//! short-lived, replay-resistant request tokens bound to the exact request
//! being sent, and classifying the evolving status of a submitted transaction
//! while a bounded polling session runs. Network transport, key loading and
//! response deserialization are collaborators that live outside this crate.

pub mod client;
pub mod encoding;
pub mod errors;
pub mod jwt;
pub mod provider;
pub mod signer;
pub mod tracker;
pub mod types;
