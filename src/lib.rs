//! Presence state, friendships and friend requests for a location-sharing
//! service, with the privacy transform applied before a location is shown to
//! anyone but its owner.

pub mod types;
pub mod privacy;
pub mod sapphire_client;
pub mod location_store;
pub mod celo_verifier;
pub mod api;
pub mod service;
mod seq_facts;
