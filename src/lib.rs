//! An access-controlled signing gateway: owner-based authorization, the key
//! configuration, snapshots for restarts, and the requests handed to the
//! threshold-signing service, all as plain state and pure decisions.
pub mod config;
pub mod error;
pub mod gateway;
pub mod identity;
pub mod metrics;
pub mod state;
