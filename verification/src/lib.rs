//! Decision logic of a presence-driven voice agent and of a daily rotation
//! that publishes one requested item per calendar day.
//!
//! Everything here is synchronous and works on plain values: the caller
//! observes the outside world, hands the observation in, and performs the
//! action that comes back.

pub mod calendar;
pub mod config;
pub mod feed;
pub mod links;
pub mod message;
pub mod occupancy;
pub mod occupancy_laws;
pub mod rotation;
pub mod selector;
pub mod session;
pub mod text;
