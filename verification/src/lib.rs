//! Verified core of a bridge that exposes the Cider music player on the
//! MPRIS D-Bus interface: the player model, the metadata it publishes, the
//! Cider endpoints it calls, and the decisions of the polling loop.

pub mod bridge;
pub mod cider;
pub mod mpris;
