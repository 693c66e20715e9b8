//! Reaper-specific providers and the tag taxonomy for Reaper concepts.

pub mod actions;
pub mod fx;
pub mod tags;
pub mod markers;
pub mod tracks;
pub mod transport;
