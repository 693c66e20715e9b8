//! Reaper-aware launcher content: items, providers' decisions and tag taxonomy.

pub mod item;
pub mod launcher;
pub mod reaper;
pub mod text;
