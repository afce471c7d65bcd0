//! Library behind a small tool that checks out the most recent commit of a
//! repository that existed before a given point in time ("2 days", "2d").
//!
//! The library holds the pure logic: normalizing a human-friendly time
//! expression, building the argument lists for the version-control tool, and
//! deciding from each external outcome how the run proceeds. Spawning the
//! external processes and printing belong to the surrounding binary.

pub mod command;
pub mod normalize;
pub mod orchestrate;
