//! Decision logic for building a React frontend from a host build step.
//!
//! The host performs the outside work (testing whether a file exists, running
//! `npm`, printing lines); this library decides what is to be done next, what
//! is reported, and how the build ends.
pub mod style;
pub mod paths;
pub mod model;
pub mod messages;
pub mod orchestrator;
pub mod laws;
