//! Secure erasure of block devices: the rules and state machines that decide
//! what is written, in which order, and what counts as a clean wipe.

pub mod cli;
pub mod control;
pub mod coverage;
pub mod decimal;
pub mod fleet;
pub mod history;
pub mod laws;
pub mod machine;
pub mod oracle;
pub mod outcome;
pub mod pattern;
pub mod request;
pub mod schedule;
pub mod sound;
