//! Decision logic of a client that casts votes for one of two emoji over an
//! RPC channel: which target to vote for, how long to wait between votes, and
//! in what order the start-up steps and the votes follow one another.

pub mod endpoint;
pub mod exit;
pub mod pacing;
pub mod run;
pub mod session;
pub mod target;
